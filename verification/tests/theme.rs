use librepods::ui::gtk::theme::ThemePreference;
use librepods::utils::MyTheme;

#[test]
fn light_is_light_and_dark_names_are_dark() {
    assert_eq!(ThemePreference::from_name("Light"), ThemePreference::Light);
    for name in [
        "Dark",
        "SolarizedDark",
        "GruvboxDark",
        "Nord",
        "CatppuccinMocha",
    ] {
        assert_eq!(
            ThemePreference::from_name(name),
            ThemePreference::Dark,
            "{name}"
        );
    }
}

#[test]
fn other_and_unknown_names_follow_the_system() {
    for name in [
        "SolarizedLight",
        "CatppuccinLatte",
        "KanagawaLotus",
        "Ferra2",
        "",
    ] {
        assert_eq!(
            ThemePreference::from_name(name),
            ThemePreference::System,
            "{name}"
        );
    }
}

#[test]
fn every_old_theme_maps_to_a_preference() {
    assert_eq!(
        ThemePreference::from_stored(MyTheme::Light),
        ThemePreference::Light
    );
    assert_eq!(
        ThemePreference::from_stored(MyTheme::Dark),
        ThemePreference::Dark
    );
    assert_eq!(
        ThemePreference::from_stored(MyTheme::TokyoNight),
        ThemePreference::Dark
    );
    assert_eq!(
        ThemePreference::from_stored(MyTheme::TokyoNightLight),
        ThemePreference::System
    );
}

#[test]
fn stored_value_reads_back_as_the_same_preference() {
    for preference in ThemePreference::all() {
        assert_eq!(
            ThemePreference::from_stored(preference.to_stored()),
            preference
        );
    }
}
