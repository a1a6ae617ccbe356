//! The color scheme choice offered in the settings page and how it maps onto
//! the theme stored in AppSettings.

use crate::text::{contains_text, same_text};
use crate::utils::MyTheme;
use vstd::prelude::*;

verus! {

/// Light or dark preference. System follows the desktop setting.
#[derive(Debug, Clone, Copy, PartialEq, Eq, Structural)]
pub enum ThemePreference {
    System,
    Light,
    Dark,
}

/// Stored themes read as Dark besides those with "Dark" in their name. Every
/// other name that is not "Light" reads as System, so a light variant from
/// the old theme list follows the desktop.
pub open spec fn dark_theme(name: Seq<char>) -> bool {
    ||| name == "Dark"@
    ||| name == "Dracula"@
    ||| name == "Nord"@
    ||| name == "CatppuccinFrappe"@
    ||| name == "CatppuccinMacchiato"@
    ||| name == "CatppuccinMocha"@
    ||| name == "TokyoNight"@
    ||| name == "TokyoNightStorm"@
    ||| name == "KanagawaWave"@
    ||| name == "KanagawaDragon"@
    ||| name == "Moonfly"@
    ||| name == "Nightfly"@
    ||| name == "Oxocarbon"@
    ||| name == "Ferra"@
}

fn is_dark_theme(name: &str) -> (yes: bool)
    ensures
        yes == dark_theme(name@),
{
    same_text(name, "Dark") || same_text(name, "Dracula") || same_text(name, "Nord") || same_text(
        name,
        "CatppuccinFrappe",
    ) || same_text(name, "CatppuccinMacchiato") || same_text(name, "CatppuccinMocha") || same_text(
        name,
        "TokyoNight",
    ) || same_text(name, "TokyoNightStorm") || same_text(name, "KanagawaWave") || same_text(
        name,
        "KanagawaDragon",
    ) || same_text(name, "Moonfly") || same_text(name, "Nightfly") || same_text(name, "Oxocarbon")
        || same_text(name, "Ferra")
}

/// The preference a stored theme name reads as.
pub open spec fn preference_of(name: Seq<char>) -> ThemePreference {
    if name == "Light"@ {
        ThemePreference::Light
    } else if crate::text::contains_part(name, "Dark"@) || dark_theme(name) {
        ThemePreference::Dark
    } else {
        ThemePreference::System
    }
}

/// The value a preference is stored as.
pub open spec fn stored_as(preference: ThemePreference) -> MyTheme {
    match preference {
        ThemePreference::System => MyTheme::SolarizedLight,
        ThemePreference::Light => MyTheme::Light,
        ThemePreference::Dark => MyTheme::Dark,
    }
}

impl ThemePreference {
    /// Options in the order the settings page lists them.
    pub fn all() -> (all: [ThemePreference; 3])
        ensures
            all@ == seq![ThemePreference::System, ThemePreference::Light, ThemePreference::Dark],
    {
        [ThemePreference::System, ThemePreference::Light, ThemePreference::Dark]
    }

    /// The text of the option.
    pub fn label(self) -> (label: &'static str)
        ensures
            label@ == match self {
                ThemePreference::System => "System"@,
                ThemePreference::Light => "Light"@,
                ThemePreference::Dark => "Dark"@,
            },
    {
        match self {
            ThemePreference::System => "System",
            ThemePreference::Light => "Light",
            ThemePreference::Dark => "Dark",
        }
    }

    /// Reads a stored theme name leniently: "Light" is Light, names of dark
    /// themes (anything with "Dark" in it too) are Dark, anything else, also
    /// names this version does not know, is System.
    pub fn from_name(name: &str) -> (preference: ThemePreference)
        ensures
            preference == preference_of(name@),
    {
        if same_text(name, "Light") {
            ThemePreference::Light
        } else if contains_text(name, "Dark") || is_dark_theme(name) {
            ThemePreference::Dark
        } else {
            ThemePreference::System
        }
    }

    /// The preference a stored theme reads as.
    pub fn from_stored(theme: MyTheme) -> (preference: ThemePreference)
        ensures
            preference == preference_of(theme.variant()),
    {
        ThemePreference::from_name(theme.name())
    }

    /// The value written to AppSettings. The stored type still lists the old
    /// named themes and has no System entry, so System is written as a light
    /// variant that `from_name` reads back as System.
    pub fn to_stored(self) -> (theme: MyTheme)
        ensures
            theme == stored_as(self),
    {
        match self {
            ThemePreference::System => MyTheme::SolarizedLight,
            ThemePreference::Light => MyTheme::Light,
            ThemePreference::Dark => MyTheme::Dark,
        }
    }
}

/// How the names of dark themes end: of those in "t" one is ten letters long,
/// of those in "e" one is twelve and one sixteen, and none ends in "s".
proof fn lemma_dark_endings(name: Seq<char>)
    requires
        dark_theme(name),
    ensures
        name.last() == 't' ==> name.len() == 10,
        name.last() == 'e' ==> name.len() == 12 || name.len() == 16,
        name.last() != 's',
{
    reveal_strlit("Dark");
    reveal_strlit("Dracula");
    reveal_strlit("Nord");
    reveal_strlit("CatppuccinFrappe");
    reveal_strlit("CatppuccinMacchiato");
    reveal_strlit("CatppuccinMocha");
    reveal_strlit("TokyoNight");
    reveal_strlit("TokyoNightStorm");
    reveal_strlit("KanagawaWave");
    reveal_strlit("KanagawaDragon");
    reveal_strlit("Moonfly");
    reveal_strlit("Nightfly");
    reveal_strlit("Oxocarbon");
    reveal_strlit("Ferra");
}

/// A name without a "D" has no "Dark" in it.
proof fn lemma_no_dark_part(name: Seq<char>)
    requires
        forall|i: int| 0 <= i < name.len() ==> #[trigger] name[i] != 'D',
    ensures
        !crate::text::contains_part(name, "Dark"@),
{
    reveal_strlit("Dark");
    if crate::text::contains_part(name, "Dark"@) {
        let at = choose|i: int|
            0 <= i <= name.len() - "Dark"@.len() && #[trigger] name.subrange(
                i,
                i + "Dark"@.len(),
            ) == "Dark"@;
        assert(name.subrange(at, at + "Dark"@.len())[0] == name[at]);
    }
}

/// The light variants of the named themes follow the desktop.
proof fn lemma_light_variant(name: Seq<char>)
    requires
        name == "SolarizedLight"@ || name == "GruvboxLight"@ || name == "CatppuccinLatte"@ || name
            == "TokyoNightLight"@ || name == "KanagawaLotus"@,
    ensures
        preference_of(name) is System,
{
    reveal_strlit("SolarizedLight");
    reveal_strlit("GruvboxLight");
    reveal_strlit("CatppuccinLatte");
    reveal_strlit("TokyoNightLight");
    reveal_strlit("KanagawaLotus");
    reveal_strlit("Light");
    if dark_theme(name) {
        lemma_dark_endings(name);
    }
    lemma_no_dark_part(name);
}

/// The dark variants have "Dark" in their name.
proof fn lemma_dark_variant(name: Seq<char>)
    requires
        name == "SolarizedDark"@ || name == "GruvboxDark"@,
    ensures
        preference_of(name) is Dark,
{
    reveal_strlit("SolarizedDark");
    reveal_strlit("GruvboxDark");
    reveal_strlit("Dark");
    reveal_strlit("Light");
    assert(name.subrange(name.len() - "Dark"@.len(), name.len() as int) =~= "Dark"@);
    let at = name.len() - "Dark"@.len();
    assert(name.subrange(at, at + "Dark"@.len()) == "Dark"@);
}

/// What each stored theme reads as: Light as light, the light variants of the
/// other themes as the desktop says, and all the rest as dark.
pub proof fn stored_themes_read_as_their_shade(theme: MyTheme)
    ensures
        ({
            let preference = preference_of(theme.variant());
            let follows = theme is SolarizedLight || theme is GruvboxLight
                || theme is CatppuccinLatte || theme is TokyoNightLight || theme is KanagawaLotus;
            &&& theme is Light ==> preference is Light
            &&& follows ==> preference is System
            &&& !(theme is Light) && !follows ==> preference is Dark
        }),
{
    let name = theme.variant();
    let follows = theme is SolarizedLight || theme is GruvboxLight || theme is CatppuccinLatte
        || theme is TokyoNightLight || theme is KanagawaLotus;
    if follows {
        lemma_light_variant(name);
    } else if theme is SolarizedDark || theme is GruvboxDark {
        lemma_dark_variant(name);
    } else if !(theme is Light) {
        reveal_strlit("Light");
        lemma_dark_endings(name);
    }
}

/// What each preference is stored as.
pub proof fn preferences_are_stored_as_these_themes()
    ensures
        stored_as(ThemePreference::System) is SolarizedLight,
        stored_as(ThemePreference::Light) is Light,
        stored_as(ThemePreference::Dark) is Dark,
{
}

/// A stored preference reads back as the same preference.
pub proof fn stored_preference_reads_back(preference: ThemePreference)
    ensures
        preference_of(stored_as(preference).variant()) == preference,
{
    stored_themes_read_as_their_shade(stored_as(preference));
}

} // verus!
