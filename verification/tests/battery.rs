use librepods::bluetooth::aacp::{BatteryComponent, BatteryInfo, BatteryStatus};
use librepods::ui::gtk::battery::{batteries, Batteries, Level};

fn entry(component: BatteryComponent, level: u8, status: BatteryStatus) -> BatteryInfo {
    BatteryInfo {
        component,
        level,
        status,
    }
}

fn level(percent: u8, charging: bool) -> Level {
    Level {
        percent: Some(percent),
        charging,
        stale: false,
    }
}

#[test]
fn icon_rounds_to_the_nearest_ten() {
    assert_eq!(level(0, false).icon_name(), "battery-level-0-symbolic");
    assert_eq!(level(4, false).icon_name(), "battery-level-0-symbolic");
    assert_eq!(level(45, false).icon_name(), "battery-level-50-symbolic");
    assert_eq!(level(94, false).icon_name(), "battery-level-90-symbolic");
    assert_eq!(level(100, false).icon_name(), "battery-level-100-symbolic");
}

#[test]
fn charging_icons_and_full_charge() {
    assert_eq!(
        level(52, true).icon_name(),
        "battery-level-50-charging-symbolic"
    );
    assert_eq!(
        level(96, true).icon_name(),
        "battery-level-100-charged-symbolic"
    );
    assert_eq!(Level::unknown().icon_name(), "battery-missing-symbolic");
}

#[test]
fn text_is_percent_or_dash() {
    assert_eq!(level(7, true).text(), "7%");
    assert_eq!(Level::unknown().text(), "-");
}

#[test]
fn disconnected_buds_are_unknown_not_charging() {
    let report = [
        entry(BatteryComponent::Left, 0, BatteryStatus::Disconnected),
        entry(BatteryComponent::Right, 60, BatteryStatus::Charging),
    ];
    let Batteries::Buds { left, right, case } = batteries(&report, None) else {
        panic!("earbuds expected");
    };
    assert_eq!(left, Level::unknown());
    assert_eq!(right, level(60, true));
    assert_eq!(case, Level::unknown());
}

#[test]
fn silent_case_shows_the_last_level_as_stale() {
    let report = [entry(
        BatteryComponent::Case,
        255,
        BatteryStatus::Disconnected,
    )];
    let Batteries::Buds { case, .. } = batteries(&report, Some(70)) else {
        panic!("earbuds expected");
    };
    assert_eq!(
        case,
        Level {
            percent: Some(70),
            charging: false,
            stale: true
        }
    );
}

#[test]
fn live_case_wins_over_the_last_level() {
    let report = [entry(BatteryComponent::Case, 40, BatteryStatus::Charging)];
    let Batteries::Buds { case, .. } = batteries(&report, Some(70)) else {
        panic!("earbuds expected");
    };
    assert_eq!(case, level(40, true));
}

#[test]
fn battery_headphones_show_one_level() {
    let report = [entry(
        BatteryComponent::Headphone,
        30,
        BatteryStatus::NotCharging,
    )];
    let shown = batteries(&report, Some(90));
    assert_eq!(shown, Batteries::Headphone(level(30, false)));
    assert_eq!(shown.labeled(), vec![("Battery", level(30, false))]);
}
