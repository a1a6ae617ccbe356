use librepods::bluetooth::aacp::{BatteryComponent, BatteryInfo, BatteryStatus};
use librepods::ui::format::live_case_level;
use librepods::ui::window::view::{battery_parts, battery_text, CHARGING_MARK};

fn entry(component: BatteryComponent, level: u8, status: BatteryStatus) -> BatteryInfo {
    BatteryInfo {
        component,
        level,
        status,
    }
}

fn texts(parts: &[(String, bool)]) -> Vec<&str> {
    parts.iter().map(|(t, _)| t.as_str()).collect()
}

#[test]
fn battery_text_marks_charging_and_unknown() {
    let charging = entry(BatteryComponent::Left, 40, BatteryStatus::Charging);
    let optimized = entry(BatteryComponent::Left, 80, BatteryStatus::OptimizedCharging);
    let idle = entry(BatteryComponent::Left, 100, BatteryStatus::NotCharging);
    let gone = entry(BatteryComponent::Left, 0, BatteryStatus::Disconnected);
    let bogus = entry(BatteryComponent::Left, 255, BatteryStatus::NotCharging);
    assert_eq!(battery_text(Some(&charging)), format!("40%{CHARGING_MARK}"));
    assert_eq!(battery_text(Some(&optimized)), format!("80%{CHARGING_MARK}"));
    assert_eq!(battery_text(Some(&idle)), "100%");
    assert_eq!(battery_text(Some(&gone)), "-");
    assert_eq!(battery_text(Some(&bogus)), "-");
    assert_eq!(battery_text(None), "-");
}

#[test]
fn window_case_level_is_remembered_only_when_reported() {
    let in_case = [entry(BatteryComponent::Case, 60, BatteryStatus::NotCharging)];
    let buds_out = [entry(BatteryComponent::Case, 0, BatteryStatus::Disconnected)];
    let buds_out_255 = [entry(BatteryComponent::Case, 255, BatteryStatus::Disconnected)];
    let bad_level = [entry(BatteryComponent::Case, 101, BatteryStatus::Charging)];
    assert_eq!(live_case_level(&in_case), Some(60));
    assert_eq!(live_case_level(&buds_out), None);
    assert_eq!(live_case_level(&buds_out_255), None);
    assert_eq!(live_case_level(&bad_level), None);
    assert_eq!(live_case_level(&[]), None);
}

#[test]
fn case_falls_back_to_last_known_level() {
    let battery = [
        entry(BatteryComponent::Left, 90, BatteryStatus::NotCharging),
        entry(BatteryComponent::Right, 85, BatteryStatus::NotCharging),
        entry(BatteryComponent::Case, 0, BatteryStatus::Disconnected),
    ];
    let parts = battery_parts(&battery, Some(60));
    assert_eq!(
        texts(&parts),
        ["\u{1018E5} 90%", "\u{1018E8} 85%", "\u{100E6C} 60%"]
    );
    assert!(parts[2].1);

    let parts = battery_parts(&battery, None);
    assert_eq!(parts[2], ("\u{100E6C} -".to_string(), false));
}

#[test]
fn live_case_level_wins_over_last_known() {
    let battery = [
        entry(BatteryComponent::Left, 90, BatteryStatus::Charging),
        entry(BatteryComponent::Case, 50, BatteryStatus::NotCharging),
    ];
    let parts = battery_parts(&battery, Some(70));
    assert_eq!(
        texts(&parts),
        [
            format!("\u{1018E5} 90%{CHARGING_MARK}").as_str(),
            "\u{1018E8} -",
            "\u{100E6C} 50%"
        ]
    );
    assert!(!parts[2].1);
}

#[test]
fn window_headphones_show_one_level() {
    let battery = [entry(BatteryComponent::Headphone, 30, BatteryStatus::NotCharging)];
    assert_eq!(texts(&battery_parts(&battery, Some(70))), ["􀺹 30%"]);
}
