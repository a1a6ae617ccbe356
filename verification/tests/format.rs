use librepods::bluetooth::aacp::{BatteryComponent, BatteryInfo, BatteryStatus};
use librepods::time::Duration;
use librepods::ui::format::{live_case_level, mmss, validate_device_name, MAX_NAME_BYTES};

fn entry(component: BatteryComponent, level: u8, status: BatteryStatus) -> BatteryInfo {
    BatteryInfo {
        component,
        level,
        status,
    }
}
#[test]
fn format_mmss_pads_seconds() {
    assert_eq!(mmss(Duration::zero()), "0:00");
    assert_eq!(mmss(Duration::from_millis(59_999)), "0:59");
    assert_eq!(mmss(Duration::from_secs(65)), "1:05");
    assert_eq!(mmss(Duration::from_secs(300)), "5:00");
    assert_eq!(mmss(Duration::from_secs(3600)), "60:00");
}

#[test]
fn format_device_name_is_trimmed_and_bounded() {
    assert_eq!(validate_device_name("  Pods  "), Ok("Pods"));
    assert!(validate_device_name("").is_err());
    assert!(validate_device_name("   ").is_err());
    let longest = "a".repeat(MAX_NAME_BYTES);
    assert_eq!(validate_device_name(&longest), Ok(longest.as_str()));
    assert!(validate_device_name(&"a".repeat(MAX_NAME_BYTES + 1)).is_err());
    // Eleven three-byte characters are 33 bytes: the limit is in bytes, not chars.
    assert!(validate_device_name(&"\u{20AC}".repeat(11)).is_err());
    assert!(validate_device_name(&"\u{20AC}".repeat(10)).is_ok());
}

#[test]
fn device_name_hints_say_what_is_wrong() {
    assert_eq!(validate_device_name(" "), Err("Name can't be empty"));
    assert_eq!(
        validate_device_name(&"a".repeat(MAX_NAME_BYTES + 1)),
        Err("Name is too long")
    );
}

#[test]
fn format_case_level_is_remembered_only_when_reported() {
    let in_case = [entry(
        BatteryComponent::Case,
        60,
        BatteryStatus::NotCharging,
    )];
    let buds_out = [entry(
        BatteryComponent::Case,
        0,
        BatteryStatus::Disconnected,
    )];
    let buds_out_255 = [entry(
        BatteryComponent::Case,
        255,
        BatteryStatus::Disconnected,
    )];
    let bad_level = [entry(BatteryComponent::Case, 101, BatteryStatus::Charging)];
    assert_eq!(live_case_level(&in_case), Some(60));
    assert_eq!(live_case_level(&buds_out), None);
    assert_eq!(live_case_level(&buds_out_255), None);
    assert_eq!(live_case_level(&bad_level), None);
    assert_eq!(live_case_level(&[]), None);
}

#[test]
fn airpods_mmss_pads_seconds() {
    assert_eq!(mmss(Duration::zero()), "0:00");
    assert_eq!(mmss(Duration::from_millis(59_999)), "0:59");
    assert_eq!(mmss(Duration::from_secs(65)), "1:05");
    assert_eq!(mmss(Duration::from_secs(300)), "5:00");
    assert_eq!(mmss(Duration::from_secs(3600)), "60:00");
}

#[test]
fn airpods_device_name_is_trimmed_and_bounded() {
    assert_eq!(validate_device_name("  Pods  "), Ok("Pods"));
    assert!(validate_device_name("").is_err());
    assert!(validate_device_name("   ").is_err());
    let longest = "a".repeat(MAX_NAME_BYTES);
    assert_eq!(validate_device_name(&longest), Ok(longest.as_str()));
    assert!(validate_device_name(&"a".repeat(MAX_NAME_BYTES + 1)).is_err());
    // Eleven three-byte characters are 33 bytes: the limit is in bytes, not chars.
    assert!(validate_device_name(&"\u{20AC}".repeat(11)).is_err());
    assert!(validate_device_name(&"\u{20AC}".repeat(10)).is_ok());
}
