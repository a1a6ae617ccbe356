use librepods::address_map::AddressMap;
use librepods::devices::enums::{DeviceData, DeviceType};
use librepods::utils::{
    after_copy, ah, ensure_device_registered, first_three, get_app_settings_path,
    get_devices_path, get_old_app_settings_path, get_preferences_path, pad, rename_device,
    reversed, start_migration, update_devices_file, AppSettings, DevicesError, DevicesRead,
    Migration, MyTheme, PreferredCodec,
};

const PODS: &str = "AA:BB:CC:DD:EE:01";

#[test]
fn the_address_hash_of_a_known_key() {
    // Key ec0234a357c8ad05341010a60a397d9b, random part 708194, hash 0dfbaa;
    // here with the least significant byte first.
    let key = [
        0x9b, 0x7d, 0x39, 0x0a, 0xa6, 0x10, 0x10, 0x34, 0x05, 0xad, 0xc8, 0x57, 0xa3, 0x34, 0x02,
        0xec,
    ];
    assert_eq!(ah(&key, &[0x94, 0x81, 0x70]), [0xaa, 0xfb, 0x0d]);
    assert_ne!(ah(&key, &[0x94, 0x81, 0x71]), [0xaa, 0xfb, 0x0d]);
}

#[test]
fn blocks_are_reversed_padded_and_cut() {
    let mut block = [0u8; 16];
    for (i, byte) in block.iter_mut().enumerate() {
        *byte = i as u8;
    }
    let mut expected = block;
    expected.reverse();
    assert_eq!(reversed(&block), expected);
    assert_eq!(pad(&[7, 8, 9])[..4], [7, 8, 9, 0]);
    assert!(pad(&[7, 8, 9])[3..].iter().all(|b| *b == 0));
    assert_eq!(first_three(&block), [0, 1, 2]);
}

#[test]
fn files_lie_below_the_xdg_directories() {
    assert_eq!(
        get_devices_path(Some("/data"), Some("/home/me")),
        "/data/librepods/devices.json"
    );
    assert_eq!(
        get_devices_path(None, Some("/home/me")),
        "/home/me/.local/share/librepods/devices.json"
    );
    assert_eq!(get_devices_path(None, None), "/.local/share/librepods/devices.json");
    assert_eq!(
        get_preferences_path(Some("/conf/"), None),
        "/conf/librepods/preferences.json"
    );
    assert_eq!(
        get_preferences_path(None, Some("/home/me")),
        "/home/me/.config/librepods/preferences.json"
    );
    assert_eq!(
        get_app_settings_path(Some(""), None),
        "librepods/app_settings.json"
    );
    assert_eq!(
        get_app_settings_path(None, Some("/home/me")),
        "/home/me/.config/librepods/app_settings.json"
    );
    assert_eq!(
        get_old_app_settings_path(None, Some("/home/me")),
        "/home/me/.local/share/app_settings.json"
    );
    assert_eq!(get_old_app_settings_path(Some("/data"), None), "/data/app_settings.json");
}

#[test]
fn paths_join_like_those_of_the_standard_library() {
    for base in ["/data", "/data/", "", "relative", "/"] {
        let expected = std::path::PathBuf::from(base).join("librepods").join("devices.json");
        assert_eq!(get_devices_path(Some(base), None), expected.to_str().unwrap());
    }
}

#[test]
fn old_settings_move_only_where_no_new_ones_are() {
    assert_eq!(start_migration(true, false), Migration::Copy);
    assert_eq!(start_migration(true, true), Migration::Nothing);
    assert_eq!(start_migration(false, false), Migration::Nothing);
    assert_eq!(start_migration(false, true), Migration::Nothing);
    assert_eq!(after_copy(true), Migration::RemoveOld);
    assert_eq!(after_copy(false), Migration::Nothing);
}

#[test]
fn known_devices_stay_when_registered_again() {
    let mut devices: AddressMap<DeviceData> = AddressMap::new();
    ensure_device_registered(&mut devices, PODS, "Pods", DeviceType::AirPods);
    ensure_device_registered(&mut devices, PODS, "Other", DeviceType::Nothing);
    assert_eq!(devices.len(), 1);
    let device = devices.get(PODS).unwrap();
    assert_eq!((device.name.as_str(), device.type_), ("Pods", DeviceType::AirPods));
    assert!(device.information.is_none());
}

#[test]
fn only_known_devices_are_renamed() {
    let mut devices: AddressMap<DeviceData> = AddressMap::new();
    rename_device(&mut devices, PODS, "New".to_string());
    assert!(devices.get(PODS).is_none());
    ensure_device_registered(&mut devices, PODS, "Pods", DeviceType::AirPods);
    rename_device(&mut devices, PODS, "New".to_string());
    let device = devices.get(PODS).unwrap();
    assert_eq!((device.name.as_str(), device.type_), ("New", DeviceType::AirPods));
}

#[test]
fn a_file_that_does_not_parse_is_not_overwritten() {
    let invalid = update_devices_file("/d.json", DevicesRead::Invalid("bad".to_string()));
    assert_eq!(
        invalid.unwrap_err(),
        DevicesError::Invalid("/d.json is not valid, not overwriting it: bad".to_string())
    );
    let failed = update_devices_file("/d.json", DevicesRead::Failed("denied".to_string()));
    assert_eq!(failed.unwrap_err(), DevicesError::Failed("denied".to_string()));
    let missing = update_devices_file("/d.json", DevicesRead::Missing);
    assert!(missing.unwrap().is_empty());
    let mut devices: AddressMap<DeviceData> = AddressMap::new();
    ensure_device_registered(&mut devices, PODS, "Pods", DeviceType::AirPods);
    let read = update_devices_file("/d.json", DevicesRead::Devices(devices));
    assert!(read.unwrap().contains_key(PODS));
}

#[test]
fn the_chosen_codec_is_tried_first() {
    assert_eq!(
        PreferredCodec::Aac.profile_order(),
        ["a2dp-sink", "a2dp-sink-sbc_xq", "a2dp-sink-sbc"]
    );
    assert_eq!(
        PreferredCodec::SbcXq.profile_order(),
        ["a2dp-sink-sbc_xq", "a2dp-sink", "a2dp-sink-sbc"]
    );
    assert_eq!(
        PreferredCodec::Sbc.profile_order(),
        ["a2dp-sink-sbc", "a2dp-sink", "a2dp-sink-sbc_xq"]
    );
    assert_eq!(PreferredCodec::all().map(|c| c.label()), ["AAC", "SBC-XQ", "SBC"]);
    assert_eq!(PreferredCodec::default(), PreferredCodec::Aac);
}

#[test]
fn missing_settings_are_the_default_ones() {
    let stored = AppSettings { theme: MyTheme::Ferra, stem_control: true, ..AppSettings::default() };
    assert_eq!(AppSettings::load(Some(stored)), stored);
    let default = AppSettings::load(None);
    assert_eq!(default, AppSettings::default());
    assert_eq!(default.theme, MyTheme::Dark);
    assert!(!default.tray_text_mode && !default.stem_control);
    assert!(default.hires_mic_enabled && default.hires_mic_agc && default.hires_mic_pause_convo);
    assert!(default.a2dp_reset && default.auto_switch_on_playback);
}

#[test]
fn themes_have_a_stored_and_a_shown_name() {
    assert_eq!(MyTheme::SolarizedLight.name(), "SolarizedLight");
    assert_eq!(MyTheme::SolarizedLight.label(), "Solarized Light");
    assert_eq!(MyTheme::CatppuccinFrappe.label(), "Catppuccin Frappé");
    assert_eq!(format!("{:?}", MyTheme::KanagawaWave), MyTheme::KanagawaWave.name());
}
