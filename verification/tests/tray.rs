use librepods::bluetooth::aacp::{BatteryStatus, ControlCommandIdentifiers};
use librepods::ui::messages::BluetoothUIMessage;
use librepods::ui::tray::{
    argb_bytes, battery_text, icon_base, icon_overlay, known_level, text_mode, tray_text_mode,
    MyTray, Overlay, TrayAction, TrayItem, TrayRequest,
};
use librepods::ui::tray_icon::Rgba;

#[test]
fn tray_activation_opens_window() {
    let tray = MyTray {
        conversation_detect_enabled: None,
        battery_headphone: None,
        battery_headphone_status: None,
        battery_l: None,
        battery_l_status: None,
        battery_r: None,
        battery_r_status: None,
        battery_c: None,
        battery_c_status: None,
        connected: false,
        listening_mode: None,
        allow_off_option: None,
    };

    let request = tray.activate(TRAY_ACTIVATION_X, TRAY_ACTIVATION_Y);

    assert!(matches!(request, TrayRequest::Ui(BluetoothUIMessage::OpenWindow)));
}

const TRAY_ACTIVATION_X: i32 = 0;
const TRAY_ACTIVATION_Y: i32 = 0;

fn empty_tray() -> MyTray {
    MyTray {
        conversation_detect_enabled: None,
        battery_headphone: None,
        battery_headphone_status: None,
        battery_l: None,
        battery_l_status: None,
        battery_r: None,
        battery_r_status: None,
        battery_c: None,
        battery_c_status: None,
        connected: false,
        listening_mode: None,
        allow_off_option: None,
    }
}

#[test]
fn unknown_battery_has_no_level() {
    let mut tray = empty_tray();
    assert_eq!(tray.icon_level(), None);
    assert_eq!(tray.battery_description(), "L: - R: - C: -");

    tray.battery_l = Some(0);
    tray.battery_l_status = Some(BatteryStatus::Disconnected);
    tray.battery_r = Some(255);
    tray.battery_r_status = Some(BatteryStatus::NotCharging);
    assert_eq!(tray.icon_level(), None);
    assert_eq!(tray.battery_description(), "L: - R: - C: -");
}

#[test]
fn icon_level_is_lowest_known_bud() {
    let mut tray = empty_tray();
    tray.battery_l = Some(80);
    tray.battery_l_status = Some(BatteryStatus::NotCharging);
    tray.battery_r = Some(40);
    tray.battery_r_status = Some(BatteryStatus::Disconnected);
    tray.battery_c = Some(0);
    tray.battery_c_status = Some(BatteryStatus::Disconnected);
    assert_eq!(tray.icon_level(), Some(80));
    assert_eq!(tray.battery_description(), "L: 80% R: - C: -");
}

#[test]
fn headphones_show_a_single_level() {
    let mut tray = empty_tray();
    tray.battery_headphone = Some(55);
    tray.battery_headphone_status = Some(BatteryStatus::Charging);
    assert_eq!(tray.icon_level(), Some(55));
    assert!(tray.any_bud_charging());
    assert_eq!(tray.battery_description(), "Battery: 55%⚡");
}

#[test]
fn optimized_charging_counts_as_charging() {
    let mut tray = empty_tray();
    tray.battery_l = Some(90);
    tray.battery_l_status = Some(BatteryStatus::OptimizedCharging);
    assert!(tray.any_bud_charging());
    assert_eq!(tray.battery_description(), "L: 90%⚡ R: - C: -");
}

#[test]
fn levels_worth_drawing_are_known_and_in_range() {
    assert_eq!(known_level(Some(100), None), Some(100));
    assert_eq!(known_level(Some(101), None), None);
    assert_eq!(known_level(Some(50), Some(BatteryStatus::Disconnected)), None);
    assert_eq!(known_level(None, Some(BatteryStatus::Charging)), None);
    assert_eq!(battery_text(Some(80), Some(BatteryStatus::Charging)), "80%\u{26A1}");
    assert_eq!(battery_text(Some(80), None), "80%");
    assert_eq!(battery_text(None, None), "-");
}

#[test]
fn the_menu_offers_off_only_when_allowed() {
    let mut tray = empty_tray();
    let items = tray.menu();
    assert_eq!(items.len(), 6);
    assert!(matches!(
        items[0],
        TrayItem::Standard {
            label: "Open Window",
            icon_name: "window-new",
            enabled: true,
            action: TrayAction::OpenWindow
        }
    ));
    assert!(matches!(
        items[1],
        TrayItem::Standard {
            label: "Connect AirPods to this PC",
            icon_name: "bluetooth-active",
            enabled: true,
            action: TrayAction::ConnectAirPods
        }
    ));
    let TrayItem::Modes { options, selected } = &items[2] else {
        panic!("the modes come third");
    };
    assert_eq!(
        options,
        &[("Noise Cancellation", 0x02), ("Transparency", 0x03), ("Adaptive", 0x04)]
    );
    assert_eq!(*selected, 0);
    assert!(matches!(items[3], TrayItem::Separator));
    assert!(matches!(
        items[4],
        TrayItem::Checkmark {
            label: "Conversation Detection",
            checked: false,
            enabled: false,
            action: TrayAction::ToggleConversationDetection
        }
    ));
    assert!(matches!(
        items[5],
        TrayItem::Standard {
            label: "Exit",
            icon_name: "application-exit",
            enabled: true,
            action: TrayAction::Exit
        }
    ));

    tray.allow_off_option = Some(0x01);
    tray.listening_mode = Some(0x04);
    tray.connected = true;
    tray.conversation_detect_enabled = Some(true);
    let items = tray.menu();
    assert!(matches!(items[1], TrayItem::Standard { enabled: false, .. }));
    let TrayItem::Modes { options, selected } = &items[2] else {
        panic!("the modes come third");
    };
    assert_eq!(options[0], ("Off", 0x01));
    assert_eq!((options.len(), *selected), (4, 3));
    assert!(matches!(items[4], TrayItem::Checkmark { checked: true, enabled: true, .. }));
}

#[test]
fn an_unlisted_mode_selects_the_first_entry() {
    let mut tray = empty_tray();
    // Off is not offered, so nothing in the menu is the current mode.
    tray.listening_mode = Some(0x01);
    let items = tray.menu();
    assert!(matches!(items[2], TrayItem::Modes { selected: 0, .. }));
}

#[test]
fn choosing_a_mode_sends_its_byte() {
    let mut tray = empty_tray();
    let sent = |tray: &MyTray, at: usize| match tray.select_mode(at) {
        TrayRequest::Command(ControlCommandIdentifiers::ListeningMode, value) => value,
        other => panic!("not a listening mode: {other:?}"),
    };
    assert_eq!(sent(&tray, 0), [0x02]);
    assert_eq!(sent(&tray, 2), [0x04]);
    assert_eq!(sent(&tray, 3), [0x02]);
    tray.allow_off_option = Some(0x01);
    assert_eq!(sent(&tray, 0), [0x01]);
    assert_eq!(sent(&tray, 3), [0x04]);
}

#[test]
fn entries_ask_for_what_they_say() {
    let mut tray = empty_tray();
    assert!(matches!(
        tray.perform(TrayAction::OpenWindow, false, false),
        Some(TrayRequest::Ui(BluetoothUIMessage::OpenWindow))
    ));
    assert!(matches!(
        tray.perform(TrayAction::ConnectAirPods, false, false),
        Some(TrayRequest::Ui(BluetoothUIMessage::ConnectAirPods))
    ));
    assert!(matches!(tray.perform(TrayAction::Exit, true, true), Some(TrayRequest::Shutdown)));
    assert!(matches!(
        tray.perform(TrayAction::Exit, true, false),
        Some(TrayRequest::ExitProcess)
    ));
}

#[test]
fn conversation_detection_toggles_only_with_a_receiver() {
    let mut tray = empty_tray();
    assert!(tray.perform(TrayAction::ToggleConversationDetection, true, true).is_none());
    tray.conversation_detect_enabled = Some(true);
    assert!(tray.perform(TrayAction::ToggleConversationDetection, false, true).is_none());
    assert_eq!(tray.conversation_detect_enabled, Some(true));
    let request = tray.perform(TrayAction::ToggleConversationDetection, true, true);
    let Some(TrayRequest::Command(id, value)) = request else {
        panic!("no command");
    };
    assert_eq!(id, ControlCommandIdentifiers::ConversationDetectConfig);
    assert_eq!(value, [0x02]);
    assert_eq!(tray.conversation_detect_enabled, Some(false));
    let request = tray.perform(TrayAction::ToggleConversationDetection, true, true);
    assert!(matches!(request, Some(TrayRequest::Command(_, value)) if value == [0x01]));
}

#[test]
fn text_mode_is_read_from_the_settings_file() {
    assert!(tray_text_mode(Some(r#"{"theme":"Dark","tray_text_mode":true}"#)));
    assert!(!tray_text_mode(Some(r#"{"tray_text_mode":false}"#)));
    assert!(!tray_text_mode(Some(r#"{"tray_text_mode":"true"}"#)));
    assert!(!tray_text_mode(Some(r#"{"theme":"Dark"}"#)));
    assert!(!tray_text_mode(Some(r#"[true]"#)));
    assert!(!tray_text_mode(Some("tray_text_mode")));
    assert!(!tray_text_mode(None));
    assert!(text_mode(Some(true)));
    assert!(!text_mode(Some(false)));
    assert!(!text_mode(None));
}

const GREY: Rgba = Rgba { r: 128, g: 128, b: 128, a: 255 };
const GREEN: Rgba = Rgba { r: 0, g: 255, b: 0, a: 255 };
const CLEAR: Rgba = Rgba { r: 0, g: 0, b: 0, a: 0 };

/// The ring under the font by angles and distances, where a level of its own
/// fills up to and with its angle.
fn font_ring(level: Option<u8>, x: u32, y: u32) -> Rgba {
    let (dx, dy) = (x as f32 - 32.0, y as f32 - 32.0);
    let dist = (dx * dx + dy * dy).sqrt();
    if dist <= 22.0 || dist > 28.0 {
        return CLEAR;
    }
    let angle = dy.atan2(dx);
    let from_top =
        (angle + std::f32::consts::PI / 2.0).rem_euclid(2.0 * std::f32::consts::PI);
    match level {
        Some(l) if from_top <= f32::from(l) / 100.0 * 2.0 * std::f32::consts::PI => GREEN,
        _ => GREY,
    }
}

#[test]
fn the_ring_under_the_font_follows_the_angles() {
    for level in (0..=101u8).map(Some).chain([None, Some(255)]) {
        let pixels = icon_base(level, false);
        assert_eq!(pixels.len(), 64 * 64);
        for y in 0..64 {
            for x in 0..64 {
                let at = (y * 64 + x) as usize;
                assert_eq!(pixels[at], font_ring(level, x, y), "{level:?} {x} {y}");
            }
        }
    }
    assert!(icon_base(Some(50), true).iter().all(|p| *p == CLEAR));
}

#[test]
fn the_font_draws_the_level_or_the_bolt() {
    let white = Rgba { r: 255, g: 255, b: 255, a: 255 };
    assert_eq!(
        icon_overlay(Some(42), true, false),
        Some(Overlay { text: "42".to_string(), color: white })
    );
    assert_eq!(
        icon_overlay(None, true, true),
        Some(Overlay { text: "-".to_string(), color: GREEN })
    );
    assert_eq!(
        icon_overlay(Some(42), false, true),
        Some(Overlay { text: "\u{26A1}".to_string(), color: GREEN })
    );
    assert_eq!(icon_overlay(Some(42), false, false), None);
}

#[test]
fn icons_are_sent_alpha_first() {
    let pixels = [Rgba { r: 1, g: 2, b: 3, a: 4 }, Rgba { r: 5, g: 6, b: 7, a: 8 }];
    assert_eq!(argb_bytes(&pixels), [4, 1, 2, 3, 8, 5, 6, 7]);
    assert!(argb_bytes(&[]).is_empty());
}
