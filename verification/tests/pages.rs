use librepods::address_map::AddressMap;
use librepods::bluetooth::aacp::{
    AACPEvent, BatteryComponent, BatteryInfo, BatteryStatus, ControlCommandIdentifiers as Id,
    ControlCommandStatus,
};
use librepods::bluetooth::eq::CustomEq;
use librepods::bluetooth::settings::{
    CallControls, ClickHoldAction, CycleMode, MicMode, PressInterval, SwipeInterval,
};
use librepods::devices::airpods::AirPodsInformation;
use librepods::devices::enums::{
    AirPodsNoiseControlMode, DeviceData, DeviceInformation, DeviceType, NothingAncMode,
    NothingInformation,
};
use librepods::time::Duration;
use librepods::ui::airpods::{mic_test_row, MicReading, TestButton};
use librepods::ui::airpods_settings::settings_sections;
use librepods::ui::choice::{option_at, position};
use librepods::ui::equalizer::{equalizer_section, EqualizerState};
use librepods::ui::gtk::battery::{Batteries, Level};
use librepods::ui::gtk::controls::{apply, settled, Bud, ControlChange, Settling};
use librepods::ui::gtk::model::equalizer::{EqBand, EqInput};
use librepods::ui::gtk::model::mic::{MicCapture, MicInput, MicSample};
use librepods::ui::gtk::model::{
    AirPods, AirPodsSnapshot, DeviceSnapshot, Effect, Input, Model, NameHint, Nothing, Selection,
    SettingChange, WindowSettings,
};
use librepods::ui::gtk::pages::{
    battery_cards, choice_input, name_field, nothing_control, page_input, picked, picked_mode,
    settings_rows, slider_input, slid, subtitle, switched, SettingsRow,
};
use librepods::ui::gtk::theme::ThemePreference;
use librepods::ui::messages::BluetoothUIMessage;
use librepods::ui::nothing::nothing_view;
use librepods::ui::page::{Control, Heading, Item, Section};
use librepods::ui::window::MicTest;
use librepods::utils::{AppSettings, PreferredCodec};

const PODS: &str = "AA:BB:CC:DD:EE:01";

fn information(model_number: &str) -> AirPodsInformation {
    AirPodsInformation {
        name: "Pods".to_string(),
        model_number: model_number.to_string(),
        manufacturer: "Apple Inc.".to_string(),
        serial_number: "S0".to_string(),
        version1: "8A1".to_string(),
        version2: "8A2".to_string(),
        version3: "8A3".to_string(),
        left_serial_number: "SL".to_string(),
        right_serial_number: "SR".to_string(),
    }
}

fn airpods(controls: &[(Id, &[u8])]) -> AirPods {
    AirPods::from_snapshot(
        "Pods".to_string(),
        AirPodsSnapshot {
            battery: vec![],
            controls: controls
                .iter()
                .map(|(identifier, value)| ControlCommandStatus {
                    identifier: *identifier,
                    value: value.to_vec(),
                })
                .collect(),
            custom_eq: None,
        },
    )
}

fn items(section: &Section) -> Vec<Item> {
    section.rows.iter().map(|r| r.item).collect()
}

fn control_of(sections: &[Section], item: Item) -> Option<Control> {
    sections
        .iter()
        .flat_map(|s| &s.rows)
        .find(|r| r.item == item)
        .map(|r| r.control.clone())
}

#[test]
fn airpods_without_reports_have_no_settings() {
    assert!(settings_sections(&airpods(&[])).is_empty());
}

#[test]
fn every_reported_setting_has_its_row() {
    let pods = airpods(&[
        (Id::ClickHoldMode, &[0x01, 0x05]),
        (Id::ListeningModeConfigs, &[0x0E]),
        (Id::CallManagementConfig, &[0x00, 0x03]),
        (Id::MicMode, &[0x00]),
        (Id::SleepDetectionConfig, &[0x01]),
        (Id::DoubleClickInterval, &[0x00]),
        (Id::ClickHoldInterval, &[0x01]),
        (Id::OneBudAncMode, &[0x02]),
        (Id::ChimeVolume, &[0x40, 0x50]),
        (Id::VolumeSwipeMode, &[0x01]),
        (Id::VolumeSwipeInterval, &[0x02]),
        (Id::AutoAncStrength, &[0x14]),
    ]);
    let sections = settings_sections(&pods);
    let headings: Vec<Heading> = sections.iter().map(|s| s.heading).collect();
    assert_eq!(
        headings,
        [
            Heading::PressAndHold,
            Heading::CallControls,
            Heading::Microphone,
            Heading::Untitled,
            Heading::Accessibility,
            Heading::AdaptiveAudio,
        ]
    );
    assert_eq!(
        items(&sections[0]),
        [
            Item::LongPressLeft,
            Item::LongPressRight,
            Item::ListeningModes,
            Item::CycleNoiseCancellation,
            Item::CycleTransparency,
            Item::CycleAdaptive,
        ]
    );
    assert_eq!(items(&sections[1]), [Item::AnswerCall, Item::MuteControl, Item::HangUp]);
    assert_eq!(
        items(&sections[4]),
        [
            Item::PressSpeed,
            Item::HoldDuration,
            Item::OneBudAnc,
            Item::ToneVolume,
            Item::VolumeControl,
            Item::VolumeSwipeSpeed,
        ]
    );
    assert_eq!(
        control_of(&sections, Item::AnswerCall),
        Some(Control::Text("Press Once".to_string()))
    );
    assert_eq!(
        control_of(&sections, Item::ToneVolume),
        Some(Control::Slider { value: 64, max: 100, step: 5 })
    );
    assert_eq!(
        control_of(&sections, Item::AdaptiveAudio),
        Some(Control::Slider { value: 80, max: 100, step: 5 })
    );
    assert_eq!(
        control_of(&sections, Item::SleepDetection),
        Some(Control::Switch { on: true, locked: false })
    );
    assert_eq!(Item::PressSpeed.title(), "Press Speed");
    assert!(Item::PressSpeed.description().is_some());
    assert_eq!(Item::LongPressLeft.description(), None);
    assert_eq!(Heading::PressAndHold.title(), Some("Press and Hold AirPods"));
    assert_eq!(Heading::Untitled.title(), None);
}

#[test]
fn the_equalizer_card_follows_its_switch() {
    assert!(equalizer_section(Some("A2084"), CustomEq::default()).is_empty());
    // A model that is not known yet may take it.
    assert_eq!(equalizer_section(None, CustomEq::default()).len(), 1);
    let off = equalizer_section(Some("A3064"), CustomEq::default());
    assert_eq!(items(&off[0]), [Item::CustomEq]);
    let eq = CustomEq { enabled: true, low: 10, mid: 50, high: 90 };
    let on = equalizer_section(Some("A3064"), eq);
    assert_eq!(
        items(&on[0]),
        [Item::CustomEq, Item::LowBand, Item::MidBand, Item::HighBand, Item::ResetEq]
    );
    assert_eq!(
        control_of(&on, Item::HighBand),
        Some(Control::Slider { value: 90, max: 100, step: 1 })
    );
    assert_eq!(control_of(&on, Item::ResetEq), Some(Control::Button { enabled: true }));
    let flat = CustomEq { enabled: true, low: 50, mid: 50, high: 50 };
    assert_eq!(
        control_of(&equalizer_section(Some("A3064"), flat), Item::ResetEq),
        Some(Control::Button { enabled: false })
    );
}

#[test]
fn a_newer_change_cancels_the_older_send() {
    let mut state = EqualizerState::new(CustomEq::default());
    let first = state.change(CustomEq { enabled: true, low: 1, mid: 2, high: 3 });
    assert!(state.is_due(first));
    let second = state.change(CustomEq { enabled: true, low: 4, mid: 2, high: 3 });
    assert!(!state.is_due(first));
    assert!(state.is_due(second));
    assert_eq!(state.eq.low, 4);
}

#[test]
fn a_nothing_page_shows_what_is_known() {
    let mut device = DeviceData {
        name: "Ear".to_string(),
        type_: DeviceType::Nothing,
        information: None,
    };
    let page = nothing_view(Some(&device), NothingAncMode::Off);
    assert_eq!(page.len(), 1);
    assert_eq!(
        page[0].rows[0].control,
        Control::Choice {
            options: vec![
                "Off",
                "Transparency",
                "Adaptive Noise Cancellation",
                "Low Noise Cancellation",
                "Mid Noise Cancellation",
                "High Noise Cancellation",
            ],
            selected: Some(0)
        }
    );
    device.information = Some(DeviceInformation::Nothing(NothingInformation {
        serial_number: "N1".to_string(),
        firmware_version: "1.0".to_string(),
    }));
    let page = nothing_view(Some(&device), NothingAncMode::HighNoiseCancellation);
    assert_eq!(page[1].heading, Heading::DeviceInformation);
    assert_eq!(items(&page[1]), [Item::SerialNumber, Item::FirmwareVersion]);
    assert_eq!(nothing_view(None, NothingAncMode::Off).len(), 1);
}

#[test]
fn the_test_row_follows_the_test() {
    let reading = |playing| MicReading {
        elapsed: Duration::from_secs(65),
        position: Duration::from_secs(12),
        duration: Duration::from_secs(10),
        playing,
        error: Some("No output".to_string()),
    };
    let row = mic_test_row(&MicTest::Idle, &reading(false));
    assert_eq!(row.buttons, [TestButton::Record]);
    assert!(row.line.starts_with("Record yourself"));
    let row = mic_test_row(&MicTest::Failed("No microphone".to_string()), &reading(false));
    assert_eq!((row.line.as_str(), row.buttons.len()), ("No microphone", 1));
    let row = mic_test_row(&MicTest::Starting, &reading(false));
    assert_eq!((row.line.as_str(), row.buttons.len()), ("Pausing media…", 0));
    let row = mic_test_row(&MicTest::Stopping, &reading(false));
    assert_eq!(row.line, "Finishing the recording…");
    let row = mic_test_row(&MicTest::Recording, &reading(false));
    assert_eq!(row.line, "Recording  1:05");
    assert_eq!(row.note.as_deref(), Some("max 5:00"));
    assert_eq!(row.buttons, [TestButton::Stop]);
    let row = mic_test_row(&MicTest::Ready, &reading(true));
    assert_eq!(row.line, "0:10 / 0:10");
    assert_eq!(row.note.as_deref(), Some("No output"));
    assert_eq!(row.player.map(|(at, of)| (at.as_secs(), of.as_secs())), Some((10, 10)));
    let labels: Vec<String> = row.buttons.iter().map(|b| b.label()).collect();
    assert_eq!(labels, ["-5s", "Pause", "+5s", "Record again", "Done"]);
    let row = mic_test_row(&MicTest::Ready, &reading(false));
    assert_eq!(row.buttons[1], TestButton::Play);
}

#[test]
fn options_have_places() {
    assert_eq!(option_at::<MicMode>(2), Some(MicMode::AlwaysLeft));
    assert_eq!(option_at::<MicMode>(3), None);
    assert_eq!(position(&Some(SwipeInterval::all()[1])), Some(1));
    assert_eq!(position::<MicMode>(&None), None);
}

// The pages of the GNOME window

fn model(model_number: &str) -> Model {
    let mut devices = AddressMap::new();
    devices.insert(
        PODS.to_string(),
        DeviceData {
            name: "Saved".to_string(),
            type_: DeviceType::AirPods,
            information: Some(DeviceInformation::AirPods(information(model_number))),
        },
    );
    let mut model = Model::new(AppSettings::default(), devices);
    model.update(Input::Backend(BluetoothUIMessage::DeviceConnected(PODS.to_string())));
    model.update(Input::Snapshot(
        PODS.to_string(),
        Some(DeviceSnapshot::AirPods(AirPodsSnapshot {
            battery: vec![BatteryInfo {
                component: BatteryComponent::Left,
                level: 55,
                status: BatteryStatus::Charging,
            }],
            controls: vec![ControlCommandStatus {
                identifier: Id::MicMode,
                value: vec![0x01],
            }],
            custom_eq: Some(CustomEq { enabled: true, low: 1, mid: 2, high: 3 }),
        })),
    ));
    model
}

#[test]
fn the_airpods_page_has_every_section() {
    let page = model("A3064").airpods_page(PODS).unwrap();
    assert_eq!(page.batteries.len(), 3);
    assert_eq!(page.batteries[0].caption, "Left");
    assert_eq!(page.batteries[0].icon, "battery-level-60-charging-symbolic");
    assert_eq!(page.batteries[0].text, "55%");
    assert_eq!(page.batteries[2].text, "-");
    assert_eq!(page.name.text.as_deref(), Some("Saved"));
    assert_eq!(page.upper[0].heading, Heading::NoiseControl);
    assert_eq!(
        items(&page.upper[0]),
        [
            Item::ListeningMode,
            Item::ConversationAwareness,
            Item::PersonalizedVolume,
            Item::OffListeningMode,
        ]
    );
    assert_eq!(page.upper[1].heading, Heading::Equalizer);
    assert_eq!(
        control_of(&page.upper, Item::LowBand),
        Some(Control::Slider { value: 1, max: 100, step: 1 })
    );
    assert!(page.microphone.hires);
    assert!(page.microphone.meter.is_none());
    assert_eq!(page.microphone.test.unwrap().record, Some("Record"));
    assert_eq!(page.lower[0].heading, Heading::Microphone);
    assert_eq!(
        items(&page.lower[1]),
        [
            Item::ModelNumber,
            Item::Manufacturer,
            Item::SerialNumber,
            Item::LeftSerialNumber,
            Item::RightSerialNumber,
            Item::Firmware,
            Item::Version2,
            Item::Version3,
        ]
    );
    assert_eq!(
        control_of(&page.lower, Item::SerialNumber),
        Some(Control::Copy("S0".to_string()))
    );
    assert_eq!(control_of(&page.lower, Item::Firmware), Some(Control::Text("8A1".to_string())));
    assert_eq!(model("A2084").airpods_page(PODS).unwrap().upper.len(), 1);
    assert!(model("A3064").airpods_page("AA:BB:CC:DD:EE:02").is_none());
}

#[test]
fn a_capture_shows_its_meter() {
    let mut model = model("A3064");
    model.update(Input::Microphone(MicInput::Tick(MicSample {
        capture: Some(vec![(
            PODS.to_string(),
            MicCapture {
                active: true,
                level: 0.5f32.to_bits(),
                app: Some("Recorder".to_string()),
            },
        )]),
        recorder: None,
        player: None,
    })));
    let rows = model.microphone_rows(PODS);
    assert_eq!(rows.meter, Some(("In use by Recorder".to_string(), 0.5f32.to_bits())));
    let page = model.airpods_page(PODS).unwrap();
    assert_eq!(
        control_of(&page.upper, Item::ConversationAwareness),
        Some(Control::Switch { on: false, locked: true })
    );
    model.update(Input::Microphone(MicInput::SetHiRes(PODS.to_string(), false)));
    let rows = model.microphone_rows(PODS);
    assert!(!rows.hires);
    assert!(rows.test.is_none());
}

#[test]
fn cards_of_unknown_buds_are_hidden() {
    let unknown = Level::unknown();
    let known = Level { percent: Some(30), charging: false, stale: true };
    assert!(battery_cards(&Batteries::Buds { left: unknown, right: unknown, case: unknown })
        .is_empty());
    let cards = battery_cards(&Batteries::Buds { left: unknown, right: unknown, case: known });
    assert_eq!(cards.len(), 3);
    assert_eq!((cards[2].caption, cards[2].stale), ("Case", true));
    assert_eq!(battery_cards(&Batteries::Headphone(unknown)).len(), 1);
}

#[test]
fn the_name_field_keeps_the_draft() {
    let field = name_field("Pods", None);
    assert_eq!((field.text.as_deref(), field.hint, field.error), (Some("Pods"), "", false));
    let field = name_field("Pods", Some(NameHint::PressEnter));
    assert_eq!((field.text, field.hint, field.error), (None, "Press Enter to rename", false));
    let field = name_field("Pods", Some(NameHint::Invalid("Name is too long")));
    assert_eq!((field.text, field.hint, field.error), (None, "Name is too long", true));
}

#[test]
fn settings_rows_show_and_change_their_setting() {
    let settings = WindowSettings::from_stored(AppSettings::default());
    let rows = settings_rows();
    assert_eq!(rows.len(), 8);
    let groups: Vec<&str> = rows.iter().map(|r| r.group()).collect();
    assert_eq!(
        groups,
        [
            "Appearance",
            "Appearance",
            "Audio",
            "Audio",
            "Audio",
            "Hi-Res Microphone",
            "Hi-Res Microphone",
            "Controls",
        ]
    );
    assert_eq!(SettingsRow::Style.title(), "Style");
    assert_eq!(SettingsRow::Style.subtitle(), None);
    assert!(SettingsRow::A2dpReset.subtitle().unwrap().contains("which cuts calls"));
    assert_eq!(
        SettingsRow::Style.control(&settings),
        Control::Choice { options: vec!["System", "Light", "Dark"], selected: Some(2) }
    );
    assert_eq!(
        SettingsRow::Codec.control(&settings),
        Control::Choice { options: vec!["AAC", "SBC-XQ", "SBC"], selected: Some(0) }
    );
    assert_eq!(
        SettingsRow::StemControl.control(&settings),
        Control::Switch { on: false, locked: false }
    );
    assert_eq!(
        SettingsRow::Style.picked(1),
        Some(SettingChange::Theme(ThemePreference::Light))
    );
    assert_eq!(
        SettingsRow::Codec.picked(2),
        Some(SettingChange::PreferredCodec(PreferredCodec::Sbc))
    );
    assert_eq!(SettingsRow::Codec.picked(3), None);
    assert_eq!(SettingsRow::TrayText.picked(0), None);
    assert_eq!(SettingsRow::Style.switched(true), None);
    assert_eq!(
        SettingsRow::MicAgc.switched(false),
        Some(SettingChange::HiResMicAgc(false))
    );
    let mut model = model("A3064");
    for row in rows {
        if let Some(change) = row.switched(true) {
            model.update(Input::Setting(change));
            assert_eq!(row.control(model.settings()), Control::Switch { on: true, locked: false });
        }
    }
}

#[test]
fn changes_on_rows_mean_control_changes() {
    assert_eq!(
        picked(Item::LongPressRight, 1),
        Some(ControlChange::LongPress(Bud::Right, ClickHoldAction::Siri))
    );
    assert_eq!(
        picked(Item::LongPressLeft, 0),
        Some(ControlChange::LongPress(Bud::Left, ClickHoldAction::NoiseControl))
    );
    assert_eq!(
        picked(Item::MuteControl, 1),
        Some(ControlChange::MuteControl(CallControls::PressTwiceToMute))
    );
    assert_eq!(
        picked(Item::PressSpeed, 2),
        Some(ControlChange::PressSpeed(PressInterval::Slowest))
    );
    assert_eq!(picked(Item::PressSpeed, 3), None);
    assert_eq!(picked(Item::Name, 0), None);
    assert_eq!(
        switched(Item::CycleTransparency, true),
        Some(ControlChange::CycleMode(CycleMode::Transparency, true))
    );
    assert_eq!(switched(Item::OneBudAnc, false), Some(ControlChange::OneBudAnc(false)));
    assert_eq!(switched(Item::ToneVolume, false), None);
    assert_eq!(slid(Item::ToneVolume, 35), Some(ControlChange::ToneVolume(35)));
    assert_eq!(slid(Item::AdaptiveAudio, 80), Some(ControlChange::AdaptiveNoise(80)));
    assert_eq!(slid(Item::PressSpeed, 1), None);
}

#[test]
fn listening_modes_are_picked_from_those_offered() {
    let pods = airpods(&[]);
    assert_eq!(picked_mode(&pods, 0), Some(AirPodsNoiseControlMode::Transparency));
    assert_eq!(picked_mode(&pods, 3), None);
    let pods = airpods(&[(Id::AllowOffOption, &[0x01])]);
    assert_eq!(picked_mode(&pods, 0), Some(AirPodsNoiseControlMode::Off));
    assert_eq!(picked_mode(&pods, 3), Some(AirPodsNoiseControlMode::Adaptive));
    assert!(matches!(
        nothing_control(&Nothing { anc_mode: NothingAncMode::MidNoiseCancellation }),
        Control::Choice { selected: Some(4), .. }
    ));
}

#[test]
fn equalizer_reports_reach_the_page() {
    let mut model = model("A3064");
    model.update(Input::Backend(BluetoothUIMessage::AACPUIEvent(
        PODS.to_string(),
        AACPEvent::CustomEq(CustomEq { enabled: false, low: 50, mid: 50, high: 50 }),
    )));
    model.update(Input::Select(Selection::Device(PODS.to_string())));
    let page = model.airpods_page(PODS).unwrap();
    assert_eq!(control_of(&page.upper, Item::LowBand), None);
}

#[test]
fn rows_of_the_gnome_page_name_their_input() {
    let mac = || PODS.to_string();
    assert!(matches!(
        page_input(Item::ConversationAwareness, mac(), true),
        Some(Input::SetConversationAwareness(m, true)) if m == PODS
    ));
    assert!(matches!(
        page_input(Item::PersonalizedVolume, mac(), false),
        Some(Input::SetPersonalizedVolume(_, false))
    ));
    assert!(matches!(
        page_input(Item::OffListeningMode, mac(), true),
        Some(Input::SetAllowOff(_, true))
    ));
    assert!(matches!(
        page_input(Item::CustomEq, mac(), true),
        Some(Input::Equalizer(EqInput::SetEnabled(_, true)))
    ));
    assert!(matches!(
        page_input(Item::SleepDetection, mac(), true),
        Some(Input::AirPodsControl(_, ControlChange::SleepDetection(true)))
    ));
    assert!(page_input(Item::Name, mac(), true).is_none());
    assert!(matches!(
        slider_input(Item::MidBand, mac(), 30),
        Some(Input::Equalizer(EqInput::SetBand(_, EqBand::Mid, 30)))
    ));
    assert!(matches!(
        slider_input(Item::AdaptiveAudio, mac(), 20),
        Some(Input::AirPodsControl(_, ControlChange::AdaptiveNoise(20)))
    ));
    assert!(slider_input(Item::CustomEq, mac(), 20).is_none());
    let pods = airpods(&[]);
    assert!(matches!(
        choice_input(&pods, Item::ListeningMode, mac(), 0),
        Some(Input::SetListeningMode(_, AirPodsNoiseControlMode::Transparency))
    ));
    assert!(choice_input(&pods, Item::ListeningMode, mac(), 3).is_none());
    assert!(matches!(
        choice_input(&pods, Item::MicrophoneMode, mac(), 2),
        Some(Input::AirPodsControl(_, ControlChange::MicMode(MicMode::AlwaysLeft)))
    ));
    assert!(choice_input(&pods, Item::MicrophoneMode, mac(), 3).is_none());
}

#[test]
fn the_gnome_page_has_its_own_adaptive_audio_text() {
    assert_eq!(
        subtitle(Item::AdaptiveAudio),
        Some(
            "Adaptive Audio dynamically responds to your environment and cancels or allows \
             external noise. You can customize Adaptive Audio to allow more or less noise."
        )
    );
    assert_eq!(subtitle(Item::ToneVolume), Item::ToneVolume.description());
    assert_eq!(subtitle(Item::Name), None);
}

#[test]
fn a_held_slider_value_is_sent_once_unless_replaced() {
    let mut pods = airpods(&[]);
    let mut settling = Settling::default();
    let mut hold = |settling: &mut Settling, mac: &str, change| {
        let effects = apply(mac.to_string(), &mut pods, settling, change);
        match effects.as_slice() {
            [Effect::SettleControl { identifier, generation, .. }] => (*identifier, *generation),
            other => panic!("not held: {other:?}"),
        }
    };
    let other = "AA:BB:CC:DD:EE:02";
    let (tone, first) = hold(&mut settling, PODS, ControlChange::ToneVolume(20));
    let (noise, second) = hold(&mut settling, PODS, ControlChange::AdaptiveNoise(30));
    let (_, third) = hold(&mut settling, other, ControlChange::ToneVolume(40));
    let due = |settling: &mut Settling, mac: &str, id, generation| {
        settled(mac.to_string(), true, settling, id, generation)
    };
    // Other settings and devices do not replace it, and it is sent once.
    assert_eq!(
        due(&mut settling, PODS, tone, first),
        [Effect::SendControl { mac: PODS.to_string(), identifier: tone, value: vec![20, 0x50] }]
    );
    assert!(due(&mut settling, PODS, tone, first).is_empty());
    let (_, newer) = hold(&mut settling, PODS, ControlChange::AdaptiveNoise(35));
    assert!(due(&mut settling, PODS, noise, second).is_empty());
    assert_eq!(due(&mut settling, PODS, noise, newer).len(), 1);
    // The AirPods went away: the value is dropped for good.
    assert!(settled(other.to_string(), false, &mut settling, tone, third).is_empty());
    assert!(due(&mut settling, other, tone, third).is_empty());
}

#[test]
fn connect_requests_are_numbered_upwards() {
    let mut model = Model::new(AppSettings::default(), AddressMap::new());
    let mut request = |mac: &str| match model.update(Input::Connect(mac.to_string())).as_slice() {
        [Effect::Connect { attempt, address, .. }] => Some((*attempt, *address)),
        _ => None,
    };
    assert_eq!(request(PODS), Some((1, [0xAA, 0xBB, 0xCC, 0xDD, 0xEE, 1])));
    assert_eq!(request(PODS), None);
    assert_eq!(request("not an address"), None);
    assert_eq!(request("AA:BB:CC:DD:EE:02").map(|(attempt, _)| attempt), Some(2));
}
