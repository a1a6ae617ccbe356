use librepods::address_map::AddressMap;
use librepods::bluetooth::aacp::{
    AACPEvent, BatteryComponent, BatteryInfo, BatteryStatus, ControlCommandIdentifiers,
    ControlCommandStatus,
};
use librepods::devices::enums::{AirPodsNoiseControlMode, DeviceData, DeviceType, NothingAncMode};
use librepods::ui::connect::SETUP_TIMEOUT_ERROR;
use librepods::ui::gtk::battery::Batteries;
use librepods::ui::gtk::model::{
    AirPodsSnapshot, Content, DeviceSnapshot, Effect, Input, Model, NameHint, Selection,
    SettingChange, SidebarStatus,
};
use librepods::ui::gtk::theme::ThemePreference;
use librepods::ui::messages::BluetoothUIMessage;
use librepods::utils::AppSettings;

const PODS: &str = "AA:BB:CC:DD:EE:01";
const OTHER: &str = "AA:BB:CC:DD:EE:02";
const EAR: &str = "AA:BB:CC:DD:EE:03";

fn device(name: &str, type_: DeviceType) -> DeviceData {
    DeviceData {
        name: name.to_string(),
        type_,
        information: None,
    }
}

fn devices(entries: &[(&str, DeviceData)]) -> AddressMap<DeviceData> {
    let mut devices = AddressMap::new();
    for (mac, device) in entries {
        devices.insert(mac.to_string(), device.clone());
    }
    devices
}

fn model() -> Model {
    let known = devices(&[
        (PODS, device("Pods", DeviceType::AirPods)),
        (OTHER, device("Alpha Pods", DeviceType::AirPods)),
        (EAR, device("Ear", DeviceType::Nothing)),
    ]);
    Model::new(AppSettings::default(), known)
}

fn status(identifier: ControlCommandIdentifiers, value: &[u8]) -> ControlCommandStatus {
    ControlCommandStatus {
        identifier,
        value: value.to_vec(),
    }
}

fn battery(component: BatteryComponent, level: u8, status: BatteryStatus) -> BatteryInfo {
    BatteryInfo {
        component,
        level,
        status,
    }
}

/// Connect PODS and deliver its snapshot.
fn connected(model: &mut Model, snapshot: AirPodsSnapshot) {
    let effects = model.update(Input::Backend(BluetoothUIMessage::DeviceConnected(
        PODS.to_string(),
    )));
    assert_eq!(
        effects,
        [Effect::LoadDevices, Effect::Snapshot(PODS.to_string())]
    );
    model.update(Input::Snapshot(
        PODS.to_string(),
        Some(DeviceSnapshot::AirPods(snapshot)),
    ));
}

fn airpods_event(model: &mut Model, event: AACPEvent) -> Vec<Effect> {
    model.update(Input::Backend(BluetoothUIMessage::AACPUIEvent(
        PODS.to_string(),
        event,
    )))
}

#[test]
fn first_airpods_by_name_is_selected_at_start() {
    let model = model();
    assert_eq!(model.selection(), &Selection::Device(OTHER.to_string()));
    assert_eq!(model.content(), Content::Disconnected(OTHER.to_string()));
}

#[test]
fn no_devices_means_empty_content() {
    let model = Model::new(AppSettings::default(), AddressMap::new());
    assert_eq!(model.content(), Content::Empty);
    assert!(model.sidebar().is_empty());
}

#[test]
fn sidebar_is_sorted_by_name_with_status() {
    let mut model = model();
    let names: Vec<String> = model.sidebar().into_iter().map(|e| e.name).collect();
    assert_eq!(names, ["Alpha Pods", "Ear", "Pods"]);

    model.update(Input::Backend(BluetoothUIMessage::DeviceConnected(
        PODS.to_string(),
    )));
    let pods = model.sidebar().into_iter().find(|e| e.mac == PODS).unwrap();
    assert!(pods.connected);
    assert_eq!(pods.status, SidebarStatus::Text("Connected"));
    let ear = model.sidebar().into_iter().find(|e| e.mac == EAR).unwrap();
    assert_eq!(ear.status, SidebarStatus::Text("Not connected"));
}

#[test]
fn selection_switches_the_content() {
    let mut model = model();
    model.update(Input::Select(Selection::Settings));
    assert_eq!(model.content(), Content::Settings);
    model.update(Input::Select(Selection::Device(EAR.to_string())));
    assert_eq!(model.content(), Content::Unavailable(EAR.to_string()));
    model.update(Input::Select(Selection::Device(PODS.to_string())));
    assert_eq!(model.content(), Content::Disconnected(PODS.to_string()));
}

#[test]
fn connected_airpods_wait_for_their_snapshot() {
    let mut model = model();
    model.update(Input::Select(Selection::Device(PODS.to_string())));
    model.update(Input::Backend(BluetoothUIMessage::DeviceConnected(
        PODS.to_string(),
    )));
    assert_eq!(model.content(), Content::Waiting(PODS.to_string()));

    model.update(Input::Snapshot(
        PODS.to_string(),
        Some(DeviceSnapshot::AirPods(AirPodsSnapshot {
            controls: vec![
                status(ControlCommandIdentifiers::ListeningMode, &[0x02]),
                status(ControlCommandIdentifiers::ConversationDetectConfig, &[0x01]),
                status(ControlCommandIdentifiers::AdaptiveVolumeConfig, &[0x02]),
                status(ControlCommandIdentifiers::AllowOffOption, &[0x01]),
                status(ControlCommandIdentifiers::ChimeVolume, &[0x40]),
            ],
            ..AirPodsSnapshot::default()
        })),
    ));
    assert_eq!(model.content(), Content::AirPods(PODS.to_string()));
    let airpods = model.airpods(PODS).unwrap();
    assert_eq!(airpods.name, "Pods");
    assert_eq!(
        airpods.listening_mode.to_byte(),
        AirPodsNoiseControlMode::NoiseCancellation.to_byte()
    );
    assert!(airpods.conversation_awareness);
    assert!(!airpods.personalized_volume);
    assert!(airpods.allow_off);
    assert_eq!(
        airpods
            .control_values
            .get(ControlCommandIdentifiers::ChimeVolume.to_byte()),
        Some(&vec![0x40])
    );
}

#[test]
fn snapshot_after_disconnect_is_dropped() {
    let mut model = model();
    model.update(Input::Backend(BluetoothUIMessage::DeviceConnected(
        PODS.to_string(),
    )));
    model.update(Input::Backend(BluetoothUIMessage::DeviceDisconnected(
        PODS.to_string(),
    )));
    model.update(Input::Snapshot(
        PODS.to_string(),
        Some(DeviceSnapshot::AirPods(AirPodsSnapshot::default())),
    ));
    assert!(model.airpods(PODS).is_none());
}

#[test]
fn disconnect_drops_state_and_keeps_the_airpods_selected() {
    let mut model = model();
    model.update(Input::Select(Selection::Device(PODS.to_string())));
    connected(&mut model, AirPodsSnapshot::default());
    model.update(Input::NameEdited(PODS.to_string(), "New".to_string()));

    model.update(Input::Backend(BluetoothUIMessage::DeviceDisconnected(
        PODS.to_string(),
    )));

    assert!(model.airpods(PODS).is_none());
    assert_eq!(model.name_hint(PODS), None);
    assert_eq!(model.content(), Content::Disconnected(PODS.to_string()));
}

#[test]
fn nothing_devices_get_their_own_page() {
    let mut model = model();
    model.update(Input::Select(Selection::Device(EAR.to_string())));
    model.update(Input::Backend(BluetoothUIMessage::DeviceConnected(
        EAR.to_string(),
    )));
    model.update(Input::Snapshot(
        EAR.to_string(),
        Some(DeviceSnapshot::Nothing),
    ));
    assert_eq!(model.content(), Content::Nothing(EAR.to_string()));

    let effects = model.update(Input::SetNothingAnc(
        EAR.to_string(),
        NothingAncMode::Transparency,
    ));
    assert_eq!(
        effects,
        [Effect::SetNothingAnc {
            mac: EAR.to_string(),
            mode: 0x07
        }]
    );
}

#[test]
fn events_update_state_and_reload_devices() {
    let mut model = model();
    connected(&mut model, AirPodsSnapshot::default());

    let effects = airpods_event(
        &mut model,
        AACPEvent::ControlCommand(status(ControlCommandIdentifiers::AllowOffOption, &[0x01])),
    );
    assert_eq!(effects, [Effect::LoadDevices]);
    let offered: Vec<u8> = model
        .airpods(PODS)
        .unwrap()
        .listening_modes()
        .iter()
        .map(AirPodsNoiseControlMode::to_byte)
        .collect();
    assert_eq!(offered, [0x01, 0x03, 0x02, 0x04]);

    airpods_event(
        &mut model,
        AACPEvent::ControlCommand(status(ControlCommandIdentifiers::AllowOffOption, &[0x02])),
    );
    assert_eq!(model.airpods(PODS).unwrap().listening_modes().len(), 3);
}

#[test]
fn events_for_unknown_devices_change_nothing() {
    let mut model = model();
    let effects = airpods_event(
        &mut model,
        AACPEvent::BatteryInfo(vec![battery(
            BatteryComponent::Left,
            50,
            BatteryStatus::NotCharging,
        )]),
    );
    assert_eq!(effects, [Effect::LoadDevices]);
    assert!(model.airpods(PODS).is_none());
}

#[test]
fn silent_case_shows_the_remembered_level() {
    let mut model = model();
    connected(
        &mut model,
        AirPodsSnapshot {
            battery: vec![battery(
                BatteryComponent::Case,
                64,
                BatteryStatus::NotCharging,
            )],
            ..AirPodsSnapshot::default()
        },
    );
    airpods_event(
        &mut model,
        AACPEvent::BatteryInfo(vec![
            battery(BatteryComponent::Left, 90, BatteryStatus::NotCharging),
            battery(BatteryComponent::Right, 80, BatteryStatus::Charging),
            battery(BatteryComponent::Case, 0, BatteryStatus::Disconnected),
        ]),
    );
    let Some(Batteries::Buds { left, right, case }) = model.batteries(PODS) else {
        panic!("earbuds expected");
    };
    assert_eq!(left.percent, Some(90));
    assert!(right.charging);
    assert_eq!((case.percent, case.stale), (Some(64), true));

    let pods = model.sidebar().into_iter().find(|e| e.mac == PODS).unwrap();
    assert!(matches!(pods.status, SidebarStatus::Batteries(_)));
}

#[test]
fn toggles_update_at_once_and_send_the_command() {
    let mut model = model();
    connected(&mut model, AirPodsSnapshot::default());

    let effects = model.update(Input::SetPersonalizedVolume(PODS.to_string(), true));
    assert_eq!(
        effects,
        [Effect::SendControl {
            mac: PODS.to_string(),
            identifier: ControlCommandIdentifiers::AdaptiveVolumeConfig,
            value: vec![0x01],
        }]
    );
    assert!(model.airpods(PODS).unwrap().personalized_volume);

    let effects = model.update(Input::SetAllowOff(PODS.to_string(), false));
    assert!(matches!(
        effects.as_slice(),
        [Effect::SendControl { value, .. }] if *value == [0x02]
    ));

    let effects = model.update(Input::SetListeningMode(
        PODS.to_string(),
        AirPodsNoiseControlMode::Adaptive,
    ));
    assert!(matches!(
        effects.as_slice(),
        [Effect::SendControl { identifier: ControlCommandIdentifiers::ListeningMode, value, .. }]
            if *value == [0x04]
    ));

    let effects = model.update(Input::SetConversationAwareness(PODS.to_string(), true));
    assert_eq!(
        effects,
        [Effect::SetConversationDetection {
            mac: PODS.to_string(),
            enabled: true
        }]
    );
    assert!(model.airpods(PODS).unwrap().conversation_awareness);
}

#[test]
fn toggles_for_disconnected_airpods_send_nothing() {
    let mut model = model();
    assert!(
        model
            .update(Input::SetPersonalizedVolume(PODS.to_string(), true))
            .is_empty()
    );
    assert!(
        model
            .update(Input::SetConversationAwareness(PODS.to_string(), true))
            .is_empty()
    );
}

#[test]
fn rename_sends_a_valid_trimmed_name() {
    let mut model = model();
    connected(&mut model, AirPodsSnapshot::default());

    model.update(Input::NameEdited(PODS.to_string(), " Mine ".to_string()));
    assert_eq!(model.name_hint(PODS), Some(NameHint::PressEnter));
    let effects = model.update(Input::Rename(PODS.to_string(), " Mine ".to_string()));

    assert_eq!(
        effects,
        [Effect::Rename {
            mac: PODS.to_string(),
            name: "Mine".to_string()
        }]
    );
    assert_eq!(model.airpods(PODS).unwrap().name, "Mine");
    assert_eq!(model.title(PODS), "Mine");
    assert_eq!(model.name_hint(PODS), None);
}

#[test]
fn invalid_name_is_not_sent_and_keeps_its_hint() {
    let mut model = model();
    connected(&mut model, AirPodsSnapshot::default());

    model.update(Input::NameEdited(PODS.to_string(), "  ".to_string()));
    assert_eq!(
        model.name_hint(PODS),
        Some(NameHint::Invalid("Name can't be empty"))
    );
    let long = "a".repeat(33);
    let effects = model.update(Input::Rename(PODS.to_string(), long));
    assert!(effects.is_empty());
    assert_eq!(
        model.name_hint(PODS).map(NameHint::text),
        Some("Name is too long")
    );
    assert_eq!(model.airpods(PODS).unwrap().name, "Pods");
}

#[test]
fn editing_back_to_the_current_name_clears_the_hint() {
    let mut model = model();
    connected(&mut model, AirPodsSnapshot::default());
    model.update(Input::NameEdited(PODS.to_string(), "Pod".to_string()));
    model.update(Input::NameEdited(PODS.to_string(), "Pods".to_string()));
    assert_eq!(model.name_hint(PODS), None);
    assert!(
        model
            .update(Input::Rename(PODS.to_string(), "Pods".to_string()))
            .is_empty()
    );
}

#[test]
fn selecting_another_page_drops_the_name_hint() {
    let mut model = model();
    connected(&mut model, AirPodsSnapshot::default());
    model.update(Input::NameEdited(PODS.to_string(), String::new()));
    model.update(Input::Select(Selection::Settings));
    assert_eq!(model.name_hint(PODS), None);
}

#[test]
fn connect_flow_success() {
    let mut model = model();
    let effects = model.update(Input::Connect(PODS.to_string()));
    let [Effect::Connect { attempt, .. }] = effects.as_slice() else {
        panic!("connect expected, got {effects:?}");
    };
    let attempt = *attempt;
    assert!(model.disconnected(PODS).connecting);
    assert_eq!(model.disconnected(PODS).button_label(), "Connecting…");
    // A second click while connecting does nothing.
    assert!(model.update(Input::Connect(PODS.to_string())).is_empty());

    let effects = model.update(Input::ConnectFinished {
        mac: PODS.to_string(),
        attempt,
        result: Ok(()),
    });
    assert_eq!(
        effects,
        [Effect::SetupTimeout {
            mac: PODS.to_string(),
            attempt
        }]
    );
    assert!(model.disconnected(PODS).connecting);

    model.update(Input::Backend(BluetoothUIMessage::DeviceConnected(
        PODS.to_string(),
    )));
    assert!(
        model
            .update(Input::ConnectSetupTimedOut {
                mac: PODS.to_string(),
                attempt
            })
            .is_empty()
    );
    let pods = model.sidebar().into_iter().find(|e| e.mac == PODS).unwrap();
    assert_eq!(pods.status, SidebarStatus::Text("Connected"));
}

#[test]
fn connect_flow_failure_shows_the_error_and_a_toast() {
    let mut model = model();
    model.update(Input::Connect(PODS.to_string()));
    let effects = model.update(Input::ConnectFinished {
        mac: PODS.to_string(),
        attempt: 1,
        result: Err("The AirPods did not answer.".to_string()),
    });
    assert_eq!(
        effects,
        [Effect::Toast("Could not connect Pods".to_string())]
    );
    let view = model.disconnected(PODS);
    assert_eq!(view.status, "The AirPods did not answer.");
    assert!(!view.connecting);
    assert_eq!(view.button_label(), "Connect to this PC");
    let pods = model.sidebar().into_iter().find(|e| e.mac == PODS).unwrap();
    assert_eq!(pods.status, SidebarStatus::Text("Couldn't connect"));
}

#[test]
fn setup_timeout_fails_the_attempt() {
    let mut model = model();
    model.update(Input::Connect(PODS.to_string()));
    model.update(Input::ConnectFinished {
        mac: PODS.to_string(),
        attempt: 1,
        result: Ok(()),
    });
    let effects = model.update(Input::ConnectSetupTimedOut {
        mac: PODS.to_string(),
        attempt: 1,
    });
    assert_eq!(
        effects,
        [Effect::Toast("Could not connect Pods".to_string())]
    );
    assert_eq!(model.disconnected(PODS).status, SETUP_TIMEOUT_ERROR);
}

#[test]
fn tray_connect_starts_every_away_airpods() {
    let mut model = model();
    model.update(Input::Backend(BluetoothUIMessage::DeviceConnected(
        PODS.to_string(),
    )));
    let effects = model.update(Input::Backend(BluetoothUIMessage::ConnectAirPods));
    let macs: Vec<&str> = effects
        .iter()
        .filter_map(|e| match e {
            Effect::Connect { mac, .. } => Some(mac.as_str()),
            _ => None,
        })
        .collect();
    assert_eq!(macs, [OTHER]);
}

#[test]
fn open_window_presents_and_reloads() {
    let mut model = model();
    assert_eq!(
        model.update(Input::Backend(BluetoothUIMessage::OpenWindow)),
        [Effect::PresentWindow, Effect::LoadDevices]
    );
}

#[test]
fn settings_change_saves_and_theme_applies() {
    let mut model = model();
    let effects = model.update(Input::Setting(SettingChange::TrayTextMode(true)));
    assert_eq!(effects, [Effect::SaveSettings]);
    assert!(model.settings().tray_text_mode);

    let effects = model.update(Input::Setting(SettingChange::Theme(ThemePreference::Dark)));
    assert_eq!(
        effects,
        [
            Effect::ApplyTheme(ThemePreference::Dark),
            Effect::SaveSettings
        ]
    );
    assert_eq!(model.settings().theme, ThemePreference::Dark);
    assert_eq!(model.theme(), ThemePreference::Dark);
}

#[test]
fn messages_become_toasts() {
    let mut model = model();
    assert_eq!(
        model.update(Input::Toast("x".to_string())),
        [Effect::Toast("x".to_string())]
    );
}
