use librepods::address_map::AddressMap;
use librepods::bluetooth::aacp::{ControlCommandIdentifiers as Id, ControlCommandStatus};
use librepods::bluetooth::settings::{
    CallControls, ClickHoldAction, CycleMode, MicMode, PressInterval, SwipeInterval,
};
use librepods::devices::enums::{DeviceData, DeviceType};
use librepods::ui::gtk::controls::{
    adaptive_noise, cycle_rows, hang_up_press, tone_volume, Bud, ControlChange,
    DEFAULT_TONE_VOLUME,
};
use librepods::ui::gtk::model::{
    AirPods, AirPodsSnapshot, DeviceSnapshot, Effect, Input, Model,
};
use librepods::ui::messages::BluetoothUIMessage;
use librepods::utils::AppSettings;

const PODS: &str = "AA:BB:CC:DD:EE:01";

/// A model with PODS connected, reporting `controls`.
fn connected(controls: &[(Id, &[u8])]) -> Model {
    let mut known = AddressMap::new();
    known.insert(
        PODS.to_string(),
        DeviceData {
            name: "Pods".to_string(),
            type_: DeviceType::AirPods,
            information: None,
        },
    );
    let mut model = Model::new(AppSettings::default(), known);
    model.update(Input::Backend(BluetoothUIMessage::DeviceConnected(
        PODS.to_string(),
    )));
    let controls = controls
        .iter()
        .map(|(identifier, value)| ControlCommandStatus {
            identifier: *identifier,
            value: value.to_vec(),
        })
        .collect();
    model.update(Input::Snapshot(
        PODS.to_string(),
        Some(DeviceSnapshot::AirPods(AirPodsSnapshot {
            controls,
            ..AirPodsSnapshot::default()
        })),
    ));
    model
}

fn change(model: &mut Model, change: ControlChange) -> Vec<Effect> {
    model.update(Input::AirPodsControl(PODS.to_string(), change))
}

fn send(identifier: Id, value: &[u8]) -> Effect {
    Effect::SendControl {
        mac: PODS.to_string(),
        identifier,
        value: value.to_vec(),
    }
}

fn airpods(model: &Model) -> &AirPods {
    model.airpods(PODS).unwrap()
}

#[test]
fn only_reported_settings_are_shown() {
    let model = connected(&[
        (Id::ChimeVolume, &[0x40, 0x50]),
        (Id::OneBudAncMode, &[0x01]),
        (Id::SleepDetectionConfig, &[0x07]),
    ]);
    let pods = airpods(&model);
    assert_eq!(tone_volume(pods), Some(0x40));
    assert_eq!(pods.toggle(Id::OneBudAncMode), Some(true));
    // Reported but unknown: shown, as off.
    assert_eq!(pods.toggle(Id::SleepDetectionConfig), Some(false));
    assert_eq!(pods.toggle(Id::VolumeSwipeMode), None);
    assert!(!pods.reported(Id::MicMode));
    assert_eq!(adaptive_noise(pods), None);
    assert_eq!(cycle_rows(pods), None);
    assert_eq!(hang_up_press(pods), None);
}

#[test]
fn undecodable_values_fall_back_to_the_defaults() {
    let model = connected(&[
        (Id::ChimeVolume, &[0xFF]),
        (Id::AutoAncStrength, &[0xFF]),
        (Id::CallManagementConfig, &[0x07]),
    ]);
    let pods = airpods(&model);
    assert_eq!(tone_volume(pods), Some(DEFAULT_TONE_VOLUME));
    assert_eq!(adaptive_noise(pods), Some(50));
    assert_eq!(hang_up_press(pods), Some(""));
}

#[test]
fn choices_and_switches_send_at_once_and_show_the_new_value() {
    let mut model = connected(&[
        (Id::MicMode, &[0x00]),
        (Id::CallManagementConfig, &[0x00, 0x03]),
        (Id::VolumeSwipeMode, &[0x01]),
    ]);
    assert_eq!(
        change(&mut model, ControlChange::MicMode(MicMode::AlwaysLeft)),
        [send(Id::MicMode, &[0x02])]
    );
    assert_eq!(
        airpods(&model).control::<MicMode>(Id::MicMode),
        Some(MicMode::AlwaysLeft)
    );

    assert_eq!(
        change(
            &mut model,
            ControlChange::MuteControl(CallControls::PressTwiceToMute)
        ),
        [send(Id::CallManagementConfig, &[0x00, 0x02])]
    );
    assert_eq!(hang_up_press(airpods(&model)), Some("Press Once"));

    assert_eq!(
        change(&mut model, ControlChange::VolumeSwipe(false)),
        [send(Id::VolumeSwipeMode, &[0x02])]
    );
    assert_eq!(airpods(&model).toggle(Id::VolumeSwipeMode), Some(false));

    for (change_to, identifier, value) in [
        (
            ControlChange::PressSpeed(PressInterval::Slowest),
            Id::DoubleClickInterval,
            &[0x02][..],
        ),
        (
            ControlChange::HoldDuration(PressInterval::Slower),
            Id::ClickHoldInterval,
            &[0x01],
        ),
        (
            ControlChange::SwipeSpeed(SwipeInterval::Longest),
            Id::VolumeSwipeInterval,
            &[0x03],
        ),
        (ControlChange::OneBudAnc(true), Id::OneBudAncMode, &[0x01]),
        (
            ControlChange::SleepDetection(false),
            Id::SleepDetectionConfig,
            &[0x02],
        ),
    ] {
        assert_eq!(
            change(&mut model, change_to),
            [send(identifier, value)],
            "{change_to:?}"
        );
    }
}

#[test]
fn long_press_changes_one_bud_and_keeps_the_other() {
    let mut model = connected(&[(Id::ClickHoldMode, &[0x05, 0x01])]);
    assert_eq!(
        change(
            &mut model,
            ControlChange::LongPress(Bud::Left, ClickHoldAction::Siri)
        ),
        [send(Id::ClickHoldMode, &[0x05, 0x05])]
    );
    assert_eq!(
        change(
            &mut model,
            ControlChange::LongPress(Bud::Right, ClickHoldAction::NoiseControl)
        ),
        [send(Id::ClickHoldMode, &[0x01, 0x05])]
    );
}

#[test]
fn long_press_on_an_unknown_value_keeps_the_default_for_the_other_bud() {
    let mut model = connected(&[(Id::ClickHoldMode, &[0x09, 0x09])]);
    assert_eq!(
        change(
            &mut model,
            ControlChange::LongPress(Bud::Right, ClickHoldAction::Siri)
        ),
        [send(Id::ClickHoldMode, &[0x05, 0x01])]
    );
}

#[test]
fn cycle_keeps_two_modes_and_locks_the_last_two() {
    // Noise cancellation and transparency.
    let mut model = connected(&[(Id::ListeningModeConfigs, &[0x06])]);
    let rows = cycle_rows(airpods(&model)).unwrap();
    let row = |mode| *rows.iter().find(|r| r.mode == mode).unwrap();
    assert!(!row(CycleMode::Off).shown);
    assert!(row(CycleMode::Transparency).on && row(CycleMode::Transparency).locked);
    assert!(!row(CycleMode::Adaptive).on && !row(CycleMode::Adaptive).locked);

    assert!(
        change(
            &mut model,
            ControlChange::CycleMode(CycleMode::Transparency, false)
        )
        .is_empty()
    );
    assert_eq!(
        change(
            &mut model,
            ControlChange::CycleMode(CycleMode::Adaptive, true)
        ),
        [send(Id::ListeningModeConfigs, &[0x0E])]
    );
    // With three modes, one can go again.
    assert_eq!(
        change(
            &mut model,
            ControlChange::CycleMode(CycleMode::Transparency, false)
        ),
        [send(Id::ListeningModeConfigs, &[0x0A])]
    );
    // A repeated request for the current state sends nothing.
    assert!(
        change(
            &mut model,
            ControlChange::CycleMode(CycleMode::Adaptive, true)
        )
        .is_empty()
    );
}

#[test]
fn off_joins_the_cycle_only_when_allowed() {
    let mut model = connected(&[(Id::ListeningModeConfigs, &[0x06])]);
    assert!(change(&mut model, ControlChange::CycleMode(CycleMode::Off, true)).is_empty());

    model.update(Input::SetAllowOff(PODS.to_string(), true));
    let rows = cycle_rows(airpods(&model)).unwrap();
    assert!(rows[0].shown && !rows[0].locked);
    assert_eq!(
        change(&mut model, ControlChange::CycleMode(CycleMode::Off, true)),
        [send(Id::ListeningModeConfigs, &[0x07])]
    );
}

#[test]
fn an_unknown_cycle_is_shown_locked_and_never_sent() {
    let mut model = connected(&[(Id::ListeningModeConfigs, &[0x30])]);
    let rows = cycle_rows(airpods(&model)).unwrap();
    assert!(rows.iter().all(|r| !r.on && r.locked));
    assert!(
        change(
            &mut model,
            ControlChange::CycleMode(CycleMode::Adaptive, true)
        )
        .is_empty()
    );
}

/// Run the settle input for `effect`, which must be a SettleControl.
fn settle(model: &mut Model, effect: &Effect) -> Vec<Effect> {
    let Effect::SettleControl {
        mac,
        identifier,
        generation,
    } = effect
    else {
        panic!("settle expected, got {effect:?}");
    };
    model.update(Input::ControlSettled {
        mac: mac.clone(),
        identifier: *identifier,
        generation: *generation,
    })
}

#[test]
fn a_slider_drag_sends_only_the_value_it_rests_on() {
    let mut model = connected(&[(Id::ChimeVolume, &[0x40, 0x50])]);
    let first = change(&mut model, ControlChange::ToneVolume(30));
    assert!(matches!(first.as_slice(), [Effect::SettleControl { .. }]));
    // Shown at once, before anything is sent.
    assert_eq!(tone_volume(airpods(&model)), Some(30));
    let second = change(&mut model, ControlChange::ToneVolume(20));

    assert!(settle(&mut model, &first[0]).is_empty());
    assert_eq!(
        settle(&mut model, &second[0]),
        [send(Id::ChimeVolume, &[20, 0x50])]
    );
    // Settling twice sends once.
    assert!(settle(&mut model, &second[0]).is_empty());
}

#[test]
fn adaptive_slider_sends_the_inverse_strength() {
    let mut model = connected(&[(Id::AutoAncStrength, &[70])]);
    assert_eq!(adaptive_noise(airpods(&model)), Some(30));
    let effects = change(&mut model, ControlChange::AdaptiveNoise(80));
    assert_eq!(adaptive_noise(airpods(&model)), Some(80));
    assert_eq!(
        settle(&mut model, &effects[0]),
        [send(Id::AutoAncStrength, &[20])]
    );
}

#[test]
fn sliders_settle_per_setting() {
    let mut model = connected(&[
        (Id::ChimeVolume, &[0x40, 0x50]),
        (Id::AutoAncStrength, &[50]),
    ]);
    let volume = change(&mut model, ControlChange::ToneVolume(10));
    let noise = change(&mut model, ControlChange::AdaptiveNoise(10));
    assert_eq!(
        settle(&mut model, &volume[0]),
        [send(Id::ChimeVolume, &[10, 0x50])]
    );
    assert_eq!(
        settle(&mut model, &noise[0]),
        [send(Id::AutoAncStrength, &[90])]
    );
}

#[test]
fn a_settled_value_is_dropped_after_a_disconnect() {
    let mut model = connected(&[(Id::ChimeVolume, &[0x40, 0x50])]);
    let effects = change(&mut model, ControlChange::ToneVolume(10));
    model.update(Input::Backend(BluetoothUIMessage::DeviceDisconnected(
        PODS.to_string(),
    )));
    assert!(settle(&mut model, &effects[0]).is_empty());
    assert!(change(&mut model, ControlChange::ToneVolume(10)).is_empty());
}
