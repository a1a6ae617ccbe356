use librepods::address_map::AddressMap;
use librepods::bluetooth::aacp::AACPEvent;
use librepods::bluetooth::eq::{CustomEq, BAND_MAX};
use librepods::devices::airpods::AirPodsInformation;
use librepods::devices::enums::{DeviceData, DeviceInformation, DeviceType};
use librepods::ui::gtk::model::equalizer::{flat, EqBand, EqEffect, EqInput};
use librepods::ui::gtk::model::{AirPodsSnapshot, DeviceSnapshot, Effect, Input, Model};
use librepods::ui::messages::BluetoothUIMessage;
use librepods::utils::AppSettings;

const PODS: &str = "AA:BB:CC:DD:EE:01";
const OTHER: &str = "AA:BB:CC:DD:EE:02";
const EAR: &str = "AA:BB:CC:DD:EE:03";

fn device(name: &str, type_: DeviceType) -> DeviceData {
    DeviceData {
        name: name.to_string(),
        type_,
        information: None,
    }
}

fn devices(entries: &[(&str, DeviceData)]) -> AddressMap<DeviceData> {
    let mut devices = AddressMap::new();
    for (mac, device) in entries {
        devices.insert(mac.to_string(), device.clone());
    }
    devices
}

fn model() -> Model {
    let known = devices(&[
        (PODS, device("Pods", DeviceType::AirPods)),
        (OTHER, device("Alpha Pods", DeviceType::AirPods)),
        (EAR, device("Ear", DeviceType::Nothing)),
    ]);
    Model::new(AppSettings::default(), known)
}

/// Connect PODS and deliver its snapshot.
fn connected(model: &mut Model, snapshot: AirPodsSnapshot) {
    let effects = model.update(Input::Backend(BluetoothUIMessage::DeviceConnected(
        PODS.to_string(),
    )));
    assert_eq!(
        effects,
        [Effect::LoadDevices, Effect::Snapshot(PODS.to_string())]
    );
    model.update(Input::Snapshot(
        PODS.to_string(),
        Some(DeviceSnapshot::AirPods(snapshot)),
    ));
}

fn eq(model: &mut Model, input: EqInput) -> Vec<Effect> {
    model.update(Input::Equalizer(input))
}

fn on(model: &mut Model) {
    eq(model, EqInput::SetEnabled(PODS.to_string(), true));
}

fn send(eq: CustomEq) -> Vec<Effect> {
    vec![Effect::Equalizer(EqEffect::Send {
        mac: PODS.to_string(),
        eq,
    })]
}

fn later(effects: &[Effect]) -> u64 {
    let [Effect::Equalizer(EqEffect::SendLater { generation, .. })] = effects else {
        panic!("delayed send expected, got {effects:?}");
    };
    *generation
}

fn due(model: &mut Model, generation: u64) -> Vec<Effect> {
    eq(
        model,
        EqInput::SendDue {
            mac: PODS.to_string(),
            generation,
        },
    )
}

fn with_model_number(number: &str) -> Model {
    let information = AirPodsInformation {
        model_number: number.to_string(),
        ..AirPodsInformation::default()
    };
    let known = devices(&[(
        PODS,
        DeviceData {
            name: "Pods".to_string(),
            type_: DeviceType::AirPods,
            information: Some(DeviceInformation::AirPods(information)),
        },
    )]);
    let mut model = Model::new(AppSettings::default(), known);
    connected(&mut model, AirPodsSnapshot::default());
    model
}

#[test]
fn switch_sends_at_once() {
    let mut model = model();
    connected(&mut model, AirPodsSnapshot::default());
    let effects = eq(&mut model, EqInput::SetEnabled(PODS.to_string(), true));
    let expected = CustomEq {
        enabled: true,
        ..CustomEq::default()
    };
    assert_eq!(effects, send(expected));
    assert_eq!(model.custom_eq(PODS), expected);
    // Switching to the state it already has sends nothing.
    assert!(eq(&mut model, EqInput::SetEnabled(PODS.to_string(), true)).is_empty());
}

#[test]
fn band_changes_coalesce_into_the_last_one() {
    let mut model = model();
    connected(&mut model, AirPodsSnapshot::default());
    on(&mut model);
    let first = later(&eq(
        &mut model,
        EqInput::SetBand(PODS.to_string(), EqBand::Low, 60),
    ));
    let second = later(&eq(
        &mut model,
        EqInput::SetBand(PODS.to_string(), EqBand::Low, 70),
    ));
    assert!(due(&mut model, first).is_empty());
    let expected = CustomEq {
        enabled: true,
        low: 70,
        mid: 50,
        high: 50,
    };
    assert_eq!(due(&mut model, second), send(expected));
    // Each delayed send goes out once.
    assert!(due(&mut model, second).is_empty());
}

#[test]
fn a_send_now_cancels_the_delayed_one() {
    let mut model = model();
    connected(&mut model, AirPodsSnapshot::default());
    on(&mut model);
    let pending = later(&eq(
        &mut model,
        EqInput::SetBand(PODS.to_string(), EqBand::High, 100),
    ));
    assert_eq!(model.custom_eq(PODS).high, 100);
    assert!(model.eq_can_reset(PODS));
    assert_eq!(eq(&mut model, EqInput::Reset(PODS.to_string())), send(flat()));
    assert!(due(&mut model, pending).is_empty());
    assert!(!model.eq_can_reset(PODS));
    // Reset on flat bands sends nothing.
    assert!(eq(&mut model, EqInput::Reset(PODS.to_string())).is_empty());
}

#[test]
fn bands_are_clamped_and_ignored_while_off() {
    let mut model = model();
    connected(&mut model, AirPodsSnapshot::default());
    assert!(
        eq(
            &mut model,
            EqInput::SetBand(PODS.to_string(), EqBand::Mid, 80)
        )
        .is_empty()
    );
    assert_eq!(model.custom_eq(PODS).mid, 50);
    on(&mut model);
    eq(
        &mut model,
        EqInput::SetBand(PODS.to_string(), EqBand::Mid, 200),
    );
    assert_eq!(model.custom_eq(PODS).mid, BAND_MAX);
    // The same value again is not a change.
    assert!(
        eq(
            &mut model,
            EqInput::SetBand(PODS.to_string(), EqBand::Mid, BAND_MAX)
        )
        .is_empty()
    );
}

#[test]
fn reported_eq_replaces_the_shown_one() {
    let mut model = model();
    connected(
        &mut model,
        AirPodsSnapshot {
            custom_eq: Some(CustomEq {
                enabled: true,
                low: 10,
                mid: 20,
                high: 30,
            }),
            ..AirPodsSnapshot::default()
        },
    );
    assert_eq!(EqBand::High.get(model.custom_eq(PODS)), 30);
    let reported = CustomEq {
        enabled: false,
        ..CustomEq::default()
    };
    model.update(Input::Backend(BluetoothUIMessage::AACPUIEvent(
        PODS.to_string(),
        AACPEvent::CustomEq(reported),
    )));
    assert_eq!(model.custom_eq(PODS), reported);
}

#[test]
fn older_models_do_not_offer_it() {
    let mut model = with_model_number("A2084");
    assert!(!model.equalizer_supported(PODS));
    assert!(eq(&mut model, EqInput::SetEnabled(PODS.to_string(), true)).is_empty());

    let mut model = with_model_number("A2698");
    assert!(model.equalizer_supported(PODS));
    assert_eq!(
        eq(&mut model, EqInput::SetEnabled(PODS.to_string(), true)).len(),
        1
    );
}

#[test]
fn disconnected_airpods_send_nothing() {
    let mut model = model();
    connected(&mut model, AirPodsSnapshot::default());
    on(&mut model);
    let pending = later(&eq(
        &mut model,
        EqInput::SetBand(PODS.to_string(), EqBand::Low, 0),
    ));
    model.update(Input::Backend(BluetoothUIMessage::DeviceDisconnected(
        PODS.to_string(),
    )));
    assert!(due(&mut model, pending).is_empty());
    assert!(eq(&mut model, EqInput::SetEnabled(PODS.to_string(), false)).is_empty());
}
