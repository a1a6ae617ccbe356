use librepods::bluetooth::settings::{
    AdaptiveStrength, CallControls, ChimeVolume, ClickHoldAction, ClickHoldMode, ControlValue,
    CycleMode, ListeningModeCycle, MicMode, PressInterval, SwipeInterval, Toggle,
};
use librepods::bluetooth::aacp::ControlCommandIdentifiers;
use librepods::bytes::ByteMap;
use librepods::devices::enums::AirPodsNoiseControlMode;

#[test]
fn values_read_back() {
    for on in [false, true] {
        assert_eq!(Toggle::from_value(&Toggle(on).to_value()), Some(Toggle(on)));
    }
    for right in ClickHoldAction::all() {
        for left in ClickHoldAction::all() {
            let mode = ClickHoldMode { right, left };
            assert_eq!(ClickHoldMode::from_value(&mode.to_value()), Some(mode));
        }
    }
    for controls in CallControls::all() {
        assert_eq!(CallControls::from_value(&controls.to_value()), Some(controls));
    }
    for mode in MicMode::all() {
        assert_eq!(MicMode::from_value(&mode.to_value()), Some(mode));
    }
    for interval in PressInterval::all() {
        assert_eq!(PressInterval::from_value(&interval.to_value()), Some(interval));
    }
    for interval in SwipeInterval::all() {
        assert_eq!(SwipeInterval::from_value(&interval.to_value()), Some(interval));
    }
    for percent in [0, 50, 100, 200] {
        let volume = ChimeVolume::new(percent);
        assert_eq!(ChimeVolume::from_value(&volume.to_value()), Some(volume));
        let strength = AdaptiveStrength::new(percent);
        assert_eq!(AdaptiveStrength::from_value(&strength.to_value()), Some(strength));
        assert_eq!(volume.percent(), percent.min(100));
        assert_eq!(strength.strength(), percent.min(100));
    }
}

#[test]
fn switches_send_one_or_two() {
    assert_eq!(Toggle(true).to_value(), [0x01]);
    assert_eq!(Toggle(false).to_value(), [0x02]);
    assert_eq!(Toggle::from_value(&[0x03]), None);
    assert_eq!(Toggle::from_value(&[]), None);
}

#[test]
fn the_cycle_keeps_two_modes_at_least() {
    let cycle = ListeningModeCycle {
        off: false,
        noise_cancellation: true,
        transparency: true,
        adaptive: false,
    };
    assert_eq!(ListeningModeCycle::from_value(&cycle.to_value()), Some(cycle));
    assert!(cycle.contains(CycleMode::Transparency));
    assert!(!cycle.contains(CycleMode::Off));
    assert_eq!(cycle.toggled(CycleMode::Transparency), None);
    let three = cycle.toggled(CycleMode::Adaptive).unwrap();
    assert!(three.contains(CycleMode::Adaptive));
    assert_eq!(three.toggled(CycleMode::Adaptive), Some(cycle));
}

#[test]
fn listening_modes_have_bytes() {
    for (mode, byte) in [
        (AirPodsNoiseControlMode::Off, 0x01),
        (AirPodsNoiseControlMode::NoiseCancellation, 0x02),
        (AirPodsNoiseControlMode::Transparency, 0x03),
        (AirPodsNoiseControlMode::Adaptive, 0x04),
    ] {
        assert_eq!(mode.to_byte(), byte);
        assert_eq!(AirPodsNoiseControlMode::from_byte(&byte), mode);
    }
}

#[test]
fn commands_have_different_numbers() {
    let mic = ControlCommandIdentifiers::MicMode;
    let mode = ControlCommandIdentifiers::ListeningMode;
    assert_ne!(mic.to_byte(), mode.to_byte());
}

#[test]
fn the_last_value_of_a_number_counts() {
    let mut values = ByteMap::new();
    assert!(values.get(7).is_none());
    values.insert(7, vec![1]);
    values.insert(7, vec![2, 3]);
    assert_eq!(values.get(7).map(Vec::as_slice), Some(&[2, 3][..]));
    assert!(values.contains_key(7) && !values.contains_key(8));
}
