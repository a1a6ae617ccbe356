//! What the iced window keeps of connected devices.

use crate::devices::enums::NothingAncMode;
use crate::ui::equalizer::EqualizerState;
use crate::ui::gtk::model::{AirPods, AirPodsView};
use vstd::prelude::*;

verus! {

/// Live state of connected AirPods.
#[derive(Debug)]
pub struct AirPodsState {
    pub pods: AirPods,
    pub hires_mic_enabled: bool,
    pub custom_eq: EqualizerState,
}

/// The mathematical content of an `AirPodsState`.
#[verifier::ext_equal]
pub struct AirPodsStateView {
    pub pods: AirPodsView,
    pub hires_mic_enabled: bool,
    pub custom_eq: EqualizerState,
}

impl View for AirPodsState {
    type V = AirPodsStateView;

    open spec fn view(&self) -> AirPodsStateView {
        AirPodsStateView {
            pods: self.pods@,
            hires_mic_enabled: self.hires_mic_enabled,
            custom_eq: self.custom_eq,
        }
    }
}

/// Live state of a connected Nothing device.
#[derive(Debug, Clone, Copy)]
pub struct NothingState {
    pub anc_mode: NothingAncMode,
}

/// Live state of a connected device.
#[derive(Debug)]
pub enum DeviceState {
    AirPods(AirPodsState),
    Nothing(NothingState),
}

/// The mathematical content of a `DeviceState`.
#[verifier::ext_equal]
pub enum DeviceStateView {
    AirPods(AirPodsStateView),
    Nothing(NothingAncMode),
}

impl View for DeviceState {
    type V = DeviceStateView;

    open spec fn view(&self) -> DeviceStateView {
        match *self {
            DeviceState::AirPods(state) => DeviceStateView::AirPods(state@),
            DeviceState::Nothing(state) => DeviceStateView::Nothing(state.anc_mode),
        }
    }
}

} // verus!
