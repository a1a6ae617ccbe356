//! The reports of the AirPods: battery levels, control command values and
//! the events that carry them.

use crate::bluetooth::eq::CustomEq;
use vstd::prelude::*;

verus! {

/// A part with a battery of its own.
#[derive(Debug, Clone, Copy, PartialEq, Eq, Structural)]
pub enum BatteryComponent {
    /// Over-ear headphones as a whole.
    Headphone,
    Left,
    Right,
    Case,
}

/// How a battery does.
#[derive(Debug, Clone, Copy, PartialEq, Eq, Structural)]
pub enum BatteryStatus {
    Charging,
    NotCharging,
    /// The component is out of reach and its level says nothing.
    Disconnected,
    /// Charging, held below full to spare the battery.
    OptimizedCharging,
}

impl BatteryStatus {
    /// Whether the battery charges, optimized or not.
    pub open spec fn charges(self) -> bool {
        self is Charging || self is OptimizedCharging
    }

    /// Whether the battery charges, optimized or not.
    pub fn is_charging(self) -> (yes: bool)
        ensures
            yes == self.charges(),
    {
        match self {
            BatteryStatus::Charging | BatteryStatus::OptimizedCharging => true,
            BatteryStatus::NotCharging | BatteryStatus::Disconnected => false,
        }
    }
}

/// One entry of a battery report.
#[derive(Debug, Clone, Copy, PartialEq, Eq, Structural)]
pub struct BatteryInfo {
    pub component: BatteryComponent,
    /// In percent; values over 100 occur and mean nothing.
    pub level: u8,
    pub status: BatteryStatus,
}

/// The settings the AirPods expose as control commands.
#[derive(Debug, Clone, Copy, PartialEq, Eq, Structural)]
pub enum ControlCommandIdentifiers {
    MicMode,
    ListeningMode,
    ClickHoldMode,
    DoubleClickInterval,
    ClickHoldInterval,
    ListeningModeConfigs,
    OneBudAncMode,
    ChimeVolume,
    VolumeSwipeInterval,
    CallManagementConfig,
    VolumeSwipeMode,
    AdaptiveVolumeConfig,
    ConversationDetectConfig,
    AutoAncStrength,
    AllowOffOption,
    SleepDetectionConfig,
}

impl ControlCommandIdentifiers {
    /// The number of the command in a packet.
    pub open spec fn number(self) -> u8 {
        match self {
            ControlCommandIdentifiers::MicMode => 0x01,
            ControlCommandIdentifiers::ListeningMode => 0x0D,
            ControlCommandIdentifiers::ClickHoldMode => 0x16,
            ControlCommandIdentifiers::DoubleClickInterval => 0x17,
            ControlCommandIdentifiers::ClickHoldInterval => 0x18,
            ControlCommandIdentifiers::ListeningModeConfigs => 0x1A,
            ControlCommandIdentifiers::OneBudAncMode => 0x1B,
            ControlCommandIdentifiers::ChimeVolume => 0x1F,
            ControlCommandIdentifiers::VolumeSwipeInterval => 0x23,
            ControlCommandIdentifiers::CallManagementConfig => 0x24,
            ControlCommandIdentifiers::VolumeSwipeMode => 0x25,
            ControlCommandIdentifiers::AdaptiveVolumeConfig => 0x26,
            ControlCommandIdentifiers::ConversationDetectConfig => 0x28,
            ControlCommandIdentifiers::AutoAncStrength => 0x2E,
            ControlCommandIdentifiers::AllowOffOption => 0x34,
            ControlCommandIdentifiers::SleepDetectionConfig => 0x35,
        }
    }

    /// The number of the command in a packet.
    pub fn to_byte(self) -> (number: u8)
        ensures
            number == self.number(),
    {
        match self {
            ControlCommandIdentifiers::MicMode => 0x01,
            ControlCommandIdentifiers::ListeningMode => 0x0D,
            ControlCommandIdentifiers::ClickHoldMode => 0x16,
            ControlCommandIdentifiers::DoubleClickInterval => 0x17,
            ControlCommandIdentifiers::ClickHoldInterval => 0x18,
            ControlCommandIdentifiers::ListeningModeConfigs => 0x1A,
            ControlCommandIdentifiers::OneBudAncMode => 0x1B,
            ControlCommandIdentifiers::ChimeVolume => 0x1F,
            ControlCommandIdentifiers::VolumeSwipeInterval => 0x23,
            ControlCommandIdentifiers::CallManagementConfig => 0x24,
            ControlCommandIdentifiers::VolumeSwipeMode => 0x25,
            ControlCommandIdentifiers::AdaptiveVolumeConfig => 0x26,
            ControlCommandIdentifiers::ConversationDetectConfig => 0x28,
            ControlCommandIdentifiers::AutoAncStrength => 0x2E,
            ControlCommandIdentifiers::AllowOffOption => 0x34,
            ControlCommandIdentifiers::SleepDetectionConfig => 0x35,
        }
    }
}

/// Different commands have different numbers.
pub proof fn numbers_tell_commands_apart(
    a: ControlCommandIdentifiers,
    b: ControlCommandIdentifiers,
)
    requires
        a.number() == b.number(),
    ensures
        a == b,
{
}

/// The value of a control command, as the AirPods report it.
#[derive(Debug, Clone, PartialEq, Eq)]
pub struct ControlCommandStatus {
    pub identifier: ControlCommandIdentifiers,
    pub value: Vec<u8>,
}

/// An event from connected AirPods.
#[derive(Debug, Clone)]
pub enum AACPEvent {
    BatteryInfo(Vec<BatteryInfo>),
    ControlCommand(ControlCommandStatus),
    CustomEq(CustomEq),
    /// An event the window does not show, such as ear detection.
    Other,
}

/// The number each command has on the wire.
pub proof fn commands_have_their_wire_numbers()
    ensures
        ControlCommandIdentifiers::MicMode.number() == 0x01,
        ControlCommandIdentifiers::ListeningMode.number() == 0x0D,
        ControlCommandIdentifiers::ClickHoldMode.number() == 0x16,
        ControlCommandIdentifiers::DoubleClickInterval.number() == 0x17,
        ControlCommandIdentifiers::ClickHoldInterval.number() == 0x18,
        ControlCommandIdentifiers::ListeningModeConfigs.number() == 0x1A,
        ControlCommandIdentifiers::OneBudAncMode.number() == 0x1B,
        ControlCommandIdentifiers::ChimeVolume.number() == 0x1F,
        ControlCommandIdentifiers::VolumeSwipeInterval.number() == 0x23,
        ControlCommandIdentifiers::CallManagementConfig.number() == 0x24,
        ControlCommandIdentifiers::VolumeSwipeMode.number() == 0x25,
        ControlCommandIdentifiers::AdaptiveVolumeConfig.number() == 0x26,
        ControlCommandIdentifiers::ConversationDetectConfig.number() == 0x28,
        ControlCommandIdentifiers::AutoAncStrength.number() == 0x2E,
        ControlCommandIdentifiers::AllowOffOption.number() == 0x34,
        ControlCommandIdentifiers::SleepDetectionConfig.number() == 0x35,
{
}

/// A battery charges while it fills, also where it is held below full, and not
/// otherwise.
pub proof fn batteries_charge_while_they_fill()
    ensures
        BatteryStatus::Charging.charges(),
        BatteryStatus::OptimizedCharging.charges(),
        !BatteryStatus::NotCharging.charges(),
        !BatteryStatus::Disconnected.charges(),
{
}

} // verus!
