//! Device kinds, what devices.json keeps of a device, and noise control modes.

use crate::devices::airpods::{AirPodsInformation, AirPodsInformationView};
use vstd::prelude::*;

verus! {

/// The kinds of devices.
#[derive(Debug, Clone, Copy, PartialEq, Eq, Structural)]
pub enum DeviceType {
    AirPods,
    Nothing,
}

/// The device information of a Nothing device.
#[derive(Debug, Clone, PartialEq, Eq)]
pub struct NothingInformation {
    pub serial_number: String,
    pub firmware_version: String,
}

/// The device information of a known device.
#[derive(Debug, Clone, PartialEq, Eq)]
pub enum DeviceInformation {
    AirPods(AirPodsInformation),
    Nothing(NothingInformation),
}

/// The mathematical content of a `DeviceInformation`.
#[verifier::ext_equal]
pub enum DeviceInformationView {
    AirPods(AirPodsInformationView),
    Nothing { serial_number: Seq<char>, firmware_version: Seq<char> },
}

impl View for DeviceInformation {
    type V = DeviceInformationView;

    open spec fn view(&self) -> DeviceInformationView {
        match *self {
            DeviceInformation::AirPods(info) => DeviceInformationView::AirPods(info@),
            DeviceInformation::Nothing(info) => DeviceInformationView::Nothing {
                serial_number: info.serial_number@,
                firmware_version: info.firmware_version@,
            },
        }
    }
}

/// What devices.json keeps of a device.
#[derive(Debug, Clone, PartialEq, Eq)]
pub struct DeviceData {
    pub name: String,
    pub type_: DeviceType,
    pub information: Option<DeviceInformation>,
}

/// The mathematical content of a `DeviceData`.
#[verifier::ext_equal]
pub struct DeviceDataView {
    pub name: Seq<char>,
    pub type_: DeviceType,
    pub information: Option<DeviceInformationView>,
}

impl View for DeviceData {
    type V = DeviceDataView;

    open spec fn view(&self) -> DeviceDataView {
        DeviceDataView {
            name: self.name@,
            type_: self.type_,
            information: match self.information {
                Some(info) => Some(info@),
                None => None,
            },
        }
    }
}

impl DeviceDataView {
    /// The AirPods information, for a device that has it.
    pub open spec fn airpods_information(self) -> Option<AirPodsInformationView> {
        match self.information {
            Some(DeviceInformationView::AirPods(info)) => Some(info),
            _ => None,
        }
    }
}

impl DeviceData {
    /// The AirPods information, for a device that has it.
    pub fn airpods_information(&self) -> (info: Option<&AirPodsInformation>)
        ensures
            match info {
                Some(i) => self@.airpods_information() == Some(i@),
                None => self@.airpods_information() is None,
            },
    {
        match &self.information {
            Some(DeviceInformation::AirPods(info)) => Some(info),
            _ => None,
        }
    }
}

/// Listening modes of AirPods.
#[derive(Debug, Clone, Copy, PartialEq, Eq, Structural)]
pub enum AirPodsNoiseControlMode {
    Off,
    NoiseCancellation,
    Transparency,
    Adaptive,
}

/// The byte of a listening mode.
pub open spec fn listening_byte(mode: AirPodsNoiseControlMode) -> u8 {
    match mode {
        AirPodsNoiseControlMode::Off => 0x01,
        AirPodsNoiseControlMode::NoiseCancellation => 0x02,
        AirPodsNoiseControlMode::Transparency => 0x03,
        AirPodsNoiseControlMode::Adaptive => 0x04,
    }
}

/// The listening mode of a byte; a byte no mode has counts as Off.
pub open spec fn listening_of(byte: u8) -> AirPodsNoiseControlMode {
    if byte == 0x02 {
        AirPodsNoiseControlMode::NoiseCancellation
    } else if byte == 0x03 {
        AirPodsNoiseControlMode::Transparency
    } else if byte == 0x04 {
        AirPodsNoiseControlMode::Adaptive
    } else {
        AirPodsNoiseControlMode::Off
    }
}

/// The name of a listening mode.
pub open spec fn listening_label(mode: AirPodsNoiseControlMode) -> Seq<char> {
    match mode {
        AirPodsNoiseControlMode::Off => "Off"@,
        AirPodsNoiseControlMode::NoiseCancellation => "Noise Cancellation"@,
        AirPodsNoiseControlMode::Transparency => "Transparency"@,
        AirPodsNoiseControlMode::Adaptive => "Adaptive"@,
    }
}

impl AirPodsNoiseControlMode {
    /// The byte the AirPods use for the mode.
    pub fn to_byte(&self) -> (byte: u8)
        ensures
            byte == listening_byte(*self),
    {
        match self {
            AirPodsNoiseControlMode::Off => 0x01,
            AirPodsNoiseControlMode::NoiseCancellation => 0x02,
            AirPodsNoiseControlMode::Transparency => 0x03,
            AirPodsNoiseControlMode::Adaptive => 0x04,
        }
    }

    /// The mode of a byte; a byte no mode has counts as Off.
    pub fn from_byte(byte: &u8) -> (mode: AirPodsNoiseControlMode)
        ensures
            mode == listening_of(*byte),
    {
        if *byte == 0x02 {
            AirPodsNoiseControlMode::NoiseCancellation
        } else if *byte == 0x03 {
            AirPodsNoiseControlMode::Transparency
        } else if *byte == 0x04 {
            AirPodsNoiseControlMode::Adaptive
        } else {
            AirPodsNoiseControlMode::Off
        }
    }

    /// The name of the mode.
    pub fn label(&self) -> (label: &'static str)
        ensures
            label@ == listening_label(*self),
    {
        match self {
            AirPodsNoiseControlMode::Off => "Off",
            AirPodsNoiseControlMode::NoiseCancellation => "Noise Cancellation",
            AirPodsNoiseControlMode::Transparency => "Transparency",
            AirPodsNoiseControlMode::Adaptive => "Adaptive",
        }
    }
}

/// Every listening mode reads back from its byte.
pub proof fn listening_modes_read_back(mode: AirPodsNoiseControlMode)
    ensures
        listening_of(listening_byte(mode)) == mode,
{
}

/// Noise control modes of Nothing devices.
#[derive(Debug, Clone, Copy, PartialEq, Eq, Structural)]
pub enum NothingAncMode {
    Off,
    LowNoiseCancellation,
    MidNoiseCancellation,
    HighNoiseCancellation,
    AdaptiveNoiseCancellation,
    Transparency,
}

/// The byte of a Nothing noise control mode.
pub open spec fn nothing_byte(mode: NothingAncMode) -> u8 {
    match mode {
        NothingAncMode::HighNoiseCancellation => 0x01,
        NothingAncMode::MidNoiseCancellation => 0x02,
        NothingAncMode::LowNoiseCancellation => 0x03,
        NothingAncMode::AdaptiveNoiseCancellation => 0x04,
        NothingAncMode::Off => 0x05,
        NothingAncMode::Transparency => 0x07,
    }
}

/// The name of a Nothing noise control mode.
pub open spec fn nothing_label(mode: NothingAncMode) -> Seq<char> {
    match mode {
        NothingAncMode::Off => "Off"@,
        NothingAncMode::LowNoiseCancellation => "Low Noise Cancellation"@,
        NothingAncMode::MidNoiseCancellation => "Mid Noise Cancellation"@,
        NothingAncMode::HighNoiseCancellation => "High Noise Cancellation"@,
        NothingAncMode::AdaptiveNoiseCancellation => "Adaptive Noise Cancellation"@,
        NothingAncMode::Transparency => "Transparency"@,
    }
}

impl NothingAncMode {
    /// The byte a Nothing device uses for the mode.
    pub fn to_byte(&self) -> (byte: u8)
        ensures
            byte == nothing_byte(*self),
    {
        match self {
            NothingAncMode::HighNoiseCancellation => 0x01,
            NothingAncMode::MidNoiseCancellation => 0x02,
            NothingAncMode::LowNoiseCancellation => 0x03,
            NothingAncMode::AdaptiveNoiseCancellation => 0x04,
            NothingAncMode::Off => 0x05,
            NothingAncMode::Transparency => 0x07,
        }
    }

    /// The name of the mode.
    pub fn label(&self) -> (label: &'static str)
        ensures
            label@ == nothing_label(*self),
    {
        match self {
            NothingAncMode::Off => "Off",
            NothingAncMode::LowNoiseCancellation => "Low Noise Cancellation",
            NothingAncMode::MidNoiseCancellation => "Mid Noise Cancellation",
            NothingAncMode::HighNoiseCancellation => "High Noise Cancellation",
            NothingAncMode::AdaptiveNoiseCancellation => "Adaptive Noise Cancellation",
            NothingAncMode::Transparency => "Transparency",
        }
    }
}

/// The packet that sets the noise control mode of a Nothing device.
pub open spec fn anc_packet(mode: u8) -> Seq<u8> {
    seq![
        0x55u8,
        0x60u8,
        0x01u8,
        0x0Fu8,
        0xF0u8,
        0x03u8,
        0x00u8,
        0x00u8,
        0x01u8,
        mode,
        0x00u8,
        0x00u8,
        0x00u8,
    ]
}

/// The packet that sets the noise control mode of a Nothing device to the
/// mode of a byte.
pub fn nothing_anc_packet(mode: u8) -> (packet: Vec<u8>)
    ensures
        packet@ == anc_packet(mode),
{
    let packet: Vec<u8> = vec![
        0x55, 0x60, 0x01, 0x0F, 0xF0, 0x03, 0x00, 0x00, 0x01, mode, 0x00, 0x00, 0x00,
    ];
    proof {
        assert(packet@ =~= anc_packet(mode));
    }
    packet
}

/// The listening modes have these bytes on the wire, and any other byte reads
/// as Off.
pub proof fn listening_modes_have_their_bytes(byte: u8)
    ensures
        listening_byte(AirPodsNoiseControlMode::Off) == 0x01,
        listening_byte(AirPodsNoiseControlMode::NoiseCancellation) == 0x02,
        listening_byte(AirPodsNoiseControlMode::Transparency) == 0x03,
        listening_byte(AirPodsNoiseControlMode::Adaptive) == 0x04,
        byte == 0 || byte > 4 ==> listening_of(byte) == AirPodsNoiseControlMode::Off,
        listening_label(AirPodsNoiseControlMode::Off) == "Off"@,
        listening_label(AirPodsNoiseControlMode::NoiseCancellation) == "Noise Cancellation"@,
        listening_label(AirPodsNoiseControlMode::Transparency) == "Transparency"@,
        listening_label(AirPodsNoiseControlMode::Adaptive) == "Adaptive"@,
{
}

/// The noise control modes of Nothing devices have these bytes and names, and
/// no two share a byte.
pub proof fn nothing_modes_have_their_bytes(a: NothingAncMode, b: NothingAncMode)
    ensures
        nothing_byte(NothingAncMode::HighNoiseCancellation) == 0x01,
        nothing_byte(NothingAncMode::MidNoiseCancellation) == 0x02,
        nothing_byte(NothingAncMode::LowNoiseCancellation) == 0x03,
        nothing_byte(NothingAncMode::AdaptiveNoiseCancellation) == 0x04,
        nothing_byte(NothingAncMode::Off) == 0x05,
        nothing_byte(NothingAncMode::Transparency) == 0x07,
        nothing_byte(a) == nothing_byte(b) ==> a == b,
        nothing_label(NothingAncMode::Off) == "Off"@,
        nothing_label(NothingAncMode::LowNoiseCancellation) == "Low Noise Cancellation"@,
        nothing_label(NothingAncMode::MidNoiseCancellation) == "Mid Noise Cancellation"@,
        nothing_label(NothingAncMode::HighNoiseCancellation) == "High Noise Cancellation"@,
        nothing_label(NothingAncMode::AdaptiveNoiseCancellation)
            == "Adaptive Noise Cancellation"@,
        nothing_label(NothingAncMode::Transparency) == "Transparency"@,
{
}

/// A noise control packet is thirteen bytes that differ in the mode alone: its
/// header, the mode as the tenth byte, and three zeros.
pub proof fn noise_control_packets_carry_the_mode(a: u8, b: u8)
    ensures
        anc_packet(a).len() == 13,
        anc_packet(a)[9] == a,
        anc_packet(a).take(9) == seq![
            0x55u8, 0x60u8, 0x01u8, 0x0Fu8, 0xF0u8, 0x03u8, 0x00u8, 0x00u8, 0x01u8,
        ],
        anc_packet(a).skip(10) == seq![0x00u8, 0x00u8, 0x00u8],
        anc_packet(a).update(9, b) == anc_packet(b),
{
}

} // verus!
