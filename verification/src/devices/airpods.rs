//! What AirPods tell about themselves.

use vstd::prelude::*;

verus! {

/// The device information of AirPods, as devices.json keeps it.
#[derive(Debug, Clone, PartialEq, Eq)]
pub struct AirPodsInformation {
    pub name: String,
    pub model_number: String,
    pub manufacturer: String,
    pub serial_number: String,
    pub version1: String,
    pub version2: String,
    pub version3: String,
    pub left_serial_number: String,
    pub right_serial_number: String,
}

/// The mathematical content of `AirPodsInformation`.
#[verifier::ext_equal]
pub struct AirPodsInformationView {
    pub name: Seq<char>,
    pub model_number: Seq<char>,
    pub manufacturer: Seq<char>,
    pub serial_number: Seq<char>,
    pub version1: Seq<char>,
    pub version2: Seq<char>,
    pub version3: Seq<char>,
    pub left_serial_number: Seq<char>,
    pub right_serial_number: Seq<char>,
}

impl View for AirPodsInformation {
    type V = AirPodsInformationView;

    open spec fn view(&self) -> AirPodsInformationView {
        AirPodsInformationView {
            name: self.name@,
            model_number: self.model_number@,
            manufacturer: self.manufacturer@,
            serial_number: self.serial_number@,
            version1: self.version1@,
            version2: self.version2@,
            version3: self.version3@,
            left_serial_number: self.left_serial_number@,
            right_serial_number: self.right_serial_number@,
        }
    }
}

impl Default for AirPodsInformation {
    /// Everything empty.
    fn default() -> (info: AirPodsInformation)
        ensures
            info@ == (AirPodsInformationView {
                name: Seq::empty(),
                model_number: Seq::empty(),
                manufacturer: Seq::empty(),
                serial_number: Seq::empty(),
                version1: Seq::empty(),
                version2: Seq::empty(),
                version3: Seq::empty(),
                left_serial_number: Seq::empty(),
                right_serial_number: Seq::empty(),
            }),
    {
        AirPodsInformation {
            name: String::new(),
            model_number: String::new(),
            manufacturer: String::new(),
            serial_number: String::new(),
            version1: String::new(),
            version2: String::new(),
            version3: String::new(),
            left_serial_number: String::new(),
            right_serial_number: String::new(),
        }
    }
}

} // verus!
