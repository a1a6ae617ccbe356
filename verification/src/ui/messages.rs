//! What the Bluetooth side tells the user interface.

use crate::bluetooth::aacp::AACPEvent;
use vstd::prelude::*;

verus! {

/// A message for the user interface. The strings are addresses.
#[derive(Debug, Clone)]
pub enum BluetoothUIMessage {
    OpenWindow,
    DeviceConnected(String),
    DeviceDisconnected(String),
    AACPUIEvent(String, AACPEvent),
    /// From the tray: connect known AirPods to this PC.
    ConnectAirPods,
}

} // verus!
