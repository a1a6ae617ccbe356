//! What the Bluetooth side reports and takes: packets of the AirPods
//! protocol, the values of its control commands, and the equalizer.

pub mod aacp;
pub mod address;
pub mod eq;
pub mod settings;
