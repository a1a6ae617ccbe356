//! LibrePods for Linux: the decisions behind the window, the tray and the
//! settings of an AirPods companion, as verified code.

use vstd::prelude::*;

pub mod address_map;
pub mod audio;
pub mod bluetooth;
pub mod bytes;
pub mod devices;
pub mod text;
pub mod time;
pub mod ui;
pub mod utils;

verus! {

} // verus!
