//! Audio of connected devices.

pub mod mic_test;
