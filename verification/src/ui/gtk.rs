//! The native GNOME window, apart from its widgets.
//!
//! - `model`: all state and decisions. `Model::update(Input)` returns
//!   `Effect`s.
//! - `battery`: display decisions the model uses.
//! - `controls`: the AirPods settings driven by control commands: what shows,
//!   what a change sends, and holding slider values until they rest;
//!   `control_laws` says both byte for byte.
//! - `theme`: the color scheme choice.
//! - `app`: decisions of the loop that runs the effects.
//! - `window`, `pages`: what the widgets show, and what a change on them
//!   means; `page_laws` ties the two together.

pub mod app;
pub mod battery;
pub mod control_laws;
pub mod controls;
pub mod model;
pub mod page_laws;
pub mod pages;
pub mod theme;
pub mod window;
