//! The user interface: what it shows and what its controls do, apart from
//! any toolkit.
//!
//! - `gtk`: the GNOME window.
//! - `window`, `airpods`, `airpods_settings`, `equalizer`, `nothing`, `page`:
//!   the iced window.
//! - `tray`, `tray_icon`: the tray icon.
//! - `choice`, `connect`, `format`, `messages`: what both windows share.

pub mod airpods;
pub mod airpods_settings;
pub mod choice;
pub mod connect;
pub mod equalizer;
pub mod format;
pub mod gtk;
pub mod messages;
pub mod nothing;
pub mod page;
pub mod tray;
pub mod tray_icon;
pub mod window;
