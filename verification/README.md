# LibrePods desktop

The logic of the LibrePods desktop program, written in Rust and verified with
Verus: what the two windows and the tray show, how they react to the AirPods
and to the user, and what they send.

- `src/` is the library. Its modules:
  - `bluetooth`, `devices`, `audio`: control commands and their values, the
    equalizer, addresses, known devices and their state.
  - `utils`, `text`, `time`, `bytes`, `address_map`: settings, device list,
    resolvable addresses, and the small types everything is built on.
  - `ui::window`: the state of the window with tabs, its messages and its pages.
  - `ui::gtk`: the state of the GNOME window (`model`), its controls, pages and
    startup.
  - `ui::tray`, `ui::tray_icon`: the tray menu and its icon.
  - Laws over several functions are public proof functions beside them, and in
    `ui::window::laws` and `ui::gtk::model::laws`.
- `tests/` runs the library on concrete values.
- `app/` is the program around it: files, the tray service and the widgets of
  the two windows. The GNOME window needs the GTK 4 and libadwaita system
  libraries.

What the library takes on trust from other crates is the reading of a written
Bluetooth address (`bluetooth::address`), one block of AES-128 (`utils`) and
one boolean member of a JSON text (`ui::tray`).
