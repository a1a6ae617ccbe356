use librepods::address_map::AddressMap;
use librepods::bluetooth::eq::CustomEq;
use librepods::devices::enums::{nothing_anc_packet, DeviceData, DeviceType};
use librepods::time::Duration;
use librepods::ui::gtk::app::{
    color_scheme, connect_setup_timeout, queue_eq, snapshot, tick_change, Activation, ColorScheme,
    DevicesLoader, Options, TickChange, Work,
};
use librepods::ui::gtk::battery::{Batteries, Level};
use librepods::ui::gtk::model::{
    AirPodsSnapshot, DeviceSnapshot, Input, Model, Selection, SidebarStatus,
};
use librepods::ui::gtk::theme::ThemePreference;
use librepods::ui::gtk::window::{
    captions, device_at, same_devices, selected_row, PageName, APP_ID,
};
use librepods::ui::messages::BluetoothUIMessage;
use librepods::utils::AppSettings;

const PODS: &str = "AA:BB:CC:DD:EE:01";
const EAR: &str = "AA:BB:CC:DD:EE:02";

fn model() -> Model {
    let mut devices = AddressMap::new();
    for (mac, name, type_) in [
        (PODS, "Pods", DeviceType::AirPods),
        (EAR, "Ear", DeviceType::Nothing),
    ] {
        devices.insert(
            mac.to_string(),
            DeviceData { name: name.to_string(), type_, information: None },
        );
    }
    Model::new(AppSettings::default(), devices)
}

fn connected(model: &mut Model, mac: &str) {
    model.update(Input::Backend(BluetoothUIMessage::DeviceConnected(mac.to_string())));
}

#[test]
fn a_launch_presents_or_starts() {
    let shown = Options { start_minimized: false, tray: true };
    let hidden = Options { start_minimized: true, tray: false };
    assert_eq!(shown.activation(true, false), Activation::Present);
    assert_eq!(shown.activation(false, true), Activation::Start { present: true });
    assert_eq!(hidden.activation(false, true), Activation::Start { present: false });
    assert_eq!(hidden.activation(false, false), Activation::Nothing);
    assert!(shown.hides_on_close());
    assert!(!hidden.hides_on_close());
    assert_eq!(connect_setup_timeout().as_secs(), 30);
}

#[test]
fn reads_of_the_devices_file_are_folded() {
    let mut loader = DevicesLoader::default();
    assert!(loader.request());
    assert!(!loader.request());
    assert!(!loader.request());
    assert!(loader.finish());
    assert!(!loader.request());
    assert!(loader.finish());
    assert!(!loader.finish());
    assert!(loader.request());
}

#[test]
fn only_the_newest_equalizer_of_a_device_is_sent() {
    let eq = |low| CustomEq { enabled: true, low, mid: 50, high: 50 };
    let mut queued = vec![(PODS.to_string(), eq(1))];
    queue_eq(&mut queued, EAR.to_string(), eq(2));
    queue_eq(&mut queued, PODS.to_string(), eq(3));
    assert_eq!(queued, [(PODS.to_string(), eq(3)), (EAR.to_string(), eq(2))]);
}

#[test]
fn the_timer_follows_the_model() {
    let fast = Duration::from_millis(50);
    let slow = Duration::from_secs(1);
    assert_eq!(tick_change(None, None), TickChange::Keep);
    assert_eq!(tick_change(Some(fast), Some(fast)), TickChange::Keep);
    assert_eq!(tick_change(Some(fast), Some(slow)), TickChange::Start(slow));
    assert_eq!(tick_change(None, Some(slow)), TickChange::Start(slow));
    assert_eq!(tick_change(Some(slow), None), TickChange::Stop);
}

#[test]
fn managers_give_a_snapshot() {
    assert!(snapshot(None, false).is_none());
    assert!(matches!(snapshot(None, true), Some(DeviceSnapshot::Nothing)));
    assert!(matches!(
        snapshot(Some(AirPodsSnapshot::default()), true),
        Some(DeviceSnapshot::AirPods(_))
    ));
}

#[test]
fn preferences_have_a_color_scheme() {
    assert_eq!(color_scheme(ThemePreference::System), ColorScheme::Default);
    assert_eq!(color_scheme(ThemePreference::Light), ColorScheme::ForceLight);
    assert_eq!(color_scheme(ThemePreference::Dark), ColorScheme::ForceDark);
}

#[test]
fn failures_say_what_could_not_be_done() {
    assert_eq!(Work::Connect.failed("gone"), "Could not connect: gone");
    assert_eq!(Work::Setting.failed("gone"), "Could not change the setting: gone");
    assert_eq!(Work::Rename.failed("gone"), "Could not rename the AirPods: gone");
    assert_eq!(Work::NoiseControl.failed("gone"), "Could not change noise control: gone");
    assert_eq!(Work::Equalizer.failed("gone"), "Could not change the equalizer: gone");
}

#[test]
fn nothing_packets_carry_the_mode() {
    assert_eq!(
        nothing_anc_packet(0x07),
        [0x55, 0x60, 0x01, 0x0F, 0xF0, 0x03, 0x00, 0x00, 0x01, 0x07, 0x00, 0x00, 0x00]
    );
}

#[test]
fn the_window_shows_one_page_at_a_time() {
    let mut model = model();
    let shown = model.shown();
    assert_eq!(shown.page, PageName::Disconnected);
    assert_eq!(shown.page.name(), "disconnected");
    assert_eq!((shown.title.as_str(), shown.status), ("Pods", None));

    model.update(Input::Select(Selection::Settings));
    let shown = model.shown();
    assert_eq!((shown.page.name(), shown.title.as_str()), ("settings", "Settings"));

    model.update(Input::Select(Selection::Device(EAR.to_string())));
    let shown = model.shown();
    assert_eq!((shown.page.name(), shown.title.as_str()), ("status", "Ear"));
    assert_eq!(shown.status.unwrap().title, "Not connected");
    connected(&mut model, EAR);
    assert_eq!(model.shown().status.unwrap().title, "Connected");
    model.update(Input::Snapshot(EAR.to_string(), Some(DeviceSnapshot::Nothing)));
    assert_eq!(model.shown().page, PageName::Nothing);

    model.update(Input::Select(Selection::Device(PODS.to_string())));
    connected(&mut model, PODS);
    model.update(Input::Snapshot(
        PODS.to_string(),
        Some(DeviceSnapshot::AirPods(AirPodsSnapshot::default())),
    ));
    assert_eq!(model.shown().page, PageName::AirPods);

    let empty = Model::new(AppSettings::default(), AddressMap::new());
    let shown = empty.shown();
    assert_eq!((shown.page, shown.title.as_str()), (PageName::Status, ""));
    let status = shown.status.unwrap();
    assert_eq!((status.icon, status.title), ("bluetooth-symbolic", "No devices"));
    assert_eq!(status.description, "Connect your AirPods to this PC once to add them here.");
    assert_eq!(APP_ID, "me.kavishdevar.librepods");
}

#[test]
fn captions_start_with_the_side() {
    let level = |percent| Level { percent, charging: false, stale: false };
    let case = Level { percent: Some(40), charging: false, stale: true };
    let shown = captions(&Batteries::Buds { left: level(Some(80)), right: level(None), case });
    let texts: Vec<&str> = shown.iter().map(|c| c.text.as_str()).collect();
    assert_eq!(texts, ["L 80%", "R -", "C 40%"]);
    assert_eq!(shown[0].icon, "battery-level-80-symbolic");
    assert!(shown[2].stale && !shown[0].stale);
    let shown = captions(&Batteries::Headphone(level(Some(30))));
    assert_eq!(shown.len(), 1);
    assert_eq!(shown[0].text, "30%");
}

#[test]
fn rows_are_matched_with_devices() {
    let model = model();
    let entries = model.sidebar();
    assert!(matches!(entries[0].status, SidebarStatus::Text("Not connected")));
    let rows = vec![EAR.to_string(), PODS.to_string()];
    assert!(same_devices(&rows, &entries));
    assert!(!same_devices(&vec![PODS.to_string(), EAR.to_string()], &entries));
    assert!(!same_devices(&vec![EAR.to_string()], &entries));
    assert_eq!(selected_row(&rows, &Selection::Device(PODS.to_string())), Some(1));
    assert_eq!(selected_row(&rows, &Selection::Device("x".to_string())), None);
    assert_eq!(selected_row(&rows, &Selection::Settings), None);
    assert_eq!(selected_row(&rows, &Selection::Empty), None);
    assert_eq!(device_at(&rows, 1).as_deref(), Some(PODS));
    assert_eq!(device_at(&rows, 2), None);
    assert_eq!(device_at(&rows, -1), None);
}
