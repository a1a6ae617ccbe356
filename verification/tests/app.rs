use librepods::address_map::AddressMap;
use librepods::bluetooth::aacp::{
    AACPEvent, BatteryComponent, BatteryInfo, BatteryStatus, ControlCommandIdentifiers,
    ControlCommandStatus,
};
use librepods::bluetooth::eq::CustomEq;
use librepods::bluetooth::settings::MicMode;
use librepods::devices::enums::{AirPodsNoiseControlMode, DeviceData, DeviceType, NothingAncMode};
use librepods::devices::state::{DeviceState, NothingState};
use librepods::time::Duration;
use librepods::ui::airpods::{MicReading, MicUse, TestButton};
use librepods::ui::gtk::controls::ControlChange;
use librepods::ui::gtk::model::equalizer::EqBand;
use librepods::ui::messages::BluetoothUIMessage;
use librepods::ui::page::{Control, Heading, Item, Section};
use librepods::ui::window::view::{
    page_slid, page_switched, setting_picked, setting_switched, settings_view, test_pressed,
    Content, EntryStatus, Managers,
};
use librepods::ui::window::{
    AirPodsChange, AirPodsReport, App, AppTask, BluetoothState, Message, Pane, Reading, Tab,
};
use librepods::utils::{AppSettings, MyTheme, PreferredCodec};

const PODS: &str = "AA:BB:CC:DD:EE:01";
const OTHER: &str = "AA:BB:CC:DD:EE:02";
const EAR: &str = "AA:BB:CC:DD:EE:03";

fn device(name: &str, type_: DeviceType) -> DeviceData {
    DeviceData { name: name.to_string(), type_, information: None }
}

fn devices() -> AddressMap<DeviceData> {
    let mut devices = AddressMap::new();
    devices.insert(PODS.to_string(), device("Pods", DeviceType::AirPods));
    devices.insert(OTHER.to_string(), device("Alpha Pods", DeviceType::AirPods));
    devices.insert(EAR.to_string(), device("Ear", DeviceType::Nothing));
    devices
}

fn entry(component: BatteryComponent, level: u8, status: BatteryStatus) -> BatteryInfo {
    BatteryInfo { component, level, status }
}

fn control(identifier: ControlCommandIdentifiers, value: &[u8]) -> ControlCommandStatus {
    ControlCommandStatus { identifier, value: value.to_vec() }
}

fn report() -> AirPodsReport {
    AirPodsReport {
        battery: vec![
            entry(BatteryComponent::Left, 80, BatteryStatus::NotCharging),
            entry(BatteryComponent::Case, 60, BatteryStatus::NotCharging),
        ],
        controls: vec![
            control(ControlCommandIdentifiers::ListeningMode, &[]),
            control(ControlCommandIdentifiers::ListeningMode, &[0x04]),
            control(ControlCommandIdentifiers::AllowOffOption, &[0x01]),
            control(ControlCommandIdentifiers::MicMode, &[0x01]),
        ],
    }
}

fn reading(report: Option<AirPodsReport>) -> Reading {
    Reading {
        devices: devices(),
        report,
        known_airpods: vec![PODS.to_string(), OTHER.to_string()],
        new_window: 9,
    }
}

fn app() -> App {
    App::new(false, AppSettings::default(), devices(), 1).0
}

fn backend(message: BluetoothUIMessage) -> Message {
    Message::BluetoothMessage(message, reading(None))
}

fn connected() -> App {
    let mut app = app();
    let tasks = app.update(Message::BluetoothMessage(
        BluetoothUIMessage::DeviceConnected(PODS.to_string()),
        reading(Some(report())),
    ));
    assert!(matches!(tasks[..], [AppTask::Wait]));
    app
}

fn quiet() -> MicUse {
    MicUse { active: false, app: None }
}

fn managed() -> Option<Managers> {
    Some(Managers { aacp: true, att: true })
}

fn show(app: &mut App, mac: &str) {
    assert!(app.update(Message::SelectTab(Tab::Device(mac.to_string()))).is_empty());
}

fn page(app: &App) -> Vec<Section> {
    match app.content(managed(), &quiet()) {
        Content::AirPods(page) => page,
        other => panic!("not the AirPods page: {other:?}"),
    }
}

fn row(page: &[Section], item: Item) -> Control {
    page.iter()
        .flat_map(|s| &s.rows)
        .find(|r| r.item == item)
        .unwrap_or_else(|| panic!("no row for {item:?}"))
        .control
        .clone()
}

fn text(app: &App) -> &'static str {
    match app.content(managed(), &quiet()) {
        Content::Text(text) => text,
        other => panic!("not a text: {other:?}"),
    }
}

#[test]
fn a_window_opens_unless_it_starts_minimized() {
    let (app, tasks) = App::new(false, AppSettings::default(), devices(), 7);
    assert!(matches!(tasks[..], [AppTask::OpenWindow(7), AppTask::Wait]));
    assert_eq!(app.title(), "LibrePods");
    assert_eq!(app.theme(), MyTheme::Dark);
    assert_eq!(text(&app), "Select a device");
    let (_, tasks) = App::new(true, AppSettings::default(), devices(), 7);
    assert!(matches!(tasks[..], [AppTask::Wait]));
    assert_ne!(Pane::Sidebar, Pane::Content);
}

#[test]
fn the_tray_focuses_an_open_window_and_opens_a_closed_one() {
    let mut app = app();
    let tasks = app.update(backend(BluetoothUIMessage::OpenWindow));
    assert!(matches!(tasks[..], [AppTask::FocusWindow(1), AppTask::Wait]));
    // Another window closes: this one stays.
    app.update(Message::WindowClosed(2));
    let tasks = app.update(backend(BluetoothUIMessage::OpenWindow));
    assert!(matches!(tasks[..], [AppTask::FocusWindow(1), AppTask::Wait]));
    app.update(Message::WindowClosed(1));
    let tasks = app.update(backend(BluetoothUIMessage::OpenWindow));
    assert!(matches!(tasks[..], [AppTask::OpenWindow(9), AppTask::Wait]));
    app.update(Message::WindowOpened(9, devices()));
    let tasks = app.update(backend(BluetoothUIMessage::OpenWindow));
    assert!(matches!(tasks[..], [AppTask::FocusWindow(9), AppTask::Wait]));
}

#[test]
fn a_request_runs_once_until_it_is_answered() {
    let mut app = app();
    show(&mut app, PODS);
    let tasks = app.update(Message::ConnectDevice(PODS.to_string()));
    let [AppTask::Connect { mac, address }] = &tasks[..] else {
        panic!("no connect: {tasks:?}");
    };
    assert_eq!(mac, PODS);
    assert_eq!(*address, [0xAA, 0xBB, 0xCC, 0xDD, 0xEE, 0x01]);
    assert!(app.update(Message::ConnectDevice(PODS.to_string())).is_empty());
    let Content::Away(away) = app.content(managed(), &quiet()) else {
        panic!("not away");
    };
    assert_eq!((away.status.as_str(), away.button, away.enabled), ("Connecting…", "Connecting…", false));

    app.update(Message::ConnectFinished(PODS.to_string(), Err("Out of reach".to_string())));
    let Content::Away(away) = app.content(managed(), &quiet()) else {
        panic!("not away");
    };
    assert_eq!(away.title, "AirPods not connected");
    assert_eq!(
        (away.status.as_str(), away.button, away.enabled),
        ("Out of reach", "Connect to this PC", true)
    );
    assert_eq!(app.sidebar()[2].status, EntryStatus::Text("Couldn't connect"));
    // After a failure it can be asked for again.
    assert_eq!(app.update(Message::ConnectDevice(PODS.to_string())).len(), 1);
    app.update(Message::ConnectFinished(PODS.to_string(), Ok(())));
    let Content::Away(away) = app.content(managed(), &quiet()) else {
        panic!("not away");
    };
    assert_eq!(
        away.status,
        "Not connected to this PC. If they are on your phone, connecting here takes them over."
    );
}

#[test]
fn a_text_that_is_no_address_is_not_connected() {
    for bad in ["none", "", "AA:BB:CC:DD:EE", "AA:BB:CC:DD:EE:0G", "AA:BB:CC:DD:EE:01:02"] {
        let mut app = app();
        assert!(app.update(Message::ConnectDevice(bad.to_string())).is_empty(), "{bad}");
    }
}

#[test]
fn asking_for_the_known_airpods_twice_connects_each_once() {
    let mut app = connected();
    let tasks = app.update(backend(BluetoothUIMessage::ConnectAirPods));
    let [AppTask::Wait, AppTask::Connect { mac, .. }] = &tasks[..] else {
        panic!("not one connect: {tasks:?}");
    };
    assert_eq!(mac, OTHER);
    let tasks = app.update(backend(BluetoothUIMessage::ConnectAirPods));
    assert!(matches!(tasks[..], [AppTask::Wait]));
}

#[test]
fn connected_airpods_show_what_they_reported() {
    let mut app = connected();
    show(&mut app, PODS);
    let page = page(&app);
    assert_eq!(
        row(&page, Item::Name),
        Control::Entry { text: "Pods".to_string(), hint: None }
    );
    assert_eq!(
        row(&page, Item::ListeningMode),
        Control::Choice {
            options: vec!["Off", "Transparency", "Noise Cancellation", "Adaptive"],
            selected: Some(3)
        }
    );
    assert_eq!(row(&page, Item::OffListeningMode), Control::Switch { on: true, locked: false });
    assert_eq!(row(&page, Item::PersonalizedVolume), Control::Switch { on: false, locked: false });
    assert_eq!(row(&page, Item::HiResMicrophone), Control::Switch { on: true, locked: false });
    assert_eq!(
        row(&page, Item::MicrophoneMode),
        Control::Choice {
            options: vec!["Automatic", "Always Right", "Always Left"],
            selected: Some(1)
        }
    );
}

#[test]
fn the_page_waits_for_a_manager() {
    let mut app = connected();
    show(&mut app, PODS);
    for managers in [None, Some(Managers { aacp: false, att: true })] {
        let Content::Text(text) = app.content(managers, &quiet()) else {
            panic!("not a text");
        };
        assert_eq!(text, "Waiting for the AirPods to report their state…");
    }
}

#[test]
fn the_sidebar_is_sorted_and_shows_batteries() {
    let app = connected();
    let entries = app.sidebar();
    let macs: Vec<&str> = entries.iter().map(|e| e.mac.as_str()).collect();
    assert_eq!(macs, [OTHER, EAR, PODS]);
    assert_eq!(entries[0].label, "Alpha Pods");
    assert_eq!(entries[0].status, EntryStatus::Text("Not connected"));
    assert_eq!(entries[2].label, "Pods \u{100263}");
    assert_eq!(
        entries[2].status,
        EntryStatus::Battery(vec![
            ("\u{1018E5} 80%".to_string(), false),
            ("\u{1018E8} -".to_string(), false),
            ("\u{100E6C} 60%".to_string(), false),
        ])
    );
    assert!(entries.iter().all(|e| !e.selected));
    assert!(!app.settings_selected());
}

#[test]
fn a_silent_case_keeps_its_last_level() {
    let mut app = connected();
    let battery = vec![
        entry(BatteryComponent::Left, 70, BatteryStatus::NotCharging),
        entry(BatteryComponent::Case, 0, BatteryStatus::Disconnected),
    ];
    app.update(backend(BluetoothUIMessage::AACPUIEvent(
        PODS.to_string(),
        AACPEvent::BatteryInfo(battery),
    )));
    let EntryStatus::Battery(parts) = &app.sidebar()[2].status else {
        panic!("no battery");
    };
    assert_eq!(parts[2], ("\u{100E6C} 60%".to_string(), true));
}

#[test]
fn events_change_the_page_of_their_airpods_only() {
    let mut app = connected();
    show(&mut app, PODS);
    for mac in [PODS, OTHER] {
        app.update(backend(BluetoothUIMessage::AACPUIEvent(
            mac.to_string(),
            AACPEvent::ControlCommand(control(ControlCommandIdentifiers::AllowOffOption, &[0x02])),
        )));
    }
    let page_now = page(&app);
    assert_eq!(row(&page_now, Item::OffListeningMode), Control::Switch { on: false, locked: false });
    assert_eq!(
        row(&page_now, Item::ListeningMode),
        Control::Choice {
            options: vec!["Transparency", "Noise Cancellation", "Adaptive"],
            selected: Some(2)
        }
    );
    show(&mut app, OTHER);
    assert!(matches!(app.content(managed(), &quiet()), Content::Away(_)));
}

#[test]
fn a_disconnect_drops_the_state() {
    let mut app = connected();
    show(&mut app, PODS);
    app.update(backend(BluetoothUIMessage::DeviceDisconnected(PODS.to_string())));
    // The tab of AirPods stays.
    assert!(matches!(app.content(managed(), &quiet()), Content::Away(_)));
    assert_eq!(app.sidebar()[2].status, EntryStatus::Text("Not connected"));

    app.update(backend(BluetoothUIMessage::DeviceConnected(EAR.to_string())));
    show(&mut app, EAR);
    assert!(matches!(app.content(managed(), &quiet()), Content::Nothing(_)));
    app.update(backend(BluetoothUIMessage::DeviceDisconnected(EAR.to_string())));
    assert_eq!(text(&app), "Select a device");
}

#[test]
fn nothing_devices_need_their_manager() {
    let mut app = app();
    show(&mut app, EAR);
    assert_eq!(text(&app), "No state available for this Nothing device");
    app.update(backend(BluetoothUIMessage::DeviceConnected(EAR.to_string())));
    assert!(matches!(
        app.content(None, &quiet()),
        Content::Text("No manager found for this Nothing device")
    ));
    assert!(matches!(
        app.content(Some(Managers { aacp: true, att: false }), &quiet()),
        Content::Text("No valid ATT manager found for this Nothing device")
    ));
    let tasks = app.update(Message::NothingAncModeSelected(
        EAR.to_string(),
        NothingAncMode::Transparency,
    ));
    let [AppTask::SetNothingAnc { mac, mode }] = &tasks[..] else {
        panic!("not sent: {tasks:?}");
    };
    assert_eq!((mac.as_str(), *mode), (EAR, NothingAncMode::Transparency.to_byte()));
    let Content::Nothing(page) = app.content(managed(), &quiet()) else {
        panic!("no page");
    };
    assert!(matches!(
        row(&page, Item::NoiseControlMode),
        Control::Choice { selected: Some(1), .. }
    ));
    // Unknown devices get nothing.
    assert!(app
        .update(Message::NothingAncModeSelected(PODS.to_string(), NothingAncMode::Off))
        .is_empty());
    show(&mut app, "00:00:00:00:00:00");
    assert_eq!(text(&app), "Unsupported device");
}

#[test]
fn changes_are_sent_and_shown_at_once() {
    let mut app = connected();
    show(&mut app, PODS);
    let mac = || PODS.to_string();
    let tasks = app.update(Message::Changed(
        mac(),
        AirPodsChange::ListeningMode(AirPodsNoiseControlMode::NoiseCancellation),
    ));
    let [AppTask::SendControl { identifier, value, .. }] = &tasks[..] else {
        panic!("not sent: {tasks:?}");
    };
    assert_eq!(*identifier, ControlCommandIdentifiers::ListeningMode);
    assert_eq!(value, &[0x02]);
    let tasks = app.update(Message::Changed(mac(), AirPodsChange::PersonalizedVolume(true)));
    assert!(
        matches!(&tasks[..], [AppTask::SendControl { identifier, value, .. }]
            if *identifier == ControlCommandIdentifiers::AdaptiveVolumeConfig && value == &[0x01])
    );
    let tasks = app.update(Message::Changed(mac(), AirPodsChange::AllowOff(false)));
    assert!(
        matches!(&tasks[..], [AppTask::SendControl { identifier, value, .. }]
            if *identifier == ControlCommandIdentifiers::AllowOffOption && value == &[0x02])
    );
    let tasks = app.update(Message::Changed(mac(), AirPodsChange::ConversationAwareness(true)));
    assert!(matches!(&tasks[..], [AppTask::SetConversationDetection { enabled: true, .. }]));
    let tasks = app.update(Message::Changed(
        mac(),
        AirPodsChange::Setting(ControlChange::MicMode(MicMode::AlwaysLeft)),
    ));
    assert!(
        matches!(&tasks[..], [AppTask::SendControl { identifier, value, .. }]
            if *identifier == ControlCommandIdentifiers::MicMode && value == &[0x02])
    );
    let page = page(&app);
    assert!(matches!(row(&page, Item::ListeningMode), Control::Choice { selected: Some(1), .. }));
    assert!(matches!(row(&page, Item::MicrophoneMode), Control::Choice { selected: Some(2), .. }));
    assert_eq!(row(&page, Item::PersonalizedVolume), Control::Switch { on: true, locked: false });
    assert_eq!(row(&page, Item::ConversationAwareness), Control::Switch { on: true, locked: false });
    // Without a state nothing is sent.
    assert!(app
        .update(Message::Changed(OTHER.to_string(), AirPodsChange::AllowOff(true)))
        .is_empty());
}

#[test]
fn the_hires_switch_is_a_setting() {
    let mut app = connected();
    let tasks = app.update(Message::Changed(PODS.to_string(), AirPodsChange::HiResMic(false)));
    assert!(matches!(
        &tasks[..],
        [AppTask::SetHiResMic { enabled: false, .. }, AppTask::SaveSettings]
    ));
    assert!(!app.settings().hires_mic_enabled);
    let tasks = app.update(Message::Changed(PODS.to_string(), AirPodsChange::HiResMic(false)));
    assert!(matches!(&tasks[..], [AppTask::SetHiResMic { .. }]));
    let tasks = app.update(Message::StateChanged(
        EAR.to_string(),
        DeviceState::Nothing(NothingState { anc_mode: NothingAncMode::Off }),
    ));
    assert!(tasks.is_empty());
}

#[test]
fn only_the_last_band_change_goes_out() {
    let mut app = connected();
    let mac = || PODS.to_string();
    let tasks = app.update(Message::Changed(mac(), AirPodsChange::EqEnabled(true)));
    assert!(matches!(
        &tasks[..],
        [AppTask::SendEq { eq: CustomEq { enabled: true, low: 50, mid: 50, high: 50 }, .. }]
    ));
    let mut later = |band, value| {
        let tasks = app.update(Message::Changed(mac(), AirPodsChange::EqBand(band, value)));
        match &tasks[..] {
            [AppTask::SendEqLater { generation, .. }] => *generation,
            _ => panic!("not delayed: {tasks:?}"),
        }
    };
    let first = later(EqBand::Low, 60);
    let second = later(EqBand::High, 200);
    assert!(app.update(Message::EqDue { mac: mac(), generation: first }).is_empty());
    let tasks = app.update(Message::EqDue { mac: mac(), generation: second });
    assert!(matches!(
        &tasks[..],
        [AppTask::SendEq { eq: CustomEq { enabled: true, low: 60, mid: 50, high: 100 }, .. }]
    ));
    let tasks = app.update(Message::Changed(mac(), AirPodsChange::EqReset));
    assert!(matches!(
        &tasks[..],
        [AppTask::SendEq { eq: CustomEq { enabled: true, low: 50, mid: 50, high: 50 }, .. }]
    ));
    assert!(app.update(Message::EqDue { mac: mac(), generation: second }).is_empty());
}

#[test]
fn only_a_checked_name_is_sent() {
    let mut app = connected();
    show(&mut app, PODS);
    app.update(Message::RenameInput(PODS.to_string(), "   ".to_string()));
    assert_eq!(
        row(&page(&app), Item::Name),
        Control::Entry { text: "   ".to_string(), hint: Some("Name can't be empty") }
    );
    assert!(app.update(Message::RenameSubmit(PODS.to_string())).is_empty());
    app.update(Message::RenameInput(PODS.to_string(), " New ".to_string()));
    assert_eq!(
        row(&page(&app), Item::Name),
        Control::Entry { text: " New ".to_string(), hint: Some("Press Enter to rename") }
    );
    assert!(app.update(Message::RenameSubmit(OTHER.to_string())).is_empty());
    let tasks = app.update(Message::RenameSubmit(PODS.to_string()));
    assert!(matches!(&tasks[..], [AppTask::Rename { name, .. }] if name == "New"));
    assert_eq!(
        row(&page(&app), Item::Name),
        Control::Entry { text: "New".to_string(), hint: None }
    );
}

#[test]
fn the_test_pauses_media_once_and_resumes_it_when_done() {
    let mut app = connected();
    let tasks = app.update(Message::MicTestRecord);
    assert!(matches!(tasks[..], [AppTask::PauseMedia]));
    let tasks = app.update(Message::MediaPaused(vec!["vlc".to_string()]));
    assert!(matches!(tasks[..], [AppTask::StartRecorder]));
    let tasks = app.update(Message::MicLevelTick { finished: false });
    assert!(tasks.is_empty());
    let tasks = app.update(Message::MicTestStop);
    assert!(matches!(tasks[..], [AppTask::StopRecorder]));
    assert!(app.update(Message::MicTestPlay).is_empty());
    assert!(app.update(Message::Recorded(Ok(()))).is_empty());
    assert!(matches!(app.update(Message::MicTestPlay)[..], [AppTask::Play]));
    assert!(matches!(app.update(Message::MicTestPause)[..], [AppTask::Pause]));
    // Another take keeps the players paused.
    assert!(matches!(app.update(Message::MicTestRecord)[..], [AppTask::StartRecorder]));
    let tasks = app.update(Message::MicLevelTick { finished: true });
    assert!(matches!(tasks[..], [AppTask::StopRecorder]));
    app.update(Message::Recorded(Err("No sound".to_string())));
    assert!(app.update(Message::MicTestPlay).is_empty());
    let tasks = app.update(Message::MicTestDone);
    let [AppTask::ReleaseTest, AppTask::ResumeMedia(players)] = &tasks[..] else {
        panic!("not resumed: {tasks:?}");
    };
    assert_eq!(players, &["vlc"]);
    let tasks = app.update(Message::MicTestDone);
    assert!(
        matches!(&tasks[..], [AppTask::ReleaseTest, AppTask::ResumeMedia(p)] if p.is_empty())
    );
    // Media paused for a test that ended is resumed at once.
    let tasks = app.update(Message::MediaPaused(vec!["mpv".to_string()]));
    assert!(matches!(&tasks[..], [AppTask::ResumeMedia(p)] if p == &["mpv"]));
}

#[test]
fn stopping_a_finished_test_clears_it() {
    let mut app = connected();
    app.update(Message::MicTestRecord);
    app.update(Message::MediaPaused(vec![]));
    app.update(Message::MicTestStop);
    app.update(Message::Recorded(Ok(())));
    assert!(matches!(app.update(Message::MicTestStop)[..], [AppTask::ReleaseTest]));
    assert!(app.update(Message::MicTestPlay).is_empty());
    assert!(app.update(Message::MicTestStop).is_empty());
}

#[test]
fn skips_stay_inside_the_take() {
    let mut app = connected();
    app.update(Message::MicTestRecord);
    app.update(Message::MediaPaused(vec![]));
    app.update(Message::MicTestStop);
    app.update(Message::Recorded(Ok(())));
    let mut skip = |forward, at, length| {
        let tasks = app.update(Message::MicTestSkip {
            forward,
            position: Duration::from_secs(at),
            duration: Duration::from_secs(length),
        });
        match &tasks[..] {
            [AppTask::Seek(to)] => to.as_secs(),
            _ => panic!("no seek: {tasks:?}"),
        }
    };
    assert_eq!(skip(true, 3, 20), 8);
    assert_eq!(skip(true, 18, 20), 20);
    assert_eq!(skip(false, 3, 20), 0);
    assert_eq!(skip(false, 12, 20), 7);
    let tasks = app.update(Message::MicTestSeek(Duration::from_millis(1500)));
    assert!(matches!(&tasks[..], [AppTask::Seek(to)] if to.as_nanos() == 1_500_000_000));
}

#[test]
fn devices_are_added_with_a_type_only() {
    let mut app = app();
    let mut paired = AddressMap::new();
    paired.insert("Speaker".to_string(), "AA:BB:CC:DD:EE:09".to_string());
    paired.insert("Pods".to_string(), PODS.to_string());
    app.update(Message::GotPairedDevices(paired));
    app.update(Message::SelectTab(Tab::AddDevice));
    let add_page = |app: &App| match app.content(None, &quiet()) {
        Content::AddDevice(page) => page,
        other => panic!("not the add page: {other:?}"),
    };
    let page = add_page(&app);
    assert_eq!(page.title, "Pick a paired device to add:");
    assert_eq!(page.rows.len(), 1);
    assert_eq!(page.rows[0].name, "Speaker");
    assert!(!page.rows[0].pending);
    assert_eq!(page.types, [DeviceType::Nothing]);
    assert_eq!((page.selected, page.note), (None, None));

    let start = || Message::StartAddDevice("Speaker".to_string(), "AA:BB:CC:DD:EE:09".to_string());
    app.update(start());
    assert!(add_page(&app).rows[0].pending);
    app.update(Message::CancelAddDevice);
    assert!(!add_page(&app).rows[0].pending);

    app.update(start());
    // Without a type the device is dropped.
    assert!(app.update(Message::ConfirmAddDevice).is_empty());
    assert!(!add_page(&app).rows[0].pending);

    app.update(start());
    app.update(Message::SelectDeviceType(DeviceType::Nothing));
    assert_eq!(add_page(&app).selected, Some(DeviceType::Nothing));
    let tasks = app.update(Message::ConfirmAddDevice);
    let [AppTask::SaveDevice { mac, name, type_ }, AppTask::LoadDevices] = &tasks[..] else {
        panic!("not saved: {tasks:?}");
    };
    assert_eq!((mac.as_str(), name.as_str()), ("AA:BB:CC:DD:EE:09", "Speaker"));
    assert_eq!(*type_, DeviceType::Nothing);
    let mut known = devices();
    known.insert(mac.clone(), device(name, *type_));
    app.update(Message::DevicesLoaded(known));
    assert_eq!(text(&app), "No state available for this Nothing device");
    app.update(Message::SelectTab(Tab::AddDevice));
    let page = add_page(&app);
    assert!(page.rows.is_empty());
    assert_eq!(
        page.note,
        Some("No new paired devices found. All paired devices are already added.")
    );
}

#[test]
fn every_setting_is_kept_and_saved() {
    let mut app = app();
    let default = AppSettings::default();
    for (message, expected) in [
        (
            Message::ThemeSelected(MyTheme::Nord),
            AppSettings { theme: MyTheme::Nord, ..default },
        ),
        (
            Message::TrayTextModeChanged(true),
            AppSettings { theme: MyTheme::Nord, tray_text_mode: true, ..default },
        ),
    ] {
        assert!(matches!(app.update(message)[..], [AppTask::SaveSettings]));
        assert_eq!(app.settings(), expected);
    }
    for message in [
        Message::StemControlChanged(true),
        Message::A2dpResetChanged(false),
        Message::AutoSwitchChanged(false),
        Message::PreferredCodecChanged(PreferredCodec::Sbc),
        Message::HiResMicAgcChanged(false),
        Message::HiResMicPauseConvoChanged(false),
    ] {
        assert!(matches!(app.update(message)[..], [AppTask::SaveSettings]));
    }
    assert_eq!(
        app.settings(),
        AppSettings {
            theme: MyTheme::Nord,
            tray_text_mode: true,
            stem_control: true,
            hires_mic_enabled: true,
            hires_mic_agc: false,
            hires_mic_pause_convo: false,
            a2dp_reset: false,
            auto_switch_on_playback: false,
            preferred_codec: PreferredCodec::Sbc,
        }
    );
    app.update(Message::SelectTab(Tab::Settings));
    assert!(app.settings_selected());
    let Content::Settings(page) = app.content(None, &quiet()) else {
        panic!("not the settings");
    };
    assert!(matches!(row(&page, Item::Theme), Control::Choice { selected: Some(3), .. }));
    assert!(matches!(row(&page, Item::PreferredCodec), Control::Choice { selected: Some(2), .. }));
    assert_eq!(row(&page, Item::A2dpReset), Control::Switch { on: false, locked: false });
}

#[test]
fn the_settings_page_has_its_sections_in_order() {
    let page = settings_view(&AppSettings::default());
    let shown: Vec<(Heading, Item)> = page.iter().map(|s| (s.heading, s.rows[0].item)).collect();
    assert_eq!(
        shown,
        [
            (Heading::Appearance, Item::Theme),
            (Heading::Untitled, Item::TrayText),
            (Heading::Controls, Item::StemControl),
            (Heading::Untitled, Item::PreferredCodec),
            (Heading::Untitled, Item::AutoSwitch),
            (Heading::Untitled, Item::A2dpReset),
            (Heading::Untitled, Item::HiResMicAgc),
            (Heading::Untitled, Item::HiResMicPauseConvo),
        ]
    );
    let Control::Choice { options, selected } = &page[0].rows[0].control else {
        panic!("no themes");
    };
    assert_eq!((options.len(), *selected), (22, Some(1)));
    assert_eq!((options[0], options[9], options[21]), ("Light", "Catppuccin Frappé", "Ferra"));
}

#[test]
fn the_window_redraws_only_for_what_moves() {
    let millis = |d: Option<Duration>| d.map(|d| d.as_nanos() / 1_000_000);
    let none: Vec<String> = Vec::new();
    let active = vec![PODS.to_string()];
    let mut app = app();
    assert_eq!(millis(app.tick_interval(&active)), None);
    app = connected();
    assert_eq!(millis(app.tick_interval(&none)), Some(1000));
    assert_eq!(millis(app.tick_interval(&active)), Some(50));
    assert_eq!(millis(app.tick_interval(&vec![OTHER.to_string()])), Some(1000));
    app.update(Message::WindowClosed(1));
    assert_eq!(millis(app.tick_interval(&active)), None);
    app.update(Message::MicTestRecord);
    app.update(Message::MediaPaused(vec![]));
    assert_eq!(millis(app.tick_interval(&none)), Some(50));
    app.update(Message::MicTestStop);
    app.update(Message::Recorded(Ok(())));
    assert_eq!(millis(app.tick_interval(&none)), None);
    app.update(Message::WindowOpened(1, devices()));
    assert_eq!(millis(app.tick_interval(&none)), Some(50));
}

#[test]
fn a_capture_shows_the_meter_and_locks_awareness() {
    let mut app = connected();
    show(&mut app, PODS);
    let mic = MicUse { active: true, app: Some("Recorder".to_string()) };
    let Content::AirPods(page) = app.content(managed(), &mic) else {
        panic!("no page");
    };
    assert_eq!(row(&page, Item::InputLevel), Control::Text("In use by Recorder".to_string()));
    assert_eq!(row(&page, Item::ConversationAwareness), Control::Switch { on: false, locked: true });
    app.update(Message::HiResMicPauseConvoChanged(false));
    let Content::AirPods(page) = app.content(managed(), &mic) else {
        panic!("no page");
    };
    assert_eq!(
        row(&page, Item::ConversationAwareness),
        Control::Switch { on: false, locked: false }
    );
}

#[test]
fn idle_messages_only_wait_and_copies_are_handed_on() {
    let mut app = app();
    assert!(matches!(app.update(Message::BluetoothIdle)[..], [AppTask::Wait]));
    let tasks = app.update(Message::CopyToClipboard("C02".to_string()));
    assert!(matches!(&tasks[..], [AppTask::CopyToClipboard(text)] if text == "C02"));
}

#[test]
fn connected_devices_are_listed_once() {
    let mut state = BluetoothState::new();
    assert!(!state.contains(PODS));
    state.add(PODS);
    state.add(PODS);
    state.add(OTHER);
    assert!(state.contains(PODS) && state.contains(OTHER));
    state.remove(PODS);
    assert!(!state.contains(PODS));
    assert!(state.contains(OTHER));
}

#[test]
fn rows_of_the_airpods_page_name_their_change() {
    assert_eq!(
        page_switched(Item::ConversationAwareness, true),
        Some(AirPodsChange::ConversationAwareness(true))
    );
    assert_eq!(page_switched(Item::HiResMicrophone, false), Some(AirPodsChange::HiResMic(false)));
    assert_eq!(page_switched(Item::CustomEq, true), Some(AirPodsChange::EqEnabled(true)));
    assert!(matches!(
        page_switched(Item::SleepDetection, true),
        Some(AirPodsChange::Setting(ControlChange::SleepDetection(true)))
    ));
    assert_eq!(page_switched(Item::Theme, true), None);
    assert_eq!(page_slid(Item::MidBand, 30), Some(AirPodsChange::EqBand(EqBand::Mid, 30)));
    assert_eq!(
        page_slid(Item::ToneVolume, 40),
        Some(AirPodsChange::Setting(ControlChange::ToneVolume(40)))
    );
    assert_eq!(page_slid(Item::Name, 40), None);
}

#[test]
fn a_listening_mode_is_picked_among_those_offered() {
    let app = connected();
    let picked = |mac: &str, at: usize| app.page_picked(mac, Item::ListeningMode, at);
    let Control::Choice { options, .. } = ({
        let mut shown = connected();
        show(&mut shown, PODS);
        row(&page(&shown), Item::ListeningMode)
    }) else {
        panic!("the listening mode is a choice");
    };
    for (at, label) in options.iter().enumerate() {
        match picked(PODS, at) {
            Some(AirPodsChange::ListeningMode(mode)) => assert_eq!(mode.label(), *label),
            other => panic!("no mode at {at}: {other:?}"),
        }
    }
    assert_eq!(picked(PODS, options.len()), None);
    assert_eq!(picked(OTHER, 0), None);
    assert_eq!(
        app.page_picked(PODS, Item::MicrophoneMode, 2),
        Some(AirPodsChange::Setting(ControlChange::MicMode(MicMode::AlwaysLeft)))
    );
    assert_eq!(app.page_picked(PODS, Item::MicrophoneMode, 3), None);
}

#[test]
fn rows_of_the_settings_page_name_their_message() {
    assert!(matches!(
        setting_switched(Item::A2dpReset, false),
        Some(Message::A2dpResetChanged(false))
    ));
    assert!(matches!(
        setting_switched(Item::TrayText, true),
        Some(Message::TrayTextModeChanged(true))
    ));
    assert!(setting_switched(Item::Theme, true).is_none());
    assert!(matches!(
        setting_picked(Item::Theme, 1),
        Some(Message::ThemeSelected(MyTheme::Dark))
    ));
    assert!(matches!(
        setting_picked(Item::PreferredCodec, 0),
        Some(Message::PreferredCodecChanged(_))
    ));
    assert!(setting_picked(Item::Theme, 1000).is_none());
    assert!(setting_picked(Item::TrayText, 0).is_none());
}

#[test]
fn buttons_of_the_test_carry_the_position() {
    let at = Duration::from_secs(3);
    let of = Duration::from_secs(10);
    assert!(matches!(test_pressed(TestButton::RecordAgain, at, of), Message::MicTestRecord));
    assert!(matches!(test_pressed(TestButton::Done, at, of), Message::MicTestDone));
    match test_pressed(TestButton::Back, at, of) {
        Message::MicTestSkip { forward, position, duration } => {
            assert_eq!((forward, position.as_secs(), duration.as_secs()), (false, 3, 10));
        }
        other => panic!("not a skip: {other:?}"),
    }
    let mut app = connected();
    let read = MicReading {
        elapsed: Duration::from_secs(0),
        position: at,
        duration: of,
        playing: false,
        error: None,
    };
    assert_eq!(app.test_row(&read).buttons, [TestButton::Record]);
    app.update(Message::MicTestRecord);
    app.update(Message::MediaPaused(vec![]));
    assert_eq!(app.test_row(&read).buttons, [TestButton::Stop]);
}

#[test]
fn only_a_device_tab_has_an_address() {
    let mut app = connected();
    show(&mut app, OTHER);
    assert_eq!(app.selected_device(), Some(OTHER));
    app.update(Message::SelectTab(Tab::Settings));
    assert_eq!(app.selected_device(), None);
}

#[test]
fn a_reported_equalizer_does_not_replace_the_one_set_here() {
    let mut app = connected();
    let mac = || PODS.to_string();
    app.update(Message::Changed(mac(), AirPodsChange::EqEnabled(true)));
    let tasks = app.update(Message::Changed(mac(), AirPodsChange::EqBand(EqBand::Low, 70)));
    let generation = match &tasks[..] {
        [AppTask::SendEqLater { generation, .. }] => *generation,
        _ => panic!("not delayed: {tasks:?}"),
    };
    let reported = CustomEq { enabled: true, low: 1, mid: 2, high: 3 };
    app.update(backend(BluetoothUIMessage::AACPUIEvent(mac(), AACPEvent::CustomEq(reported))));
    show(&mut app, PODS);
    assert_eq!(
        row(&page(&app), Item::LowBand),
        Control::Slider { value: 70, max: 100, step: 1 }
    );
    let tasks = app.update(Message::EqDue { mac: mac(), generation });
    assert!(matches!(
        &tasks[..],
        [AppTask::SendEq { eq: CustomEq { enabled: true, low: 70, mid: 50, high: 50 }, .. }]
    ));
}

#[test]
fn slider_rows_have_captions_at_their_ends() {
    assert_eq!(Item::ToneVolume.ends(), Some(("Quiet", "Loud")));
    assert_eq!(Item::AdaptiveAudio.ends(), Some(("Less noise", "More noise")));
    assert_eq!(Item::LowBand.ends(), None);
    assert!(Item::AdaptiveAudio.description().unwrap().starts_with("Adaptive audio dynamically"));
}
