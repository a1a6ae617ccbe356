//! The iced window: its state, what each message changes and asks for, and
//! what it shows.

use crate::address_map::AddressMap;
use crate::audio::mic_test::{skip, SKIP_SECS};
use crate::bluetooth::aacp::{
    AACPEvent, BatteryInfo, ControlCommandIdentifiers, ControlCommandStatus,
};
use crate::bluetooth::eq::{CustomEq, BAND_MAX};
use crate::bytes::{copied, ByteMap};
use crate::devices::enums::{
    AirPodsNoiseControlMode, DeviceData, DeviceDataView, DeviceType, NothingAncMode,
};
use crate::devices::state::{
    AirPodsState, AirPodsStateView, DeviceState, DeviceStateView, NothingState,
};
use crate::text::same_text;
use crate::time::{Duration, NANOS_PER_SEC};
use crate::ui::equalizer::EqualizerState;
use crate::ui::format::{live_case_level, validate_device_name};
use crate::ui::gtk::controls::ControlChange;
use crate::ui::gtk::model::equalizer::EqBand;
use crate::ui::gtk::model::{AirPods, AirPodsView};
use crate::ui::messages::BluetoothUIMessage;
use crate::utils::{AppSettings, MyTheme, PreferredCodec};
use vstd::prelude::*;

pub mod device_laws;
pub mod laws;
pub mod page_laws;
pub mod test_laws;
pub mod view;

verus! {

/// Redraw rate while the level meter or the microphone test is on screen, in
/// milliseconds.
pub const MIC_TICK_MILLIS: u64 = 50;

/// Rate at which to check whether an app opened the hi-res microphone, in
/// milliseconds.
pub const MIC_WATCH_MILLIS: u64 = 1000;

/// The microphone test on the AirPods page. The app holds the live recorder
/// or player.
#[derive(Debug)]
pub enum MicTest {
    Idle,
    /// Waiting for the playing media to pause before recording.
    Starting,
    Recording,
    /// The recorder was told to stop and its thread is being joined.
    Stopping,
    Ready,
    Failed(String),
}

/// The mathematical content of a `MicTest`.
#[verifier::ext_equal]
pub enum MicTestPhase {
    Idle,
    Starting,
    Recording,
    Stopping,
    Ready,
    Failed(Seq<char>),
}

impl View for MicTest {
    type V = MicTestPhase;

    open spec fn view(&self) -> MicTestPhase {
        match *self {
            MicTest::Idle => MicTestPhase::Idle,
            MicTest::Starting => MicTestPhase::Starting,
            MicTest::Recording => MicTestPhase::Recording,
            MicTest::Stopping => MicTestPhase::Stopping,
            MicTest::Ready => MicTestPhase::Ready,
            MicTest::Failed(e) => MicTestPhase::Failed(e@),
        }
    }
}

impl MicTest {
    fn is_recording(&self) -> (yes: bool)
        ensures
            yes == (self@ is Recording),
    {
        match self {
            MicTest::Recording => true,
            _ => false,
        }
    }

    fn is_ready(&self) -> (yes: bool)
        ensures
            yes == (self@ is Ready),
    {
        match self {
            MicTest::Ready => true,
            _ => false,
        }
    }
}

/// Where a manual connect request stands.
#[derive(Debug)]
pub enum ConnectProgress {
    Connecting,
    Failed(String),
}

/// The mathematical content of a `ConnectProgress`.
#[verifier::ext_equal]
pub enum ConnectProgressView {
    Connecting,
    Failed(Seq<char>),
}

impl View for ConnectProgress {
    type V = ConnectProgressView;

    open spec fn view(&self) -> ConnectProgressView {
        match *self {
            ConnectProgress::Connecting => ConnectProgressView::Connecting,
            ConnectProgress::Failed(e) => ConnectProgressView::Failed(e@),
        }
    }
}

/// The devices that are connected, in the order they came.
#[derive(Debug)]
pub struct BluetoothState {
    connected_devices: Vec<String>,
}

impl View for BluetoothState {
    type V = Seq<Seq<char>>;

    closed spec fn view(&self) -> Seq<Seq<char>> {
        crate::text::texts(self.connected_devices@)
    }
}

/// Some addresses without one of them.
pub open spec fn without(macs: Seq<Seq<char>>, mac: Seq<char>) -> Seq<Seq<char>>
    decreases macs.len(),
{
    if macs.len() == 0 {
        macs
    } else if macs.last() == mac {
        without(macs.drop_last(), mac)
    } else {
        without(macs.drop_last(), mac).push(macs.last())
    }
}

/// Whether an address is among some texts.
fn listed(macs: &Vec<String>, mac: &str) -> (yes: bool)
    ensures
        yes == crate::text::texts(macs@).contains(mac@),
{
    let ghost all = crate::text::texts(macs@);
    let mut i: usize = 0;
    while i < macs.len()
        invariant
            i <= macs@.len(),
            all == crate::text::texts(macs@),
            forall|j: int| 0 <= j < i ==> #[trigger] all[j] != mac@,
        decreases macs@.len() - i,
    {
        if same_text(macs[i].as_str(), mac) {
            proof {
                assert(all[i as int] == mac@);
            }
            return true;
        }
        i = i + 1;
    }
    false
}

impl BluetoothState {
    /// No device is connected.
    pub fn new() -> (state: BluetoothState)
        ensures
            state@ == Seq::<Seq<char>>::empty(),
    {
        let state = BluetoothState { connected_devices: Vec::new() };
        proof {
            assert(state@ =~= Seq::<Seq<char>>::empty());
        }
        state
    }

    /// Whether a device is connected.
    pub fn contains(&self, mac: &str) -> (yes: bool)
        ensures
            yes == self@.contains(mac@),
    {
        listed(&self.connected_devices, mac)
    }

    /// Adds a device that is not listed yet.
    pub fn add(&mut self, mac: &str)
        ensures
            final(self)@ == (if old(self)@.contains(mac@) {
                old(self)@
            } else {
                old(self)@.push(mac@)
            }),
    {
        if self.contains(mac) {
            return;
        }
        self.connected_devices.push(mac.to_string());
        proof {
            assert(self@ =~= old(self)@.push(mac@));
        }
    }

    /// Takes a device off the list.
    pub fn remove(&mut self, mac: &str)
        ensures
            final(self)@ == without(old(self)@, mac@),
    {
        let mut kept: Vec<String> = Vec::new();
        let mut i: usize = 0;
        let ghost all = self@;
        proof {
            assert(all.take(0) =~= Seq::<Seq<char>>::empty());
            assert(crate::text::texts(kept@) =~= Seq::<Seq<char>>::empty());
        }
        while i < self.connected_devices.len()
            invariant
                i <= self.connected_devices@.len(),
                all == self@,
                all == crate::text::texts(self.connected_devices@),
                crate::text::texts(kept@) == without(all.take(i as int), mac@),
            decreases self.connected_devices@.len() - i,
        {
            proof {
                let next = all.take(i + 1);
                assert(next.drop_last() =~= all.take(i as int));
                assert(next.last() == self.connected_devices@[i as int]@);
            }
            if !same_text(self.connected_devices[i].as_str(), mac) {
                let ghost before = kept@;
                kept.push(self.connected_devices[i].clone());
                proof {
                    assert(crate::text::texts(kept@) =~= crate::text::texts(before).push(
                        self.connected_devices@[i as int]@,
                    ));
                }
            }
            i = i + 1;
        }
        proof {
            assert(all.take(i as int) =~= all);
        }
        self.connected_devices = kept;
    }
}

/// What the app read for a message of the Bluetooth side: devices.json, the
/// state that the manager of the AirPods holds, the AirPods the system knows,
/// and the number that a new window would have.
#[derive(Debug)]
pub struct Reading {
    pub devices: AddressMap<DeviceData>,
    pub report: Option<AirPodsReport>,
    pub known_airpods: Vec<String>,
    pub new_window: u64,
}

/// What the manager of connected AirPods holds.
#[derive(Debug)]
pub struct AirPodsReport {
    pub battery: Vec<BatteryInfo>,
    pub controls: Vec<ControlCommandStatus>,
}

/// A change made on the AirPods page.
#[derive(Debug, Clone, Copy, PartialEq, Eq, Structural)]
pub enum AirPodsChange {
    ListeningMode(AirPodsNoiseControlMode),
    PersonalizedVolume(bool),
    ConversationAwareness(bool),
    AllowOff(bool),
    HiResMic(bool),
    Setting(ControlChange),
    EqEnabled(bool),
    EqBand(EqBand, u8),
    EqReset,
}

/// Everything that can happen to the window.
#[derive(Debug)]
pub enum Message {
    /// The window is open; devices.json was read again.
    WindowOpened(u64, AddressMap<DeviceData>),
    WindowClosed(u64),
    SelectTab(Tab),
    ThemeSelected(MyTheme),
    CopyToClipboard(String),
    BluetoothMessage(BluetoothUIMessage, Reading),
    /// Nothing to handle came from the Bluetooth side.
    BluetoothIdle,
    ConnectDevice(String),
    ConnectFinished(String, Result<(), String>),
    MicTestRecord,
    /// The media players that were playing were paused.
    MediaPaused(Vec<String>),
    MicTestStop,
    /// The recorder stopped.
    Recorded(Result<(), String>),
    MicTestPlay,
    MicTestPause,
    /// A skip, with where the player is and how long the take is.
    MicTestSkip { forward: bool, position: Duration, duration: Duration },
    MicTestSeek(Duration),
    MicTestDone,
    /// A redraw, with whether the recorder stopped by itself.
    MicLevelTick { finished: bool },
    /// Names and addresses of paired devices.
    GotPairedDevices(AddressMap<String>),
    StartAddDevice(String, String),
    SelectDeviceType(DeviceType),
    ConfirmAddDevice,
    CancelAddDevice,
    /// devices.json was read again.
    DevicesLoaded(AddressMap<DeviceData>),
    StateChanged(String, DeviceState),
    Changed(String, AirPodsChange),
    /// The send delay of an equalizer change passed.
    EqDue { mac: String, generation: u64 },
    RenameInput(String, String),
    RenameSubmit(String),
    NothingAncModeSelected(String, NothingAncMode),
    TrayTextModeChanged(bool),
    StemControlChanged(bool),
    A2dpResetChanged(bool),
    AutoSwitchChanged(bool),
    PreferredCodecChanged(PreferredCodec),
    HiResMicAgcChanged(bool),
    HiResMicPauseConvoChanged(bool),
}

/// Work for the app to do after a message.
#[derive(Debug)]
pub enum AppTask {
    /// Wait for the next message of the Bluetooth side.
    Wait,
    OpenWindow(u64),
    FocusWindow(u64),
    CopyToClipboard(String),
    /// Connect and come back with `Message::ConnectFinished`.
    Connect { mac: String, address: [u8; 6] },
    /// Read devices.json and come back with `Message::DevicesLoaded`.
    LoadDevices,
    SaveDevice { mac: String, name: String, type_: DeviceType },
    /// Write the settings to disk.
    SaveSettings,
    /// Pause the playing media and come back with `Message::MediaPaused`.
    PauseMedia,
    ResumeMedia(Vec<String>),
    StartRecorder,
    /// Stop the recorder and come back with `Message::Recorded`.
    StopRecorder,
    /// Drop the recorder or the player.
    ReleaseTest,
    Play,
    Pause,
    Seek(Duration),
    SendControl { mac: String, identifier: ControlCommandIdentifiers, value: Vec<u8> },
    SetConversationDetection { mac: String, enabled: bool },
    SetHiResMic { mac: String, enabled: bool },
    SendEq { mac: String, eq: CustomEq },
    /// Come back with `Message::EqDue` after the send delay.
    SendEqLater { mac: String, generation: u64 },
    Rename { mac: String, name: String },
    SetNothingAnc { mac: String, mode: u8 },
}

/// The mathematical content of an `AppTask`.
#[verifier::ext_equal]
pub enum AppTaskView {
    Wait,
    OpenWindow(u64),
    FocusWindow(u64),
    CopyToClipboard(Seq<char>),
    Connect { mac: Seq<char>, address: Seq<u8> },
    LoadDevices,
    SaveDevice { mac: Seq<char>, name: Seq<char>, type_: DeviceType },
    SaveSettings,
    PauseMedia,
    ResumeMedia(Seq<Seq<char>>),
    StartRecorder,
    StopRecorder,
    ReleaseTest,
    Play,
    Pause,
    Seek(nat),
    SendControl { mac: Seq<char>, identifier: ControlCommandIdentifiers, value: Seq<u8> },
    SetConversationDetection { mac: Seq<char>, enabled: bool },
    SetHiResMic { mac: Seq<char>, enabled: bool },
    SendEq { mac: Seq<char>, eq: CustomEq },
    SendEqLater { mac: Seq<char>, generation: u64 },
    Rename { mac: Seq<char>, name: Seq<char> },
    SetNothingAnc { mac: Seq<char>, mode: u8 },
}

impl View for AppTask {
    type V = AppTaskView;

    open spec fn view(&self) -> AppTaskView {
        match *self {
            AppTask::Wait => AppTaskView::Wait,
            AppTask::OpenWindow(id) => AppTaskView::OpenWindow(id),
            AppTask::FocusWindow(id) => AppTaskView::FocusWindow(id),
            AppTask::CopyToClipboard(text) => AppTaskView::CopyToClipboard(text@),
            AppTask::Connect { mac, address } => AppTaskView::Connect {
                mac: mac@,
                address: address@,
            },
            AppTask::LoadDevices => AppTaskView::LoadDevices,
            AppTask::SaveDevice { mac, name, type_ } => AppTaskView::SaveDevice {
                mac: mac@,
                name: name@,
                type_,
            },
            AppTask::SaveSettings => AppTaskView::SaveSettings,
            AppTask::PauseMedia => AppTaskView::PauseMedia,
            AppTask::ResumeMedia(players) => AppTaskView::ResumeMedia(
                crate::text::texts(players@),
            ),
            AppTask::StartRecorder => AppTaskView::StartRecorder,
            AppTask::StopRecorder => AppTaskView::StopRecorder,
            AppTask::ReleaseTest => AppTaskView::ReleaseTest,
            AppTask::Play => AppTaskView::Play,
            AppTask::Pause => AppTaskView::Pause,
            AppTask::Seek(to) => AppTaskView::Seek(to@),
            AppTask::SendControl { mac, identifier, value } => AppTaskView::SendControl {
                mac: mac@,
                identifier,
                value: value@,
            },
            AppTask::SetConversationDetection { mac, enabled } => {
                AppTaskView::SetConversationDetection { mac: mac@, enabled }
            },
            AppTask::SetHiResMic { mac, enabled } => AppTaskView::SetHiResMic {
                mac: mac@,
                enabled,
            },
            AppTask::SendEq { mac, eq } => AppTaskView::SendEq { mac: mac@, eq },
            AppTask::SendEqLater { mac, generation } => AppTaskView::SendEqLater {
                mac: mac@,
                generation,
            },
            AppTask::Rename { mac, name } => AppTaskView::Rename { mac: mac@, name: name@ },
            AppTask::SetNothingAnc { mac, mode } => AppTaskView::SetNothingAnc {
                mac: mac@,
                mode,
            },
        }
    }
}

/// The mathematical content of some tasks.
pub open spec fn tasks_view(tasks: Seq<AppTask>) -> Seq<AppTaskView> {
    tasks.map_values(|t: AppTask| t@)
}

/// No task.
pub open spec fn idle() -> Seq<AppTaskView> {
    Seq::empty()
}

fn no_tasks() -> (tasks: Vec<AppTask>)
    ensures
        tasks_view(tasks@) == idle(),
{
    let tasks: Vec<AppTask> = Vec::new();
    proof {
        assert(tasks_view(tasks@) =~= idle());
    }
    tasks
}

fn add_task(tasks: &mut Vec<AppTask>, task: AppTask)
    ensures
        tasks_view(final(tasks)@) == tasks_view(old(tasks)@).push(task@),
{
    tasks.push(task);
    proof {
        assert(tasks_view(tasks@) =~= tasks_view(old(tasks)@).push(task@));
    }
}

fn one_task(task: AppTask) -> (tasks: Vec<AppTask>)
    ensures
        tasks_view(tasks@) == idle().push(task@),
{
    let mut tasks = no_tasks();
    add_task(&mut tasks, task);
    tasks
}

/// The page that is selected.
#[derive(Clone, Debug, PartialEq, Eq, Hash)]
pub enum Tab {
    Device(String),
    Settings,
    AddDevice,
}

/// The mathematical content of a `Tab`.
#[verifier::ext_equal]
pub enum TabView {
    Device(Seq<char>),
    Settings,
    AddDevice,
}

impl View for Tab {
    type V = TabView;

    open spec fn view(&self) -> TabView {
        match *self {
            Tab::Device(mac) => TabView::Device(mac@),
            Tab::Settings => TabView::Settings,
            Tab::AddDevice => TabView::AddDevice,
        }
    }
}

impl Tab {
    fn is_device(&self, mac: &str) -> (yes: bool)
        ensures
            yes == (self@ == TabView::Device(mac@)),
    {
        match self {
            Tab::Device(selected) => same_text(selected.as_str(), mac),
            _ => false,
        }
    }
}

/// The two parts of the window.
#[derive(Clone, Copy, Debug, PartialEq, Eq, Structural)]
pub enum Pane {
    Sidebar,
    Content,
}

/// The state of the window.
#[derive(Debug)]
pub struct App {
    window: Option<u64>,
    selected_tab: Tab,
    settings: AppSettings,
    bluetooth_state: BluetoothState,
    /// Addresses of paired devices, by name.
    paired_devices: AddressMap<String>,
    device_states: AddressMap<DeviceState>,
    pending_add_device: Option<(String, String)>,
    selected_device_type: Option<DeviceType>,
    /// Manual connect requests from the UI or tray, keyed by MAC; cleared once
    /// the device connects.
    connect_status: AddressMap<ConnectProgress>,
    mic_test: MicTest,
    /// Media players paused for the microphone test, resumed when it ends.
    mic_test_paused: Vec<String>,
    /// Last case level each device reported. The case only reports while a bud
    /// is in it, so the sidebar shows this, dimmed, the rest of the time.
    last_case_level: AddressMap<u8>,
    /// Contents of devices.json. Reloaded on the messages that can change the
    /// file, never to show the window.
    devices: AddressMap<DeviceData>,
    /// The name field while it is edited: address and text.
    name_draft: Option<(String, String)>,
}

/// The mathematical content of an `App`.
#[verifier::ext_equal]
pub struct AppView {
    pub window: Option<u64>,
    pub selected_tab: TabView,
    pub settings: AppSettings,
    pub connected: Seq<Seq<char>>,
    pub paired: Map<Seq<char>, Seq<char>>,
    pub states: Map<Seq<char>, DeviceStateView>,
    pub pending: Option<(Seq<char>, Seq<char>)>,
    pub selected_type: Option<DeviceType>,
    pub connects: Map<Seq<char>, ConnectProgressView>,
    pub test: MicTestPhase,
    pub paused: Seq<Seq<char>>,
    pub last_case_level: Map<Seq<char>, u8>,
    pub devices: Map<Seq<char>, DeviceDataView>,
    pub draft: Option<(Seq<char>, Seq<char>)>,
}

/// The view of two texts that may be missing.
pub open spec fn pair_view(pair: Option<(String, String)>) -> Option<(Seq<char>, Seq<char>)> {
    match pair {
        Some((a, b)) => Some((a@, b@)),
        None => None,
    }
}

impl View for App {
    type V = AppView;

    closed spec fn view(&self) -> AppView {
        AppView {
            window: self.window,
            selected_tab: self.selected_tab@,
            settings: self.settings,
            connected: self.bluetooth_state@,
            paired: self.paired_devices@,
            states: self.device_states@,
            pending: pair_view(self.pending_add_device),
            selected_type: self.selected_device_type,
            connects: self.connect_status@,
            test: self.mic_test@,
            paused: crate::text::texts(self.mic_test_paused@),
            last_case_level: self.last_case_level@,
            devices: self.devices@,
            draft: pair_view(self.name_draft),
        }
    }
}

/// The name of the tab that no device has.
pub open spec fn no_tab() -> TabView {
    TabView::Device("none"@)
}

// What a report says

/// The first listening mode among some settings.
pub open spec fn first_mode(controls: Seq<ControlCommandStatus>) -> Option<AirPodsNoiseControlMode>
    decreases controls.len(),
{
    if controls.len() == 0 {
        None
    } else if controls[0].identifier == ControlCommandIdentifiers::ListeningMode
        && controls[0].value@.len() > 0 {
        Some(crate::devices::enums::listening_of(controls[0].value@[0]))
    } else {
        first_mode(controls.skip(1))
    }
}

/// Whether any of some settings is this one, switched on.
pub open spec fn any_on(
    controls: Seq<ControlCommandStatus>,
    identifier: ControlCommandIdentifiers,
) -> bool {
    exists|i: int|
        0 <= i < controls.len() && (#[trigger] controls[i]).identifier == identifier
            && controls[i].value@ == seq![0x01u8]
}

/// The values of some settings by number, the last one of each.
pub open spec fn values_of(controls: Seq<ControlCommandStatus>) -> Map<u8, Seq<u8>>
    decreases controls.len(),
{
    if controls.len() == 0 {
        Map::empty()
    } else {
        values_of(controls.drop_last()).insert(
            controls.last().identifier.number(),
            controls.last().value@,
        )
    }
}

/// The state of AirPods that just connected.
pub open spec fn reported_pods(name: Seq<char>, report: AirPodsReport) -> AirPodsView {
    AirPodsView {
        name,
        battery: report.battery@,
        listening_mode: match first_mode(report.controls@) {
            Some(mode) => mode,
            None => AirPodsNoiseControlMode::Transparency,
        },
        conversation_awareness: any_on(
            report.controls@,
            ControlCommandIdentifiers::ConversationDetectConfig,
        ),
        personalized_volume: any_on(
            report.controls@,
            ControlCommandIdentifiers::AdaptiveVolumeConfig,
        ),
        allow_off: any_on(report.controls@, ControlCommandIdentifiers::AllowOffOption),
        control_values: values_of(report.controls@),
        custom_eq: None,
    }
}

fn find_mode(controls: &Vec<ControlCommandStatus>) -> (mode: Option<AirPodsNoiseControlMode>)
    ensures
        mode == first_mode(controls@),
{
    let mut i: usize = 0;
    proof {
        assert(controls@.skip(0) =~= controls@);
    }
    while i < controls.len()
        invariant
            i <= controls@.len(),
            first_mode(controls@) == first_mode(controls@.skip(i as int)),
        decreases controls@.len() - i,
    {
        proof {
            assert(controls@.skip(i as int)[0] == controls@[i as int]);
            assert(controls@.skip(i as int).skip(1) =~= controls@.skip(i + 1));
        }
        if controls[i].identifier == ControlCommandIdentifiers::ListeningMode
            && controls[i].value.len() > 0 {
            return Some(AirPodsNoiseControlMode::from_byte(&controls[i].value[0]));
        }
        i = i + 1;
    }
    None
}

fn has_on(controls: &Vec<ControlCommandStatus>, identifier: ControlCommandIdentifiers) -> (on: bool)
    ensures
        on == any_on(controls@, identifier),
{
    let mut i: usize = 0;
    while i < controls.len()
        invariant
            i <= controls@.len(),
            forall|j: int|
                0 <= j < i ==> !((#[trigger] controls@[j]).identifier == identifier
                    && controls@[j].value@ == seq![0x01u8]),
        decreases controls@.len() - i,
    {
        if controls[i].identifier == identifier && controls[i].value.len() == 1
            && controls[i].value[0] == 0x01 {
            proof {
                assert(controls@[i as int].value@ =~= seq![0x01u8]);
            }
            return true;
        }
        proof {
            assert(seq![0x01u8].len() == 1 && seq![0x01u8][0] == 0x01u8);
        }
        i = i + 1;
    }
    false
}

fn collect_values(controls: &Vec<ControlCommandStatus>) -> (values: ByteMap)
    ensures
        values@ == values_of(controls@),
{
    let mut values = ByteMap::new();
    let mut i: usize = 0;
    proof {
        assert(controls@.take(0) =~= Seq::<ControlCommandStatus>::empty());
    }
    while i < controls.len()
        invariant
            i <= controls@.len(),
            values@ == values_of(controls@.take(i as int)),
        decreases controls@.len() - i,
    {
        proof {
            let next = controls@.take(i + 1);
            assert(next.drop_last() =~= controls@.take(i as int));
            assert(next.last() == controls@[i as int]);
        }
        values.insert(
            controls[i].identifier.to_byte(),
            copied(controls[i].value.as_slice()),
        );
        i = i + 1;
    }
    proof {
        assert(controls@.take(i as int) =~= controls@);
    }
    values
}

fn pods_from(name: String, report: AirPodsReport) -> (pods: AirPods)
    ensures
        pods@ == reported_pods(name@, report),
{
    let listening_mode = match find_mode(&report.controls) {
        Some(mode) => mode,
        None => AirPodsNoiseControlMode::Transparency,
    };
    AirPods {
        name,
        listening_mode,
        conversation_awareness: has_on(
            &report.controls,
            ControlCommandIdentifiers::ConversationDetectConfig,
        ),
        personalized_volume: has_on(
            &report.controls,
            ControlCommandIdentifiers::AdaptiveVolumeConfig,
        ),
        allow_off: has_on(&report.controls, ControlCommandIdentifiers::AllowOffOption),
        control_values: collect_values(&report.controls),
        battery: report.battery,
        custom_eq: None,
    }
}

// What a change does

/// AirPods after a change of their page.
pub open spec fn changed_state(state: AirPodsStateView, change: AirPodsChange) -> AirPodsStateView {
    let pods = state.pods;
    match change {
        AirPodsChange::ListeningMode(mode) => AirPodsStateView {
            pods: AirPodsView { listening_mode: mode, ..pods },
            ..state
        },
        AirPodsChange::PersonalizedVolume(on) => AirPodsStateView {
            pods: AirPodsView { personalized_volume: on, ..pods },
            ..state
        },
        AirPodsChange::ConversationAwareness(on) => AirPodsStateView {
            pods: AirPodsView { conversation_awareness: on, ..pods },
            ..state
        },
        AirPodsChange::AllowOff(on) => AirPodsStateView {
            pods: AirPodsView { allow_off: on, ..pods },
            ..state
        },
        AirPodsChange::HiResMic(on) => AirPodsStateView { hires_mic_enabled: on, ..state },
        AirPodsChange::Setting(change) => AirPodsStateView {
            pods: crate::ui::gtk::controls::changed_airpods(pods, change),
            ..state
        },
        AirPodsChange::EqEnabled(on) => AirPodsStateView {
            custom_eq: state.custom_eq.changed(CustomEq { enabled: on, ..state.custom_eq.eq }),
            ..state
        },
        AirPodsChange::EqBand(band, value) => AirPodsStateView {
            custom_eq: state.custom_eq.changed(
                band.with(
                    state.custom_eq.eq,
                    crate::ui::gtk::model::equalizer::capped_band(value),
                ),
            ),
            ..state
        },
        AirPodsChange::EqReset => AirPodsStateView {
            custom_eq: state.custom_eq.changed(crate::ui::gtk::model::equalizer::flat_eq()),
            ..state
        },
    }
}

/// What a change of the AirPods page sends.
pub open spec fn change_tasks(
    state: AirPodsStateView,
    mac: Seq<char>,
    change: AirPodsChange,
) -> Seq<AppTaskView> {
    match change {
        AirPodsChange::ListeningMode(mode) => idle().push(
            AppTaskView::SendControl {
                mac,
                identifier: ControlCommandIdentifiers::ListeningMode,
                value: seq![crate::devices::enums::listening_byte(mode)],
            },
        ),
        AirPodsChange::PersonalizedVolume(on) => idle().push(
            AppTaskView::SendControl {
                mac,
                identifier: ControlCommandIdentifiers::AdaptiveVolumeConfig,
                value: seq![crate::bluetooth::settings::switch_byte(on)],
            },
        ),
        AirPodsChange::ConversationAwareness(on) => idle().push(
            AppTaskView::SetConversationDetection { mac, enabled: on },
        ),
        AirPodsChange::AllowOff(on) => idle().push(
            AppTaskView::SendControl {
                mac,
                identifier: ControlCommandIdentifiers::AllowOffOption,
                value: seq![crate::bluetooth::settings::switch_byte(on)],
            },
        ),
        AirPodsChange::HiResMic(on) => idle().push(AppTaskView::SetHiResMic { mac, enabled: on }),
        AirPodsChange::Setting(change) => match change.value(state.pods) {
            Some(value) => idle().push(
                AppTaskView::SendControl { mac, identifier: change.identifier(), value },
            ),
            None => idle(),
        },
        AirPodsChange::EqEnabled(_) => idle().push(
            AppTaskView::SendEq {
                mac,
                eq: changed_state(state, change).custom_eq.eq,
            },
        ),
        AirPodsChange::EqBand(_, _) => idle().push(
            AppTaskView::SendEqLater {
                mac,
                generation: changed_state(state, change).custom_eq.generation,
            },
        ),
        AirPodsChange::EqReset => idle().push(
            AppTaskView::SendEq {
                mac,
                eq: changed_state(state, change).custom_eq.eq,
            },
        ),
    }
}

/// The bytes of an on/off setting.
fn on_off(on: bool) -> (value: Vec<u8>)
    ensures
        value@ == seq![crate::bluetooth::settings::switch_byte(on)],
{
    let byte: u8 = if on {
        0x01
    } else {
        0x02
    };
    let value: Vec<u8> = vec![byte];
    proof {
        assert(value@ =~= seq![crate::bluetooth::settings::switch_byte(on)]);
    }
    value
}

/// Changes the state of AirPods and returns what to send.
fn change_state(state: &mut AirPodsState, mac: String, change: AirPodsChange) -> (tasks: Vec<
    AppTask,
>)
    ensures
        final(state)@ == changed_state(old(state)@, change),
        tasks_view(tasks@) == change_tasks(old(state)@, mac@, change),
{
    match change {
        AirPodsChange::ListeningMode(mode) => {
            state.pods.listening_mode = mode;
            let value: Vec<u8> = vec![mode.to_byte()];
            proof {
                assert(value@ =~= seq![crate::devices::enums::listening_byte(mode)]);
            }
            one_task(
                AppTask::SendControl {
                    mac,
                    identifier: ControlCommandIdentifiers::ListeningMode,
                    value,
                },
            )
        },
        AirPodsChange::PersonalizedVolume(on) => {
            state.pods.personalized_volume = on;
            one_task(
                AppTask::SendControl {
                    mac,
                    identifier: ControlCommandIdentifiers::AdaptiveVolumeConfig,
                    value: on_off(on),
                },
            )
        },
        AirPodsChange::ConversationAwareness(on) => {
            state.pods.conversation_awareness = on;
            one_task(AppTask::SetConversationDetection { mac, enabled: on })
        },
        AirPodsChange::AllowOff(on) => {
            state.pods.allow_off = on;
            one_task(
                AppTask::SendControl {
                    mac,
                    identifier: ControlCommandIdentifiers::AllowOffOption,
                    value: on_off(on),
                },
            )
        },
        AirPodsChange::HiResMic(on) => {
            state.hires_mic_enabled = on;
            one_task(AppTask::SetHiResMic { mac, enabled: on })
        },
        AirPodsChange::Setting(change) => match change.command(&state.pods) {
            Some((identifier, value)) => {
                state.pods.control_values.insert(identifier.to_byte(), copied(value.as_slice()));
                one_task(AppTask::SendControl { mac, identifier, value })
            },
            None => no_tasks(),
        },
        AirPodsChange::EqEnabled(on) => {
            let mut eq = state.custom_eq.eq;
            eq.enabled = on;
            let _ = state.custom_eq.change(eq);
            one_task(AppTask::SendEq { mac, eq })
        },
        AirPodsChange::EqBand(band, value) => {
            let mut eq = state.custom_eq.eq;
            let capped: u8 = if value > BAND_MAX {
                BAND_MAX
            } else {
                value
            };
            band.set(&mut eq, capped);
            let generation: u64 = state.custom_eq.change(eq);
            one_task(AppTask::SendEqLater { mac, generation })
        },
        AirPodsChange::EqReset => {
            let eq = CustomEq { enabled: true, low: 50, mid: 50, high: 50 };
            let _ = state.custom_eq.change(eq);
            one_task(AppTask::SendEq { mac, eq })
        },
    }
}

// What a message does

/// The settings after a message that changes one.
pub open spec fn changed_setting(settings: AppSettings, message: Message) -> Option<AppSettings> {
    match message {
        Message::ThemeSelected(theme) => Some(AppSettings { theme, ..settings }),
        Message::TrayTextModeChanged(on) => Some(AppSettings { tray_text_mode: on, ..settings }),
        Message::StemControlChanged(on) => Some(AppSettings { stem_control: on, ..settings }),
        Message::A2dpResetChanged(on) => Some(AppSettings { a2dp_reset: on, ..settings }),
        Message::AutoSwitchChanged(on) => Some(
            AppSettings { auto_switch_on_playback: on, ..settings },
        ),
        Message::PreferredCodecChanged(codec) => Some(
            AppSettings { preferred_codec: codec, ..settings },
        ),
        Message::HiResMicAgcChanged(on) => Some(AppSettings { hires_mic_agc: on, ..settings }),
        Message::HiResMicPauseConvoChanged(on) => Some(
            AppSettings { hires_mic_pause_convo: on, ..settings },
        ),
        _ => None,
    }
}

fn setting_after(settings: AppSettings, message: &Message) -> (changed: Option<AppSettings>)
    ensures
        changed == changed_setting(settings, *message),
{
    match message {
        Message::ThemeSelected(theme) => Some(AppSettings { theme: *theme, ..settings }),
        Message::TrayTextModeChanged(on) => Some(AppSettings { tray_text_mode: *on, ..settings }),
        Message::StemControlChanged(on) => Some(AppSettings { stem_control: *on, ..settings }),
        Message::A2dpResetChanged(on) => Some(AppSettings { a2dp_reset: *on, ..settings }),
        Message::AutoSwitchChanged(on) => Some(
            AppSettings { auto_switch_on_playback: *on, ..settings },
        ),
        Message::PreferredCodecChanged(codec) => Some(
            AppSettings { preferred_codec: *codec, ..settings },
        ),
        Message::HiResMicAgcChanged(on) => Some(AppSettings { hires_mic_agc: *on, ..settings }),
        Message::HiResMicPauseConvoChanged(on) => Some(
            AppSettings { hires_mic_pause_convo: *on, ..settings },
        ),
        _ => None,
    }
}

/// Where a skip moves the player.
pub open spec fn skip_target(forward: bool, position: nat, duration: nat) -> nat {
    let step = (SKIP_SECS * NANOS_PER_SEC) as nat;
    crate::time::shorter(
        if forward {
            crate::time::sum_up_to_longest(position, step)
        } else {
            crate::time::difference_down_to_zero(position, step)
        },
        duration,
    )
}

impl AppView {
    /// A window with these settings and devices, open or not.
    pub open spec fn fresh(
        window: Option<u64>,
        settings: AppSettings,
        devices: Map<Seq<char>, DeviceDataView>,
    ) -> AppView {
        AppView {
            window,
            selected_tab: no_tab(),
            settings,
            connected: Seq::empty(),
            paired: Map::empty(),
            states: Map::empty(),
            pending: None,
            selected_type: None,
            connects: Map::empty(),
            test: MicTestPhase::Idle,
            paused: Seq::empty(),
            last_case_level: Map::empty(),
            devices,
            draft: None,
        }
    }

    /// What a window does first.
    pub open spec fn first_tasks(start_minimized: bool, new_window: u64) -> Seq<AppTaskView> {
        (if start_minimized {
            idle()
        } else {
            idle().push(AppTaskView::OpenWindow(new_window))
        }).push(AppTaskView::Wait)
    }

    /// Whether a connect request for `mac` is made: none runs, and it is an
    /// address.
    pub open spec fn connectable(self, mac: Seq<char>) -> bool {
        &&& !(self.connects.contains_key(mac) && self.connects[mac] is Connecting)
        &&& crate::bluetooth::address::address_of(mac) is Some
    }

    /// The window after a connect request.
    pub open spec fn requested(self, mac: Seq<char>) -> AppView {
        if self.connectable(mac) {
            AppView {
                connects: self.connects.insert(mac, ConnectProgressView::Connecting),
                ..self
            }
        } else {
            self
        }
    }

    /// What a connect request asks for, after some tasks.
    pub open spec fn request_tasks(self, tasks: Seq<AppTaskView>, mac: Seq<char>) -> Seq<
        AppTaskView,
    > {
        if self.connectable(mac) {
            tasks.push(
                AppTaskView::Connect {
                    mac,
                    address: crate::bluetooth::address::address_of(mac)->0,
                },
            )
        } else {
            tasks
        }
    }

    /// The window after connect requests for those of some devices that are
    /// not connected.
    pub open spec fn all_requested(self, macs: Seq<Seq<char>>) -> AppView
        decreases macs.len(),
    {
        if macs.len() == 0 {
            self
        } else {
            let earlier = self.all_requested(macs.drop_last());
            if self.connected.contains(macs.last()) {
                earlier
            } else {
                earlier.requested(macs.last())
            }
        }
    }

    /// What those requests ask for, in order.
    pub open spec fn all_request_tasks(self, macs: Seq<Seq<char>>) -> Seq<AppTaskView>
        decreases macs.len(),
    {
        if macs.len() == 0 {
            idle().push(AppTaskView::Wait)
        } else {
            let earlier = self.all_requested(macs.drop_last());
            let tasks = self.all_request_tasks(macs.drop_last());
            if self.connected.contains(macs.last()) {
                tasks
            } else {
                earlier.request_tasks(tasks, macs.last())
            }
        }
    }

    /// The window with the case level of a battery report, if it has one.
    pub open spec fn remembering(self, mac: Seq<char>, battery: Seq<BatteryInfo>) -> AppView {
        match crate::ui::format::case_level(battery) {
            Some(level) => AppView {
                last_case_level: self.last_case_level.insert(mac, level),
                ..self
            },
            None => self,
        }
    }

    /// The window after a device connected.
    pub open spec fn device_connected(self, mac: Seq<char>, reading: Reading) -> AppView {
        let listed = AppView {
            connected: if self.connected.contains(mac) {
                self.connected
            } else {
                self.connected.push(mac)
            },
            connects: self.connects.remove(mac),
            devices: reading.devices@,
            ..self
        };
        if !reading.devices@.contains_key(mac) {
            listed
        } else {
            match reading.devices@[mac].type_ {
                DeviceType::AirPods => match reading.report {
                    Some(report) => AppView {
                        states: self.states.insert(
                            mac,
                            DeviceStateView::AirPods(
                                AirPodsStateView {
                                    pods: reported_pods(reading.devices@[mac].name, report),
                                    hires_mic_enabled: self.settings.hires_mic_enabled,
                                    custom_eq: EqualizerState {
                                        eq: crate::bluetooth::eq::eq_off(),
                                        generation: 0,
                                    },
                                },
                            ),
                        ),
                        ..listed.remembering(mac, report.battery@)
                    },
                    None => listed,
                },
                DeviceType::Nothing => AppView {
                    states: self.states.insert(mac, DeviceStateView::Nothing(NothingAncMode::Off)),
                    ..listed
                },
            }
        }
    }

    /// The window after a device disconnected. The tab of AirPods stays; that
    /// of another device closes.
    pub open spec fn device_disconnected(self, mac: Seq<char>, known_airpods: Seq<Seq<char>>) -> AppView {
        AppView {
            connected: without(self.connected, mac),
            states: self.states.remove(mac),
            selected_tab: if !known_airpods.contains(mac) && self.selected_tab == TabView::Device(
                mac,
            ) {
                no_tab()
            } else {
                self.selected_tab
            },
            ..self
        }
    }

    /// The state of connected AirPods.
    pub open spec fn airpods_state(self, mac: Seq<char>) -> Option<AirPodsStateView> {
        if self.states.contains_key(mac) {
            match self.states[mac] {
                DeviceStateView::AirPods(state) => Some(state),
                DeviceStateView::Nothing(_) => None,
            }
        } else {
            None
        }
    }

    /// The window with another state of connected AirPods; without those
    /// AirPods, nothing changes.
    pub open spec fn with_airpods(self, mac: Seq<char>, state: AirPodsStateView) -> AppView {
        if self.airpods_state(mac) is Some {
            AppView {
                states: self.states.insert(mac, DeviceStateView::AirPods(state)),
                ..self
            }
        } else {
            self
        }
    }

    /// The window after an event from AirPods.
    pub open spec fn with_event(self, mac: Seq<char>, event: AACPEvent) -> AppView {
        let state = self.airpods_state(mac)->0;
        match event {
            AACPEvent::BatteryInfo(battery) => self.remembering(mac, battery@).with_airpods(
                mac,
                AirPodsStateView {
                    pods: AirPodsView { battery: battery@, ..state.pods },
                    ..state
                },
            ),
            AACPEvent::ControlCommand(status) => self.with_airpods(
                mac,
                AirPodsStateView {
                    pods: state.pods.reported(status.identifier, status.value@),
                    ..state
                },
            ),
            // The window shows the equalizer as it was last changed here.
            AACPEvent::CustomEq(_) => self,
            AACPEvent::Other => self,
        }
    }

    /// The window after a message of the Bluetooth side.
    pub open spec fn after_bluetooth(self, message: BluetoothUIMessage, reading: Reading) -> AppView {
        match message {
            BluetoothUIMessage::OpenWindow => AppView {
                devices: reading.devices@,
                window: match self.window {
                    Some(id) => Some(id),
                    None => Some(reading.new_window),
                },
                ..self
            },
            BluetoothUIMessage::ConnectAirPods => self.all_requested(
                crate::text::texts(reading.known_airpods@),
            ),
            BluetoothUIMessage::DeviceConnected(mac) => self.device_connected(mac@, reading),
            BluetoothUIMessage::DeviceDisconnected(mac) => self.device_disconnected(
                mac@,
                crate::text::texts(reading.known_airpods@),
            ),
            BluetoothUIMessage::AACPUIEvent(mac, event) => AppView {
                devices: reading.devices@,
                ..self
            }.with_event(mac@, event),
        }
    }

    /// What a message of the Bluetooth side asks for.
    pub open spec fn bluetooth_tasks(self, message: BluetoothUIMessage, reading: Reading) -> Seq<
        AppTaskView,
    > {
        match message {
            BluetoothUIMessage::OpenWindow => idle().push(
                match self.window {
                    Some(id) => AppTaskView::FocusWindow(id),
                    None => AppTaskView::OpenWindow(reading.new_window),
                },
            ).push(AppTaskView::Wait),
            BluetoothUIMessage::ConnectAirPods => self.all_request_tasks(
                crate::text::texts(reading.known_airpods@),
            ),
            _ => idle().push(AppTaskView::Wait),
        }
    }

    /// The window after a whole state was set. The hi-res microphone switch
    /// of the page is a setting.
    pub open spec fn with_state(self, mac: Seq<char>, state: DeviceStateView) -> AppView {
        AppView {
            states: self.states.insert(mac, state),
            settings: match state {
                DeviceStateView::AirPods(a) => AppSettings {
                    hires_mic_enabled: a.hires_mic_enabled,
                    ..self.settings
                },
                DeviceStateView::Nothing(_) => self.settings,
            },
            ..self
        }
    }

    /// What setting a whole state asks for, after some tasks.
    pub open spec fn state_tasks(self, tasks: Seq<AppTaskView>, state: DeviceStateView) -> Seq<
        AppTaskView,
    > {
        match state {
            DeviceStateView::AirPods(a) => if a.hires_mic_enabled
                != self.settings.hires_mic_enabled {
                tasks.push(AppTaskView::SaveSettings)
            } else {
                tasks
            },
            DeviceStateView::Nothing(_) => tasks,
        }
    }

    /// The test after a stop: the recorder is joined, and a take or an error
    /// that is shown goes away.
    pub open spec fn stopped(self) -> AppView {
        AppView {
            test: match self.test {
                MicTestPhase::Recording => MicTestPhase::Stopping,
                MicTestPhase::Ready => MicTestPhase::Idle,
                MicTestPhase::Failed(_) => MicTestPhase::Idle,
                _ => self.test,
            },
            ..self
        }
    }

    /// What a stop asks for.
    pub open spec fn stop_tasks(self) -> Seq<AppTaskView> {
        match self.test {
            MicTestPhase::Recording => idle().push(AppTaskView::StopRecorder),
            MicTestPhase::Ready => idle().push(AppTaskView::ReleaseTest),
            _ => idle(),
        }
    }

    /// The window after a message of the microphone test.
    pub open spec fn after_test(self, message: Message) -> AppView {
        match message {
            Message::MicTestRecord => AppView {
                test: if self.paused.len() == 0 {
                    MicTestPhase::Starting
                } else {
                    MicTestPhase::Recording
                },
                ..self
            },
            Message::MediaPaused(players) => if self.test is Starting {
                AppView {
                    paused: crate::text::texts(players@),
                    test: MicTestPhase::Recording,
                    ..self
                }
            } else {
                self
            },
            Message::Recorded(result) => if self.test is Stopping {
                AppView {
                    test: match result {
                        Ok(_) => MicTestPhase::Ready,
                        Err(e) => MicTestPhase::Failed(e@),
                    },
                    ..self
                }
            } else {
                self
            },
            Message::MicTestDone => AppView {
                test: MicTestPhase::Idle,
                paused: Seq::empty(),
                ..self
            },
            Message::MicTestStop => self.stopped(),
            // The recorder stopped by itself.
            Message::MicLevelTick { finished } => if finished && self.test is Recording {
                self.stopped()
            } else {
                self
            },
            _ => self,
        }
    }

    /// What a message of the microphone test asks for.
    pub open spec fn test_tasks(self, message: Message) -> Seq<AppTaskView> {
        match message {
            Message::MicTestRecord => idle().push(
                if self.paused.len() == 0 {
                    AppTaskView::PauseMedia
                } else {
                    AppTaskView::StartRecorder
                },
            ),
            Message::MediaPaused(players) => if self.test is Starting {
                idle().push(AppTaskView::StartRecorder)
            } else {
                idle().push(AppTaskView::ResumeMedia(crate::text::texts(players@)))
            },
            Message::MicTestPlay => if self.test is Ready {
                idle().push(AppTaskView::Play)
            } else {
                idle()
            },
            Message::MicTestPause => if self.test is Ready {
                idle().push(AppTaskView::Pause)
            } else {
                idle()
            },
            Message::MicTestSkip { forward, position, duration } => if self.test is Ready {
                idle().push(AppTaskView::Seek(skip_target(forward, position@, duration@)))
            } else {
                idle()
            },
            Message::MicTestSeek(to) => if self.test is Ready {
                idle().push(AppTaskView::Seek(to@))
            } else {
                idle()
            },
            Message::MicTestDone => idle().push(AppTaskView::ReleaseTest).push(
                AppTaskView::ResumeMedia(self.paused),
            ),
            Message::MicTestStop => self.stop_tasks(),
            Message::MicLevelTick { finished } => if finished && self.test is Recording {
                self.stop_tasks()
            } else {
                idle()
            },
            _ => idle(),
        }
    }

    /// The window after a message on adding a device.
    pub open spec fn after_add(self, message: Message) -> AppView {
        match message {
            Message::GotPairedDevices(paired) => AppView { paired: paired@, ..self },
            Message::StartAddDevice(name, mac) => AppView {
                pending: Some((name@, mac@)),
                selected_type: None,
                ..self
            },
            Message::SelectDeviceType(type_) => AppView { selected_type: Some(type_), ..self },
            Message::ConfirmAddDevice => match (self.pending, self.selected_type) {
                (Some((_, mac)), Some(_)) => AppView {
                    pending: None,
                    selected_type: None,
                    selected_tab: TabView::Device(mac),
                    ..self
                },
                _ => AppView { pending: None, ..self },
            },
            Message::CancelAddDevice => AppView { pending: None, selected_type: None, ..self },
            _ => self,
        }
    }

    /// What a message on adding a device asks for.
    pub open spec fn add_tasks(self, message: Message) -> Seq<AppTaskView> {
        match message {
            Message::ConfirmAddDevice => match (self.pending, self.selected_type) {
                (Some((name, mac)), Some(type_)) => idle().push(
                    AppTaskView::SaveDevice { mac, name, type_ },
                ).push(AppTaskView::LoadDevices),
                _ => idle(),
            },
            _ => idle(),
        }
    }

    /// The window after a rename was asked for: a draft that does not pass
    /// the check stays, with its hint.
    pub open spec fn renamed(self, mac: Seq<char>) -> AppView {
        match (self.draft, self.airpods_state(mac)) {
            (Some((of, text)), Some(state)) => if of == mac {
                match crate::ui::format::checked_name(text) {
                    Ok(name) => AppView { draft: None, ..self }.with_airpods(
                        mac,
                        AirPodsStateView { pods: AirPodsView { name, ..state.pods }, ..state },
                    ),
                    Err(_) => self,
                }
            } else {
                self
            },
            _ => self,
        }
    }

    /// What a rename asks for.
    pub open spec fn rename_tasks(self, mac: Seq<char>) -> Seq<AppTaskView> {
        match (self.draft, self.airpods_state(mac)) {
            (Some((of, text)), Some(state)) => if of == mac {
                match crate::ui::format::checked_name(text) {
                    Ok(name) => if name == state.pods.name {
                        idle()
                    } else {
                        idle().push(AppTaskView::Rename { mac, name })
                    },
                    Err(_) => idle(),
                }
            } else {
                idle()
            },
            _ => idle(),
        }
    }

    /// The window after a message.
    pub open spec fn after(self, message: Message) -> AppView {
        match message {
            Message::WindowOpened(id, devices) => AppView {
                window: Some(id),
                devices: devices@,
                ..self
            },
            Message::WindowClosed(id) => AppView {
                window: if self.window == Some(id) {
                    None
                } else {
                    self.window
                },
                ..self
            },
            Message::SelectTab(tab) => AppView { selected_tab: tab@, ..self },
            Message::BluetoothMessage(message, reading) => self.after_bluetooth(message, reading),
            Message::ConnectDevice(mac) => self.requested(mac@),
            Message::ConnectFinished(mac, result) => AppView {
                connects: match result {
                    // DeviceConnected arrives separately once the device is
                    // set up.
                    Ok(_) => self.connects.remove(mac@),
                    Err(e) => self.connects.insert(mac@, ConnectProgressView::Failed(e@)),
                },
                ..self
            },
            Message::DevicesLoaded(devices) => AppView { devices: devices@, ..self },
            Message::StateChanged(mac, state) => self.with_state(mac@, state@),
            Message::Changed(mac, change) => match self.airpods_state(mac@) {
                Some(state) => self.with_state(
                    mac@,
                    DeviceStateView::AirPods(changed_state(state, change)),
                ),
                None => self,
            },
            Message::RenameInput(mac, text) => AppView { draft: Some((mac@, text@)), ..self },
            Message::RenameSubmit(mac) => self.renamed(mac@),
            Message::NothingAncModeSelected(mac, mode) => if self.states.contains_key(mac@)
                && self.states[mac@] is Nothing {
                AppView {
                    states: self.states.insert(mac@, DeviceStateView::Nothing(mode)),
                    ..self
                }
            } else {
                self
            },
            Message::GotPairedDevices(_) => self.after_add(message),
            Message::StartAddDevice(_, _) => self.after_add(message),
            Message::SelectDeviceType(_) => self.after_add(message),
            Message::ConfirmAddDevice => self.after_add(message),
            Message::CancelAddDevice => self.after_add(message),
            Message::ThemeSelected(_) => self.with_setting(message),
            Message::TrayTextModeChanged(_) => self.with_setting(message),
            Message::StemControlChanged(_) => self.with_setting(message),
            Message::A2dpResetChanged(_) => self.with_setting(message),
            Message::AutoSwitchChanged(_) => self.with_setting(message),
            Message::PreferredCodecChanged(_) => self.with_setting(message),
            Message::HiResMicAgcChanged(_) => self.with_setting(message),
            Message::HiResMicPauseConvoChanged(_) => self.with_setting(message),
            Message::CopyToClipboard(_) => self,
            Message::BluetoothIdle => self,
            Message::EqDue { .. } => self,
            _ => self.after_test(message),
        }
    }

    /// The window after a message that changes a setting.
    pub open spec fn with_setting(self, message: Message) -> AppView {
        match changed_setting(self.settings, message) {
            Some(settings) => AppView { settings, ..self },
            None => self,
        }
    }

    /// What a message asks for.
    pub open spec fn tasks_after(self, message: Message) -> Seq<AppTaskView> {
        match message {
            Message::WindowOpened(_, _) => idle(),
            Message::WindowClosed(_) => idle(),
            Message::SelectTab(_) => idle(),
            Message::BluetoothMessage(message, reading) => self.bluetooth_tasks(message, reading),
            Message::BluetoothIdle => idle().push(AppTaskView::Wait),
            Message::CopyToClipboard(text) => idle().push(AppTaskView::CopyToClipboard(text@)),
            Message::ConnectDevice(mac) => self.request_tasks(idle(), mac@),
            Message::ConnectFinished(_, _) => idle(),
            Message::DevicesLoaded(_) => idle(),
            Message::StateChanged(mac, state) => self.state_tasks(idle(), state@),
            Message::Changed(mac, change) => match self.airpods_state(mac@) {
                Some(state) => self.state_tasks(
                    change_tasks(state, mac@, change),
                    DeviceStateView::AirPods(changed_state(state, change)),
                ),
                None => idle(),
            },
            Message::EqDue { mac, generation } => match self.airpods_state(mac@) {
                Some(state) => if state.custom_eq.generation == generation {
                    idle().push(AppTaskView::SendEq { mac: mac@, eq: state.custom_eq.eq })
                } else {
                    idle()
                },
                None => idle(),
            },
            Message::RenameInput(_, _) => idle(),
            Message::RenameSubmit(mac) => self.rename_tasks(mac@),
            Message::NothingAncModeSelected(mac, mode) => if self.states.contains_key(mac@)
                && self.states[mac@] is Nothing {
                idle().push(
                    AppTaskView::SetNothingAnc {
                        mac: mac@,
                        mode: crate::devices::enums::nothing_byte(mode),
                    },
                )
            } else {
                idle()
            },
            Message::GotPairedDevices(_) => self.add_tasks(message),
            Message::StartAddDevice(_, _) => self.add_tasks(message),
            Message::SelectDeviceType(_) => self.add_tasks(message),
            Message::ConfirmAddDevice => self.add_tasks(message),
            Message::CancelAddDevice => self.add_tasks(message),
            Message::ThemeSelected(_) => idle().push(AppTaskView::SaveSettings),
            Message::TrayTextModeChanged(_) => idle().push(AppTaskView::SaveSettings),
            Message::StemControlChanged(_) => idle().push(AppTaskView::SaveSettings),
            Message::A2dpResetChanged(_) => idle().push(AppTaskView::SaveSettings),
            Message::AutoSwitchChanged(_) => idle().push(AppTaskView::SaveSettings),
            Message::PreferredCodecChanged(_) => idle().push(AppTaskView::SaveSettings),
            Message::HiResMicAgcChanged(_) => idle().push(AppTaskView::SaveSettings),
            Message::HiResMicPauseConvoChanged(_) => idle().push(AppTaskView::SaveSettings),
            _ => self.test_tasks(message),
        }
    }
}

/// What a message must satisfy: its maps are well formed, and a manager
/// reports for AirPods that connect.
pub open spec fn message_wf(message: Message) -> bool {
    match message {
        Message::WindowOpened(_, devices) => devices.wf(),
        Message::DevicesLoaded(devices) => devices.wf(),
        Message::GotPairedDevices(paired) => paired.wf(),
        Message::BluetoothMessage(message, reading) => reading.devices.wf() && (
        message matches BluetoothUIMessage::DeviceConnected(mac) && reading.devices@.contains_key(
            mac@,
        ) && reading.devices@[mac@].type_ == DeviceType::AirPods ==> reading.report is Some),
        _ => true,
    }
}

impl App {
    /// What every window satisfies.
    pub closed spec fn wf(&self) -> bool {
        &&& self.paired_devices.wf()
        &&& self.device_states.wf()
        &&& self.connect_status.wf()
        &&& self.last_case_level.wf()
        &&& self.devices.wf()
    }

    /// The list of known devices of a window ends.
    pub proof fn known_devices_end(&self)
        requires
            self.wf(),
        ensures
            self@.devices.dom().finite(),
    {
        self.devices.lemma_addresses();
    }

    /// A window with these settings and devices, open under a number unless
    /// it starts minimized, and what to do first.
    pub fn new(
        start_minimized: bool,
        settings: AppSettings,
        devices: AddressMap<DeviceData>,
        new_window: u64,
    ) -> (started: (App, Vec<AppTask>))
        requires
            devices.wf(),
        ensures
            started.0.wf(),
            started.0@ == AppView::fresh(
                if start_minimized {
                    None
                } else {
                    Some(new_window)
                },
                settings,
                devices@,
            ),
            tasks_view(started.1@) == (if start_minimized {
                idle()
            } else {
                idle().push(AppTaskView::OpenWindow(new_window))
            }).push(AppTaskView::Wait),
            tasks_view(started.1@) == AppView::first_tasks(start_minimized, new_window),
    {
        let mut tasks = no_tasks();
        let window: Option<u64> = if start_minimized {
            None
        } else {
            add_task(&mut tasks, AppTask::OpenWindow(new_window));
            Some(new_window)
        };
        add_task(&mut tasks, AppTask::Wait);
        let app = App {
            window,
            selected_tab: Tab::Device("none".to_string()),
            settings,
            bluetooth_state: BluetoothState::new(),
            paired_devices: AddressMap::new(),
            device_states: AddressMap::new(),
            pending_add_device: None,
            selected_device_type: None,
            connect_status: AddressMap::new(),
            mic_test: MicTest::Idle,
            mic_test_paused: Vec::new(),
            last_case_level: AddressMap::new(),
            devices,
            name_draft: None,
        };
        proof {
            assert(app@.paused =~= Seq::<Seq<char>>::empty());
        }
        (app, tasks)
    }

    /// The settings to save.
    pub fn settings(&self) -> (settings: AppSettings)
        ensures
            settings == self@.settings,
    {
        self.settings
    }

    /// The title of the window.
    pub fn title(&self) -> (title: &'static str)
        ensures
            title@ == "LibrePods"@,
    {
        "LibrePods"
    }

    /// The theme of the window.
    pub fn theme(&self) -> (theme: MyTheme)
        ensures
            theme == self@.settings.theme,
    {
        self.settings.theme
    }

    /// Takes a message and returns the work it asks for.
    pub fn update(&mut self, message: Message) -> (tasks: Vec<AppTask>)
        requires
            old(self).wf(),
            message_wf(message),
        ensures
            final(self).wf(),
            final(self)@ == old(self)@.after(message),
            tasks_view(tasks@) == old(self)@.tasks_after(message),
    {
        match message {
            Message::WindowOpened(id, devices) => {
                self.window = Some(id);
                self.devices = devices;
                no_tasks()
            },
            Message::WindowClosed(id) => {
                self.window_closed(id);
                no_tasks()
            },
            Message::SelectTab(tab) => {
                self.selected_tab = tab;
                no_tasks()
            },
            Message::BluetoothMessage(message, reading) => self.bluetooth(message, reading),
            Message::BluetoothIdle => one_task(AppTask::Wait),
            Message::CopyToClipboard(text) => one_task(AppTask::CopyToClipboard(text)),
            Message::ConnectDevice(mac) => {
                let mut tasks = no_tasks();
                self.start_connect(&mut tasks, mac);
                tasks
            },
            Message::ConnectFinished(mac, result) => {
                match result {
                    Ok(_) => {
                        let _ = self.connect_status.remove(mac.as_str());
                    },
                    Err(e) => {
                        self.connect_status.insert(mac, ConnectProgress::Failed(e));
                    },
                }
                no_tasks()
            },
            Message::DevicesLoaded(devices) => {
                self.devices = devices;
                no_tasks()
            },
            Message::StateChanged(mac, state) => {
                let mut tasks = no_tasks();
                self.state_changed(&mut tasks, mac, state);
                tasks
            },
            Message::Changed(mac, change) => self.changed(mac, change),
            Message::EqDue { mac, generation } => self.eq_due(mac, generation),
            Message::RenameInput(mac, text) => {
                self.name_draft = Some((mac, text));
                no_tasks()
            },
            Message::RenameSubmit(mac) => self.rename(mac),
            Message::NothingAncModeSelected(mac, mode) => self.nothing_mode(mac, mode),
            Message::GotPairedDevices(_) | Message::StartAddDevice(_, _)
            | Message::SelectDeviceType(_) | Message::ConfirmAddDevice
            | Message::CancelAddDevice => self.add_device(message),
            Message::ThemeSelected(_) | Message::TrayTextModeChanged(_)
            | Message::StemControlChanged(_) | Message::A2dpResetChanged(_)
            | Message::AutoSwitchChanged(_) | Message::PreferredCodecChanged(_)
            | Message::HiResMicAgcChanged(_) | Message::HiResMicPauseConvoChanged(_) => {
                self.change_setting(message)
            },
            _ => self.run_test(message),
        }
    }

    fn window_closed(&mut self, id: u64)
        requires
            old(self).wf(),
        ensures
            final(self).wf(),
            final(self)@ == old(self)@.after(Message::WindowClosed(id)),
    {
        let current = match self.window {
            Some(open) => open == id,
            None => false,
        };
        if current {
            self.window = None;
        }
    }

    fn change_setting(&mut self, message: Message) -> (tasks: Vec<AppTask>)
        requires
            old(self).wf(),
        ensures
            final(self).wf(),
            final(self)@ == old(self)@.with_setting(message),
            tasks_view(tasks@) == idle().push(AppTaskView::SaveSettings),
    {
        match setting_after(self.settings, &message) {
            Some(settings) => {
                self.settings = settings;
            },
            None => {},
        }
        one_task(AppTask::SaveSettings)
    }

    fn bluetooth(&mut self, message: BluetoothUIMessage, reading: Reading) -> (tasks: Vec<AppTask>)
        requires
            old(self).wf(),
            message_wf(Message::BluetoothMessage(message, reading)),
        ensures
            final(self).wf(),
            final(self)@ == old(self)@.after_bluetooth(message, reading),
            tasks_view(tasks@) == old(self)@.bluetooth_tasks(message, reading),
    {
        match message {
            BluetoothUIMessage::OpenWindow => {
                self.devices = reading.devices;
                let mut tasks = no_tasks();
                match self.window {
                    Some(id) => {
                        add_task(&mut tasks, AppTask::FocusWindow(id));
                    },
                    None => {
                        self.window = Some(reading.new_window);
                        add_task(&mut tasks, AppTask::OpenWindow(reading.new_window));
                    },
                }
                add_task(&mut tasks, AppTask::Wait);
                tasks
            },
            BluetoothUIMessage::ConnectAirPods => self.connect_away(&reading.known_airpods),
            BluetoothUIMessage::DeviceConnected(mac) => {
                self.device_connected(mac, reading);
                one_task(AppTask::Wait)
            },
            BluetoothUIMessage::DeviceDisconnected(mac) => {
                self.device_disconnected(mac.as_str(), &reading.known_airpods);
                one_task(AppTask::Wait)
            },
            BluetoothUIMessage::AACPUIEvent(mac, event) => {
                // The handlers of these events save the device information and
                // name to devices.json without a message of their own; the
                // events that follow are the next chance to pick it up.
                self.devices = reading.devices;
                self.aacp_event(mac, event);
                one_task(AppTask::Wait)
            },
        }
    }

    fn connect_away(&mut self, known: &Vec<String>) -> (tasks: Vec<AppTask>)
        requires
            old(self).wf(),
        ensures
            final(self).wf(),
            final(self)@ == old(self)@.all_requested(crate::text::texts(known@)),
            tasks_view(tasks@) == old(self)@.all_request_tasks(crate::text::texts(known@)),
    {
        let ghost all = crate::text::texts(known@);
        let mut tasks = one_task(AppTask::Wait);
        let mut i: usize = 0;
        proof {
            assert(all.take(0) =~= Seq::<Seq<char>>::empty());
        }
        while i < known.len()
            invariant
                i <= known@.len(),
                all == crate::text::texts(known@),
                self.wf(),
                self@.connected == old(self)@.connected,
                self@ == old(self)@.all_requested(all.take(i as int)),
                tasks_view(tasks@) == old(self)@.all_request_tasks(all.take(i as int)),
            decreases known@.len() - i,
        {
            proof {
                let next = all.take(i + 1);
                assert(next.drop_last() =~= all.take(i as int));
                assert(next.last() == known@[i as int]@);
            }
            if !self.bluetooth_state.contains(known[i].as_str()) {
                self.start_connect(&mut tasks, known[i].clone());
            }
            i = i + 1;
        }
        proof {
            assert(all.take(i as int) =~= all);
        }
        tasks
    }

    fn device_connected(&mut self, mac: String, reading: Reading)
        requires
            old(self).wf(),
            reading.devices.wf(),
            reading.devices@.contains_key(mac@) && reading.devices@[mac@].type_
                == DeviceType::AirPods ==> reading.report is Some,
        ensures
            final(self).wf(),
            final(self)@ == old(self)@.device_connected(mac@, reading),
    {
        self.bluetooth_state.add(mac.as_str());
        let _ = self.connect_status.remove(mac.as_str());
        self.devices = reading.devices;
        let known = match self.devices.get(mac.as_str()) {
            Some(device) => Some((device.type_, device.name.clone())),
            None => None,
        };
        match known {
            Some((DeviceType::AirPods, name)) => match reading.report {
                Some(report) => {
                    self.remember_case_level(mac.as_str(), report.battery.as_slice());
                    let state = AirPodsState {
                        pods: pods_from(name, report),
                        hires_mic_enabled: self.settings.hires_mic_enabled,
                        custom_eq: EqualizerState::new(CustomEq::default()),
                    };
                    self.device_states.insert(mac, DeviceState::AirPods(state));
                },
                None => {},
            },
            Some((DeviceType::Nothing, _)) => {
                self.device_states.insert(
                    mac,
                    DeviceState::Nothing(NothingState { anc_mode: NothingAncMode::Off }),
                );
            },
            None => {},
        }
    }

    fn device_disconnected(&mut self, mac: &str, known_airpods: &Vec<String>)
        requires
            old(self).wf(),
        ensures
            final(self).wf(),
            final(self)@ == old(self)@.device_disconnected(
                mac@,
                crate::text::texts(known_airpods@),
            ),
    {
        self.bluetooth_state.remove(mac);
        let _ = self.device_states.remove(mac);
        if !listed(known_airpods, mac) && self.selected_tab.is_device(mac) {
            self.selected_tab = Tab::Device("none".to_string());
        }
    }

    /// Takes the state of connected AirPods out of the window.
    fn take_airpods(&mut self, mac: &str) -> (state: Option<AirPodsState>)
        requires
            old(self).wf(),
        ensures
            final(self).wf(),
            match state {
                Some(s) => old(self)@.airpods_state(mac@) == Some(s@) && final(self)@ == (AppView {
                    states: old(self)@.states.remove(mac@),
                    ..old(self)@
                }),
                None => old(self)@.airpods_state(mac@) is None && final(self)@ == old(self)@,
            },
    {
        let airpods = match self.device_states.get(mac) {
            Some(DeviceState::AirPods(_)) => true,
            _ => false,
        };
        if !airpods {
            return None;
        }
        match self.device_states.remove(mac) {
            Some(DeviceState::AirPods(state)) => Some(state),
            _ => None,
        }
    }

    fn aacp_event(&mut self, mac: String, event: AACPEvent)
        requires
            old(self).wf(),
        ensures
            final(self).wf(),
            final(self)@ == old(self)@.with_event(mac@, event),
    {
        match event {
            AACPEvent::BatteryInfo(battery) => {
                self.remember_case_level(mac.as_str(), battery.as_slice());
                match self.take_airpods(mac.as_str()) {
                    Some(state) => {
                        let mut state = state;
                        state.pods.battery = battery;
                        self.device_states.insert(mac, DeviceState::AirPods(state));
                    },
                    None => {},
                }
            },
            AACPEvent::ControlCommand(status) => {
                match self.take_airpods(mac.as_str()) {
                    Some(state) => {
                        let mut state = state;
                        state.pods.apply_control(&status);
                        self.device_states.insert(mac, DeviceState::AirPods(state));
                    },
                    None => {},
                }
            },
            AACPEvent::CustomEq(_) => {},
            AACPEvent::Other => {},
        }
        proof {
            assert(self@.states =~= old(self)@.with_event(mac@, event).states);
        }
    }

    fn remember_case_level(&mut self, mac: &str, battery: &[BatteryInfo])
        requires
            old(self).wf(),
        ensures
            final(self).wf(),
            final(self)@ == old(self)@.remembering(mac@, battery@),
    {
        match live_case_level(battery) {
            Some(level) => {
                self.last_case_level.insert(mac.to_string(), level);
            },
            None => {},
        }
    }

    fn start_connect(&mut self, tasks: &mut Vec<AppTask>, mac: String)
        requires
            old(self).wf(),
        ensures
            final(self).wf(),
            final(self)@ == old(self)@.requested(mac@),
            tasks_view(final(tasks)@) == old(self)@.request_tasks(
                tasks_view(old(tasks)@),
                mac@,
            ),
    {
        let connecting = match self.connect_status.get(mac.as_str()) {
            Some(ConnectProgress::Connecting) => true,
            _ => false,
        };
        if connecting {
            return;
        }
        match crate::bluetooth::address::parse_address(mac.as_str()) {
            Some(address) => {
                self.connect_status.insert(mac.clone(), ConnectProgress::Connecting);
                add_task(tasks, AppTask::Connect { mac, address });
            },
            None => {},
        }
    }

    fn state_changed(&mut self, tasks: &mut Vec<AppTask>, mac: String, state: DeviceState)
        requires
            old(self).wf(),
        ensures
            final(self).wf(),
            final(self)@ == old(self)@.with_state(mac@, state@),
            tasks_view(final(tasks)@) == old(self)@.state_tasks(
                tasks_view(old(tasks)@),
                state@,
            ),
    {
        match &state {
            DeviceState::AirPods(a) => {
                if a.hires_mic_enabled != self.settings.hires_mic_enabled {
                    self.settings.hires_mic_enabled = a.hires_mic_enabled;
                    add_task(tasks, AppTask::SaveSettings);
                }
            },
            DeviceState::Nothing(_) => {},
        }
        self.device_states.insert(mac, state);
    }

    fn changed(&mut self, mac: String, change: AirPodsChange) -> (tasks: Vec<AppTask>)
        requires
            old(self).wf(),
        ensures
            final(self).wf(),
            final(self)@ == old(self)@.after(Message::Changed(mac, change)),
            tasks_view(tasks@) == old(self)@.tasks_after(Message::Changed(mac, change)),
    {
        match self.take_airpods(mac.as_str()) {
            Some(state) => {
                let mut state = state;
                let mut tasks = change_state(&mut state, mac.clone(), change);
                self.state_changed(&mut tasks, mac, DeviceState::AirPods(state));
                proof {
                    assert(self@.states =~= old(self)@.after(Message::Changed(mac, change)).states);
                }
                tasks
            },
            None => no_tasks(),
        }
    }

    fn eq_due(&self, mac: String, generation: u64) -> (tasks: Vec<AppTask>)
        requires
            self.wf(),
        ensures
            tasks_view(tasks@) == self@.tasks_after((Message::EqDue { mac, generation })),
    {
        match self.device_states.get(mac.as_str()) {
            Some(DeviceState::AirPods(state)) => {
                if state.custom_eq.is_due(generation) {
                    one_task(AppTask::SendEq { mac, eq: state.custom_eq.eq })
                } else {
                    no_tasks()
                }
            },
            _ => no_tasks(),
        }
    }

    fn rename(&mut self, mac: String) -> (tasks: Vec<AppTask>)
        requires
            old(self).wf(),
        ensures
            final(self).wf(),
            final(self)@ == old(self)@.renamed(mac@),
            tasks_view(tasks@) == old(self)@.rename_tasks(mac@),
    {
        let checked = match &self.name_draft {
            Some((of, text)) => if same_text(of.as_str(), mac.as_str()) {
                match validate_device_name(text.as_str()) {
                    Ok(name) => Some(name.to_string()),
                    Err(_) => None,
                }
            } else {
                None
            },
            None => None,
        };
        let name = match checked {
            Some(name) => name,
            None => {
                return no_tasks();
            },
        };
        match self.take_airpods(mac.as_str()) {
            Some(state) => {
                let mut state = state;
                self.name_draft = None;
                let same = same_text(state.pods.name.as_str(), name.as_str());
                state.pods.name = name.clone();
                self.device_states.insert(mac.clone(), DeviceState::AirPods(state));
                proof {
                    assert(self@.states =~= old(self)@.renamed(mac@).states);
                }
                if same {
                    no_tasks()
                } else {
                    one_task(AppTask::Rename { mac, name })
                }
            },
            None => no_tasks(),
        }
    }

    fn nothing_mode(&mut self, mac: String, mode: NothingAncMode) -> (tasks: Vec<AppTask>)
        requires
            old(self).wf(),
        ensures
            final(self).wf(),
            final(self)@ == old(self)@.after(Message::NothingAncModeSelected(mac, mode)),
            tasks_view(tasks@) == old(self)@.tasks_after(
                Message::NothingAncModeSelected(mac, mode),
            ),
    {
        let nothing = match self.device_states.get(mac.as_str()) {
            Some(DeviceState::Nothing(_)) => true,
            _ => false,
        };
        if !nothing {
            return no_tasks();
        }
        self.device_states.insert(
            mac.clone(),
            DeviceState::Nothing(NothingState { anc_mode: mode }),
        );
        one_task(AppTask::SetNothingAnc { mac, mode: mode.to_byte() })
    }

    fn add_device(&mut self, message: Message) -> (tasks: Vec<AppTask>)
        requires
            old(self).wf(),
            message_wf(message),
        ensures
            final(self).wf(),
            final(self)@ == old(self)@.after_add(message),
            tasks_view(tasks@) == old(self)@.add_tasks(message),
    {
        match message {
            Message::GotPairedDevices(paired) => {
                self.paired_devices = paired;
                no_tasks()
            },
            Message::StartAddDevice(name, mac) => {
                self.pending_add_device = Some((name, mac));
                self.selected_device_type = None;
                no_tasks()
            },
            Message::SelectDeviceType(type_) => {
                self.selected_device_type = Some(type_);
                no_tasks()
            },
            Message::ConfirmAddDevice => {
                match self.pending_add_device.take() {
                    Some((name, mac)) => match self.selected_device_type.take() {
                        Some(type_) => {
                            self.selected_tab = Tab::Device(mac.clone());
                            let mut tasks = one_task(AppTask::SaveDevice { mac, name, type_ });
                            add_task(&mut tasks, AppTask::LoadDevices);
                            tasks
                        },
                        None => no_tasks(),
                    },
                    None => no_tasks(),
                }
            },
            Message::CancelAddDevice => {
                self.pending_add_device = None;
                self.selected_device_type = None;
                no_tasks()
            },
            _ => no_tasks(),
        }
    }

    fn stop_recording(&mut self) -> (tasks: Vec<AppTask>)
        requires
            old(self).wf(),
        ensures
            final(self).wf(),
            final(self)@ == old(self)@.stopped(),
            tasks_view(tasks@) == old(self)@.stop_tasks(),
    {
        if self.mic_test.is_recording() {
            self.mic_test = MicTest::Stopping;
            return one_task(AppTask::StopRecorder);
        }
        let ready = self.mic_test.is_ready();
        let over = match &self.mic_test {
            MicTest::Ready | MicTest::Failed(_) => true,
            _ => false,
        };
        if over {
            self.mic_test = MicTest::Idle;
        }
        if ready {
            one_task(AppTask::ReleaseTest)
        } else {
            no_tasks()
        }
    }

    fn run_test(&mut self, message: Message) -> (tasks: Vec<AppTask>)
        requires
            old(self).wf(),
        ensures
            final(self).wf(),
            final(self)@ == old(self)@.after_test(message),
            tasks_view(tasks@) == old(self)@.test_tasks(message),
    {
        match message {
            Message::MicTestRecord => {
                // Music would play over the recording and the playback, so it
                // is paused for the whole test. Players already paused by an
                // earlier take stay listed.
                if self.mic_test_paused.len() == 0 {
                    self.mic_test = MicTest::Starting;
                    one_task(AppTask::PauseMedia)
                } else {
                    self.mic_test = MicTest::Recording;
                    one_task(AppTask::StartRecorder)
                }
            },
            Message::MediaPaused(players) => {
                let starting = match &self.mic_test {
                    MicTest::Starting => true,
                    _ => false,
                };
                if starting {
                    self.mic_test_paused = players;
                    self.mic_test = MicTest::Recording;
                    one_task(AppTask::StartRecorder)
                } else {
                    one_task(AppTask::ResumeMedia(players))
                }
            },
            Message::MicTestStop => self.stop_recording(),
            Message::Recorded(result) => {
                let stopping = match &self.mic_test {
                    MicTest::Stopping => true,
                    _ => false,
                };
                if stopping {
                    self.mic_test = match result {
                        Ok(_) => MicTest::Ready,
                        Err(e) => MicTest::Failed(e),
                    };
                }
                no_tasks()
            },
            Message::MicTestPlay => if self.mic_test.is_ready() {
                one_task(AppTask::Play)
            } else {
                no_tasks()
            },
            Message::MicTestPause => if self.mic_test.is_ready() {
                one_task(AppTask::Pause)
            } else {
                no_tasks()
            },
            Message::MicTestSkip { forward, position, duration } => {
                if !self.mic_test.is_ready() {
                    return no_tasks();
                }
                let to = if forward {
                    position.saturating_add(skip())
                } else {
                    position.saturating_sub(skip())
                };
                one_task(AppTask::Seek(to.min(duration)))
            },
            Message::MicTestSeek(to) => if self.mic_test.is_ready() {
                one_task(AppTask::Seek(to))
            } else {
                no_tasks()
            },
            Message::MicTestDone => {
                self.mic_test = MicTest::Idle;
                let mut players: Vec<String> = Vec::new();
                core::mem::swap(&mut players, &mut self.mic_test_paused);
                proof {
                    assert(self@.paused =~= Seq::<Seq<char>>::empty());
                }
                let mut tasks = one_task(AppTask::ReleaseTest);
                add_task(&mut tasks, AppTask::ResumeMedia(players));
                tasks
            },
            Message::MicLevelTick { finished } => if finished && self.mic_test.is_recording() {
                self.stop_recording()
            } else {
                no_tasks()
            },
            _ => no_tasks(),
        }
    }
}

} // verus!
