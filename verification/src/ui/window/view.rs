//! What the iced window shows.

use crate::bluetooth::aacp::{BatteryComponent, BatteryInfo};
use crate::devices::enums::DeviceType;
use crate::devices::state::{DeviceState, DeviceStateView};
use crate::text::{decimal_text, joined, joined3, same_text};
use crate::time::{Duration, NANOS_PER_MILLI};
use crate::ui::airpods::{airpods_view, mic_test_row, MicReading, MicUse, TestButton, TestRow};
use crate::ui::choice::option_at;
use crate::ui::format::{find_component, known_level, live_case_level};
use crate::ui::gtk::controls::ControlChange;
use crate::ui::gtk::model::equalizer::EqBand;
use crate::ui::gtk::model::listing::sorted_macs;
use crate::ui::gtk::pages::{picked, picked_mode, slid, switched};
use crate::ui::nothing::{choice, nothing_view};
use crate::ui::page::{
    add_row, add_section, add_switch, no_rows, no_sections, Heading, Item, RowView, Section,
    SectionView,
};
use crate::ui::window::{
    AirPodsChange, App, AppView, ConnectProgress, ConnectProgressView, Message, Tab, TabView,
    MIC_TICK_MILLIS, MIC_WATCH_MILLIS,
};
use crate::utils::{AppSettings, MyTheme, PreferredCodec};
use vstd::prelude::*;

verus! {

/// The mark of a charging battery.
pub const CHARGING_MARK: &'static str = "\u{1002E6}";

/// The text of a battery entry: its level, with a mark while it charges, or
/// "-" when the component is absent or disconnected.
pub open spec fn level_text(info: Option<BatteryInfo>) -> Seq<char> {
    match info {
        Some(b) => match crate::ui::format::level_if_known(b) {
            Some(level) => crate::text::decimal(level as nat) + "%"@ + (if b.status.charges() {
                CHARGING_MARK@
            } else {
                ""@
            }),
            None => "-"@,
        },
        None => "-"@,
    }
}

/// "80%" with a charging mark, or "-" when the component is absent or
/// disconnected.
pub fn battery_text(info: Option<&BatteryInfo>) -> (text: String)
    ensures
        text@ == level_text(
            match info {
                Some(b) => Some(*b),
                None => None,
            },
        ),
{
    match info {
        Some(b) => match known_level(b) {
            Some(level) => {
                let mark = if b.status.is_charging() {
                    CHARGING_MARK
                } else {
                    ""
                };
                joined3(decimal_text(level as u64).as_str(), "%", mark)
            },
            None => "-".to_string(),
        },
        None => "-".to_string(),
    }
}

/// The view of the parts of a battery line.
pub open spec fn parts_view(parts: Seq<(String, bool)>) -> Seq<(Seq<char>, bool)> {
    parts.map_values(|p: (String, bool)| (p.0@, p.1))
}

/// The case of earbuds: the level it reports, or else the last one it
/// reported, which is stale.
pub open spec fn case_part(battery: Seq<BatteryInfo>, last_case: Option<u8>) -> (Seq<char>, bool) {
    if crate::ui::format::case_level(battery) is Some {
        (level_text(crate::ui::format::first_of(battery, BatteryComponent::Case)), false)
    } else {
        match last_case {
            Some(level) => (crate::text::decimal(level as nat) + "%"@, true),
            None => ("-"@, false),
        }
    }
}

/// The sidebar battery line as (text, stale) parts.
pub open spec fn shown_parts(battery: Seq<BatteryInfo>, last_case: Option<u8>) -> Seq<
    (Seq<char>, bool),
> {
    let headphone = crate::ui::format::first_of(battery, BatteryComponent::Headphone);
    if headphone is Some {
        Seq::empty().push(("\u{100EB9} "@ + level_text(headphone), false))
    } else {
        let case = case_part(battery, last_case);
        Seq::empty().push(
            (
                "\u{1018E5} "@ + level_text(
                    crate::ui::format::first_of(battery, BatteryComponent::Left),
                ),
                false,
            ),
        ).push(
            (
                "\u{1018E8} "@ + level_text(
                    crate::ui::format::first_of(battery, BatteryComponent::Right),
                ),
                false,
            ),
        ).push(("\u{100E6C} "@ + case.0, case.1))
    }
}

fn component_text(icon: &str, battery: &[BatteryInfo], component: BatteryComponent) -> (text:
    String)
    ensures
        text@ == icon@ + level_text(crate::ui::format::first_of(battery@, component)),
{
    let level = match find_component(battery, component) {
        Some(info) => battery_text(Some(&info)),
        None => battery_text(None),
    };
    joined(icon, level.as_str())
}

/// The sidebar battery line as (text, stale) parts. Headphones show a single
/// level. For earbuds, a case that cannot report falls back to `last_case`,
/// marked stale so it is drawn dimmed.
pub fn battery_parts(battery: &[BatteryInfo], last_case: Option<u8>) -> (parts: Vec<
    (String, bool),
>)
    ensures
        parts_view(parts@) == shown_parts(battery@, last_case),
{
    let mut parts: Vec<(String, bool)> = Vec::new();
    if find_component(battery, BatteryComponent::Headphone).is_some() {
        parts.push(
            (component_text("\u{100EB9} ", battery, BatteryComponent::Headphone), false),
        );
        proof {
            assert(parts_view(parts@) =~= shown_parts(battery@, last_case));
        }
        return parts;
    }
    parts.push((component_text("\u{1018E5} ", battery, BatteryComponent::Left), false));
    parts.push((component_text("\u{1018E8} ", battery, BatteryComponent::Right), false));
    let case = if live_case_level(battery).is_some() {
        (component_text("\u{100E6C} ", battery, BatteryComponent::Case), false)
    } else {
        match last_case {
            Some(level) => {
                let text = joined(decimal_text(level as u64).as_str(), "%");
                (joined("\u{100E6C} ", text.as_str()), true)
            },
            None => (joined("\u{100E6C} ", "-"), false),
        }
    };
    parts.push(case);
    proof {
        assert(parts_view(parts@) =~= shown_parts(battery@, last_case));
    }
    parts
}

// The sidebar

/// The line under a device in the sidebar.
#[derive(Debug, Clone, PartialEq, Eq)]
pub enum EntryStatus {
    /// The battery, as (text, stale) parts.
    Battery(Vec<(String, bool)>),
    Text(&'static str),
}

/// The mathematical content of an `EntryStatus`.
#[verifier::ext_equal]
pub enum EntryStatusView {
    Battery(Seq<(Seq<char>, bool)>),
    Text(Seq<char>),
}

impl View for EntryStatus {
    type V = EntryStatusView;

    open spec fn view(&self) -> EntryStatusView {
        match *self {
            EntryStatus::Battery(parts) => EntryStatusView::Battery(parts_view(parts@)),
            EntryStatus::Text(text) => EntryStatusView::Text(text@),
        }
    }
}

/// A device in the sidebar. Pressing it selects its tab.
#[derive(Debug, Clone, PartialEq, Eq)]
pub struct SidebarEntry {
    pub mac: String,
    pub label: String,
    pub status: EntryStatus,
    pub selected: bool,
}

/// The mathematical content of a `SidebarEntry`.
#[verifier::ext_equal]
pub struct SidebarEntryView {
    pub mac: Seq<char>,
    pub label: Seq<char>,
    pub status: EntryStatusView,
    pub selected: bool,
}

impl View for SidebarEntry {
    type V = SidebarEntryView;

    open spec fn view(&self) -> SidebarEntryView {
        SidebarEntryView {
            mac: self.mac@,
            label: self.label@,
            status: self.status@,
            selected: self.selected,
        }
    }
}

/// The mathematical content of some entries.
pub open spec fn entries_view(entries: Seq<SidebarEntry>) -> Seq<SidebarEntryView> {
    entries.map_values(|e: SidebarEntry| e@)
}

/// The part of a map that may be missing.
pub open spec fn entry_in<V>(map: Map<Seq<char>, V>, key: Seq<char>) -> Option<V> {
    if map.contains_key(key) {
        Some(map[key])
    } else {
        None
    }
}

impl AppView {
    /// The line under a device in the sidebar.
    pub open spec fn entry_status(self, mac: Seq<char>) -> EntryStatusView {
        if self.connected.contains(mac) {
            match self.airpods_state(mac) {
                Some(state) => EntryStatusView::Battery(
                    shown_parts(state.pods.battery, entry_in(self.last_case_level, mac)),
                ),
                None => EntryStatusView::Text("Connected"@),
            }
        } else {
            EntryStatusView::Text(
                match entry_in(self.connects, mac) {
                    Some(ConnectProgressView::Connecting) => "Connecting…"@,
                    Some(ConnectProgressView::Failed(_)) => "Couldn't connect"@,
                    None => "Not connected"@,
                },
            )
        }
    }

    /// A device in the sidebar.
    pub open spec fn sidebar_entry(self, mac: Seq<char>) -> SidebarEntryView {
        SidebarEntryView {
            mac,
            label: self.devices[mac].name + (if self.connected.contains(mac) {
                " \u{100263}"@
            } else {
                ""@
            }),
            status: self.entry_status(mac),
            selected: self.selected_tab == TabView::Device(mac),
        }
    }

    /// The sidebar: every known device, by name.
    pub open spec fn sidebar(self) -> Seq<SidebarEntryView> {
        crate::ui::gtk::model::listing::listing(self.devices).map_values(
            |mac: Seq<char>| self.sidebar_entry(mac),
        )
    }

    /// Whether an app records from connected AirPods, of those whose
    /// microphone is active.
    pub open spec fn records(self, active: Seq<Seq<char>>) -> bool {
        exists|i: int|
            0 <= i < active.len() && self.airpods_state(#[trigger] active[i]) is Some
    }

    /// Whether AirPods are connected and have reported.
    pub open spec fn has_airpods(self) -> bool {
        exists|mac: Seq<char>| (#[trigger] self.airpods_state(mac)) is Some
    }

    /// How often to redraw for the level meter and the microphone test, in
    /// nanoseconds, or None when nothing on screen moves by itself.
    pub open spec fn tick(self, active: Seq<Seq<char>>) -> Option<nat> {
        // Polled even with the window closed, to notice the recorder hitting
        // its limit.
        if self.test is Recording {
            Some((MIC_TICK_MILLIS * NANOS_PER_MILLI) as nat)
        } else if self.window is None {
            None
        } else if self.test is Ready || self.records(active) {
            Some((MIC_TICK_MILLIS * NANOS_PER_MILLI) as nat)
        } else if self.settings.hires_mic_enabled && self.has_airpods() {
            // Nothing tells the window when an app opens the hi-res
            // microphone, so it watches slowly to bring up the level meter.
            Some((MIC_WATCH_MILLIS * NANOS_PER_MILLI) as nat)
        } else {
            None
        }
    }
}

// The content

/// The managers of the selected device.
#[derive(Debug, Clone, Copy, PartialEq, Eq, Structural)]
pub struct Managers {
    pub aacp: bool,
    pub att: bool,
}

/// A paired device that can be added.
#[derive(Debug, Clone, PartialEq, Eq)]
pub struct AddRow {
    pub name: String,
    pub address: String,
    /// Its type is being chosen.
    pub pending: bool,
}

/// The mathematical content of an `AddRow`.
#[verifier::ext_equal]
pub struct AddRowView {
    pub name: Seq<char>,
    pub address: Seq<char>,
    pub pending: bool,
}

impl View for AddRow {
    type V = AddRowView;

    open spec fn view(&self) -> AddRowView {
        AddRowView { name: self.name@, address: self.address@, pending: self.pending }
    }
}

/// The mathematical content of some rows.
pub open spec fn add_rows_view(rows: Seq<AddRow>) -> Seq<AddRowView> {
    rows.map_values(|r: AddRow| r@)
}

/// The page to add a device on.
#[derive(Debug, Clone, PartialEq, Eq)]
pub struct AddPage {
    pub title: &'static str,
    pub rows: Vec<AddRow>,
    /// The types to choose from.
    pub types: Vec<DeviceType>,
    pub selected: Option<DeviceType>,
    pub note: Option<&'static str>,
}

/// The mathematical content of an `AddPage`.
#[verifier::ext_equal]
pub struct AddPageView {
    pub title: Seq<char>,
    pub rows: Seq<AddRowView>,
    pub types: Seq<DeviceType>,
    pub selected: Option<DeviceType>,
    pub note: Option<Seq<char>>,
}

impl View for AddPage {
    type V = AddPageView;

    open spec fn view(&self) -> AddPageView {
        AddPageView {
            title: self.title@,
            rows: add_rows_view(self.rows@),
            types: self.types@,
            selected: self.selected,
            note: note_view(self.note),
        }
    }
}

/// The page of AirPods that are away.
#[derive(Debug, Clone, PartialEq, Eq)]
pub struct AwayPage {
    pub title: &'static str,
    pub status: String,
    pub button: &'static str,
    pub enabled: bool,
}

/// The mathematical content of an `AwayPage`.
#[verifier::ext_equal]
pub struct AwayPageView {
    pub title: Seq<char>,
    pub status: Seq<char>,
    pub button: Seq<char>,
    pub enabled: bool,
}

impl View for AwayPage {
    type V = AwayPageView;

    open spec fn view(&self) -> AwayPageView {
        AwayPageView {
            title: self.title@,
            status: self.status@,
            button: self.button@,
            enabled: self.enabled,
        }
    }
}

/// The content beside the sidebar.
#[derive(Debug, Clone)]
pub enum Content {
    /// Only a text.
    Text(&'static str),
    AirPods(Vec<Section>),
    Away(AwayPage),
    Nothing(Vec<Section>),
    Settings(Vec<Section>),
    AddDevice(AddPage),
}

/// The mathematical content of a `Content`.
#[verifier::ext_equal]
pub enum ContentView {
    Text(Seq<char>),
    AirPods(Seq<SectionView>),
    Away(AwayPageView),
    Nothing(Seq<SectionView>),
    Settings(Seq<SectionView>),
    AddDevice(AddPageView),
}

impl View for Content {
    type V = ContentView;

    open spec fn view(&self) -> ContentView {
        match *self {
            Content::Text(text) => ContentView::Text(text@),
            Content::AirPods(page) => ContentView::AirPods(
                crate::ui::page::sections_view(page@),
            ),
            Content::Away(page) => ContentView::Away(page@),
            Content::Nothing(page) => ContentView::Nothing(
                crate::ui::page::sections_view(page@),
            ),
            Content::Settings(page) => ContentView::Settings(
                crate::ui::page::sections_view(page@),
            ),
            Content::AddDevice(page) => ContentView::AddDevice(page@),
        }
    }
}

/// A page with one more section, of one row.
pub open spec fn with_row(page: Seq<SectionView>, heading: Heading, row: RowView) -> Seq<
    SectionView,
> {
    crate::ui::page::with_section(page, heading, Seq::empty().push(row))
}

/// The settings page.
pub open spec fn settings_sections(settings: AppSettings) -> Seq<SectionView> {
    let theme = with_row(
        Seq::empty(),
        Heading::Appearance,
        crate::ui::page::row_of(Item::Theme, crate::ui::nothing::choice_of(Some(settings.theme))),
    );
    let tray = with_row(
        theme,
        Heading::Untitled,
        crate::ui::page::switch_row(Item::TrayText, settings.tray_text_mode),
    );
    let stem = with_row(
        tray,
        Heading::Controls,
        crate::ui::page::switch_row(Item::StemControl, settings.stem_control),
    );
    let codec = with_row(
        stem,
        Heading::Untitled,
        crate::ui::page::row_of(
            Item::PreferredCodec,
            crate::ui::nothing::choice_of(Some(settings.preferred_codec)),
        ),
    );
    let auto_switch = with_row(
        codec,
        Heading::Untitled,
        crate::ui::page::switch_row(Item::AutoSwitch, settings.auto_switch_on_playback),
    );
    let reset = with_row(
        auto_switch,
        Heading::Untitled,
        crate::ui::page::switch_row(Item::A2dpReset, settings.a2dp_reset),
    );
    let agc = with_row(
        reset,
        Heading::Untitled,
        crate::ui::page::switch_row(Item::HiResMicAgc, settings.hires_mic_agc),
    );
    with_row(
        agc,
        Heading::Untitled,
        crate::ui::page::switch_row(Item::HiResMicPauseConvo, settings.hires_mic_pause_convo),
    )
}

fn add_switch_section(page: &mut Vec<Section>, heading: Heading, item: Item, on: bool)
    ensures
        crate::ui::page::sections_view(final(page)@) == with_row(
            crate::ui::page::sections_view(old(page)@),
            heading,
            crate::ui::page::switch_row(item, on),
        ),
{
    let mut rows = no_rows();
    add_switch(&mut rows, item, on);
    add_section(page, heading, rows);
}

/// The settings page: appearance, text in the tray, stem presses, codec,
/// automatic switching, the A2DP reset and the hi-res microphone.
pub fn settings_view(settings: &AppSettings) -> (page: Vec<Section>)
    ensures
        crate::ui::page::sections_view(page@) == settings_sections(*settings),
{
    let mut page = no_sections();
    let mut rows = no_rows();
    add_row(&mut rows, Item::Theme, choice(Some(settings.theme)));
    add_section(&mut page, Heading::Appearance, rows);
    add_switch_section(&mut page, Heading::Untitled, Item::TrayText, settings.tray_text_mode);
    add_switch_section(&mut page, Heading::Controls, Item::StemControl, settings.stem_control);
    let mut rows = no_rows();
    add_row(&mut rows, Item::PreferredCodec, choice(Some(settings.preferred_codec)));
    add_section(&mut page, Heading::Untitled, rows);
    add_switch_section(
        &mut page,
        Heading::Untitled,
        Item::AutoSwitch,
        settings.auto_switch_on_playback,
    );
    add_switch_section(&mut page, Heading::Untitled, Item::A2dpReset, settings.a2dp_reset);
    add_switch_section(&mut page, Heading::Untitled, Item::HiResMicAgc, settings.hires_mic_agc);
    add_switch_section(
        &mut page,
        Heading::Untitled,
        Item::HiResMicPauseConvo,
        settings.hires_mic_pause_convo,
    );
    page
}

impl AppView {
    /// The draft of the name of a device.
    pub open spec fn draft_of(self, mac: Seq<char>) -> Option<Seq<char>> {
        match self.draft {
            Some((of, text)) => if of == mac {
                Some(text)
            } else {
                None
            },
            None => None,
        }
    }

    /// The page of AirPods that are away.
    pub open spec fn away_page(self, mac: Seq<char>) -> AwayPageView {
        let connecting = entry_in(self.connects, mac) == Some(ConnectProgressView::Connecting);
        AwayPageView {
            title: "AirPods not connected"@,
            status: match entry_in(self.connects, mac) {
                Some(ConnectProgressView::Connecting) => "Connecting…"@,
                Some(ConnectProgressView::Failed(e)) => e,
                None => "Not connected to this PC. If they are on your phone, connecting here takes them over."@,
            },
            button: if connecting {
                "Connecting…"@
            } else {
                "Connect to this PC"@
            },
            enabled: !connecting,
        }
    }

    /// The page of AirPods.
    pub open spec fn airpods_content(
        self,
        mac: Seq<char>,
        managers: Option<Managers>,
        mic: MicUse,
    ) -> ContentView {
        let managed = managers matches Some(m) && m.aacp;
        match self.airpods_state(mac) {
            Some(state) if managed => ContentView::AirPods(
                crate::ui::airpods::airpods_page(
                    state,
                    entry_in(self.devices, mac),
                    self.draft_of(mac),
                    self.settings.hires_mic_pause_convo,
                    mic,
                ),
            ),
            _ => if self.connected.contains(mac) {
                ContentView::Text("Waiting for the AirPods to report their state…"@)
            } else {
                ContentView::Away(self.away_page(mac))
            },
        }
    }

    /// The page of a Nothing device.
    pub open spec fn nothing_content(self, mac: Seq<char>, managers: Option<Managers>) -> ContentView {
        match entry_in(self.states, mac) {
            Some(DeviceStateView::Nothing(mode)) => match managers {
                Some(m) => if m.att {
                    ContentView::Nothing(
                        crate::ui::nothing::nothing_page(entry_in(self.devices, mac), mode),
                    )
                } else {
                    ContentView::Text("No valid ATT manager found for this Nothing device"@)
                },
                None => ContentView::Text("No manager found for this Nothing device"@),
            },
            _ => ContentView::Text("No state available for this Nothing device"@),
        }
    }

    /// The page of a device.
    pub open spec fn device_content(
        self,
        mac: Seq<char>,
        managers: Option<Managers>,
        mic: MicUse,
    ) -> ContentView {
        if mac == "none"@ {
            ContentView::Text("Select a device"@)
        } else if !self.devices.contains_key(mac) {
            ContentView::Text("Unsupported device"@)
        } else {
            match self.devices[mac].type_ {
                DeviceType::AirPods => self.airpods_content(mac, managers, mic),
                DeviceType::Nothing => self.nothing_content(mac, managers),
            }
        }
    }

    /// Whether this is the content beside the sidebar. The rows of the page to
    /// add a device on have no order of their own.
    pub open spec fn shows(
        self,
        content: ContentView,
        managers: Option<Managers>,
        mic: MicUse,
    ) -> bool {
        match self.selected_tab {
            TabView::Device(mac) => content == self.device_content(mac, managers, mic),
            TabView::Settings => content == ContentView::Settings(settings_sections(self.settings)),
            TabView::AddDevice => content matches ContentView::AddDevice(page) && self.is_add_page(
                page,
            ),
        }
    }

    /// Whether a paired device can be added: it is not known yet.
    pub open spec fn addable(self, name: Seq<char>) -> bool {
        self.paired.contains_key(name) && !self.devices.contains_key(self.paired[name])
    }

    /// The row of a paired device.
    pub open spec fn add_row(self, name: Seq<char>) -> AddRowView {
        AddRowView {
            name,
            address: self.paired[name],
            pending: self.pending matches Some((_, address)) && address == self.paired[name],
        }
    }

    /// Whether rows show every paired device that can be added, each once.
    pub open spec fn are_add_rows(self, rows: Seq<AddRowView>) -> bool {
        &&& forall|i: int|
            0 <= i < rows.len() ==> self.addable((#[trigger] rows[i]).name) && rows[i]
                == self.add_row(rows[i].name)
        &&& forall|i: int, j: int|
            0 <= i < j < rows.len() ==> (#[trigger] rows[i]).name != (#[trigger] rows[j]).name
        &&& forall|name: Seq<char>| #[trigger]
            self.addable(name) ==> rows.contains(self.add_row(name))
    }

    /// Whether nothing is left to add.
    pub open spec fn all_added(self) -> bool {
        (forall|name: Seq<char>| !#[trigger] self.addable(name)) && self.pending is None
    }

    /// Whether this is the page to add a device on.
    pub open spec fn is_add_page(self, page: AddPageView) -> bool {
        &&& page.title == "Pick a paired device to add:"@
        &&& self.are_add_rows(page.rows)
        &&& page.types == seq![DeviceType::Nothing]
        &&& page.selected == self.selected_type
        &&& page.note == (if self.all_added() {
            Some("No new paired devices found. All paired devices are already added."@)
        } else {
            None
        })
    }
}

/// The view of a note that may be missing.
pub open spec fn note_view(note: Option<&'static str>) -> Option<Seq<char>> {
    match note {
        Some(n) => Some(n@),
        None => None,
    }
}

impl App {
    fn is_connecting(&self, mac: &str) -> (yes: bool)
        requires
            self.wf(),
        ensures
            yes == (entry_in(self@.connects, mac@) == Some(ConnectProgressView::Connecting)),
    {
        match self.connect_status.get(mac) {
            Some(ConnectProgress::Connecting) => true,
            _ => false,
        }
    }

    fn entry_status(&self, mac: &str) -> (status: EntryStatus)
        requires
            self.wf(),
        ensures
            status@ == self@.entry_status(mac@),
    {
        if self.bluetooth_state.contains(mac) {
            match self.device_states.get(mac) {
                Some(DeviceState::AirPods(state)) => {
                    let last_case: Option<u8> = match self.last_case_level.get(mac) {
                        Some(level) => Some(*level),
                        None => None,
                    };
                    EntryStatus::Battery(
                        battery_parts(state.pods.battery.as_slice(), last_case),
                    )
                },
                _ => EntryStatus::Text("Connected"),
            }
        } else {
            match self.connect_status.get(mac) {
                Some(ConnectProgress::Connecting) => EntryStatus::Text("Connecting…"),
                Some(ConnectProgress::Failed(_)) => EntryStatus::Text("Couldn't connect"),
                None => EntryStatus::Text("Not connected"),
            }
        }
    }

    fn sidebar_entry(&self, mac: String) -> (entry: SidebarEntry)
        requires
            self.wf(),
            self@.devices.contains_key(mac@),
        ensures
            entry@ == self@.sidebar_entry(mac@),
    {
        let mark = if self.bluetooth_state.contains(mac.as_str()) {
            " \u{100263}"
        } else {
            ""
        };
        let label = match self.devices.get(mac.as_str()) {
            Some(device) => joined(device.name.as_str(), mark),
            None => "".to_string(),
        };
        let status = self.entry_status(mac.as_str());
        let selected = self.selected_tab.is_device(mac.as_str());
        SidebarEntry { mac, label, status, selected }
    }

    /// The sidebar: every known device, by name.
    pub fn sidebar(&self) -> (entries: Vec<SidebarEntry>)
        requires
            self.wf(),
        ensures
            entries_view(entries@) == self@.sidebar(),
    {
        let macs = sorted_macs(&self.devices);
        let ghost all = crate::ui::gtk::model::listing::listing(self@.devices);
        let mut entries: Vec<SidebarEntry> = Vec::new();
        let mut i: usize = 0;
        while i < macs.len()
            invariant
                self.wf(),
                i <= macs@.len(),
                all == crate::text::texts(macs@),
                forall|k: Seq<char>| #[trigger] all.contains(k) ==> self@.devices.contains_key(k),
                entries@.len() == i,
                forall|j: int|
                    0 <= j < i ==> (#[trigger] entries@[j])@ == self@.sidebar_entry(all[j]),
            decreases macs@.len() - i,
        {
            proof {
                assert(all[i as int] == macs@[i as int]@);
                assert(all.contains(all[i as int]));
            }
            entries.push(self.sidebar_entry(macs[i].clone()));
            i = i + 1;
        }
        proof {
            assert(entries_view(entries@) =~= self@.sidebar());
        }
        entries
    }

    /// Whether the settings are selected.
    pub fn settings_selected(&self) -> (selected: bool)
        ensures
            selected == (self@.selected_tab is Settings),
    {
        match &self.selected_tab {
            Tab::Settings => true,
            _ => false,
        }
    }

    /// The page of AirPods that are away: why, and a button to connect them.
    fn disconnected_view(&self, mac: &str) -> (page: AwayPage)
        requires
            self.wf(),
        ensures
            page@ == self@.away_page(mac@),
    {
        let connecting = self.is_connecting(mac);
        let status = match self.connect_status.get(mac) {
            Some(ConnectProgress::Connecting) => "Connecting…".to_string(),
            Some(ConnectProgress::Failed(e)) => e.clone(),
            None => "Not connected to this PC. If they are on your phone, connecting here takes them over.".to_string(),
        };
        AwayPage {
            title: "AirPods not connected",
            status,
            button: if connecting {
                "Connecting…"
            } else {
                "Connect to this PC"
            },
            enabled: !connecting,
        }
    }

    fn draft_of(&self, mac: &str) -> (draft: Option<&str>)
        ensures
            crate::ui::airpods::draft_view(draft) == self@.draft_of(mac@),
    {
        match &self.name_draft {
            Some((of, text)) => if same_text(of.as_str(), mac) {
                Some(text.as_str())
            } else {
                None
            },
            None => None,
        }
    }

    fn airpods_content(&self, mac: &str, managers: Option<Managers>, mic: &MicUse) -> (content:
        Content)
        requires
            self.wf(),
        ensures
            content@ == self@.airpods_content(mac@, managers, *mic),
    {
        let managed = match managers {
            Some(m) => m.aacp,
            None => false,
        };
        match self.device_states.get(mac) {
            Some(DeviceState::AirPods(state)) => {
                if managed {
                    let device = self.devices.get(mac);
                    proof {
                        assert(crate::ui::nothing::device_view(device) == entry_in(
                            self@.devices,
                            mac@,
                        ));
                    }
                    return Content::AirPods(
                        airpods_view(
                            state,
                            device,
                            self.draft_of(mac),
                            self.settings.hires_mic_pause_convo,
                            mic,
                        ),
                    );
                }
            },
            _ => {},
        }
        if self.bluetooth_state.contains(mac) {
            Content::Text("Waiting for the AirPods to report their state…")
        } else {
            Content::Away(self.disconnected_view(mac))
        }
    }

    fn nothing_content(&self, mac: &str, managers: Option<Managers>) -> (content: Content)
        requires
            self.wf(),
        ensures
            content@ == self@.nothing_content(mac@, managers),
    {
        match self.device_states.get(mac) {
            Some(DeviceState::Nothing(state)) => match managers {
                Some(m) => if m.att {
                    let device = self.devices.get(mac);
                    proof {
                        assert(crate::ui::nothing::device_view(device) == entry_in(
                            self@.devices,
                            mac@,
                        ));
                    }
                    Content::Nothing(nothing_view(device, state.anc_mode))
                } else {
                    Content::Text("No valid ATT manager found for this Nothing device")
                },
                None => Content::Text("No manager found for this Nothing device"),
            },
            _ => Content::Text("No state available for this Nothing device"),
        }
    }

    /// The content beside the sidebar, for the managers of the selected device
    /// and what its microphone does.
    pub fn content(&self, managers: Option<Managers>, mic: &MicUse) -> (content: Content)
        requires
            self.wf(),
        ensures
            self@.shows(content@, managers, *mic),
    {
        match &self.selected_tab {
            Tab::Device(mac) => {
                if same_text(mac.as_str(), "none") {
                    return Content::Text("Select a device");
                }
                match self.devices.get(mac.as_str()) {
                    Some(device) => match device.type_ {
                        DeviceType::AirPods => self.airpods_content(mac.as_str(), managers, mic),
                        DeviceType::Nothing => self.nothing_content(mac.as_str(), managers),
                    },
                    None => Content::Text("Unsupported device"),
                }
            },
            Tab::Settings => Content::Settings(settings_view(&self.settings)),
            Tab::AddDevice => Content::AddDevice(self.add_page()),
        }
    }

    fn is_pending(&self, address: &str) -> (yes: bool)
        ensures
            yes == (self@.pending matches Some((_, pending)) && pending == address@),
    {
        match &self.pending_add_device {
            Some((_, pending)) => same_text(pending.as_str(), address),
            None => false,
        }
    }

    fn add_rows(&self) -> (rows: Vec<AddRow>)
        requires
            self.wf(),
        ensures
            self@.are_add_rows(add_rows_view(rows@)),
    {
        let mut rows: Vec<AddRow> = Vec::new();
        let ghost names = self.paired_devices.addresses();
        let mut i: usize = 0;
        proof {
            self.paired_devices.lemma_addresses();
            assert(add_rows_view(rows@) =~= Seq::<AddRowView>::empty());
        }
        while i < self.paired_devices.len()
            invariant
                self.wf(),
                names == self.paired_devices.addresses(),
                names.no_duplicates(),
                i <= names.len(),
                forall|j: int|
                    0 <= j < add_rows_view(rows@).len() ==> {
                        let row = #[trigger] add_rows_view(rows@)[j];
                        self@.addable(row.name) && row == self@.add_row(row.name)
                            && names.take(i as int).contains(row.name)
                    },
                forall|j: int, k: int|
                    0 <= j < k < add_rows_view(rows@).len() ==> (#[trigger] add_rows_view(
                        rows@,
                    )[j]).name != (#[trigger] add_rows_view(rows@)[k]).name,
                forall|j: int|
                    0 <= j < i && self@.addable(#[trigger] names[j]) ==> add_rows_view(
                        rows@,
                    ).contains(self@.add_row(names[j])),
            decreases names.len() - i,
        {
            let ghost before = add_rows_view(rows@);
            let name = self.paired_devices.address_at(i).clone();
            let address = self.paired_devices.value_at(i).clone();
            let ghost added = name@;
            let known = self.devices.contains_key(address.as_str());
            proof {
                assert(names.take(i + 1) =~= names.take(i as int).push(added));
                assert(!names.take(i as int).contains(added)) by {
                    if names.take(i as int).contains(added) {
                        let k = choose|k: int|
                            0 <= k < names.take(i as int).len() && names.take(i as int)[k]
                                == added;
                        assert(names[k] == names[i as int]);
                    }
                }
                assert forall|n: Seq<char>| #[trigger]
                    names.take(i as int).contains(n) implies names.take(i + 1).contains(n) by {
                    let k = choose|k: int|
                        0 <= k < names.take(i as int).len() && names.take(i as int)[k] == n;
                    assert(names.take(i + 1)[k] == n);
                }
                assert(names.take(i + 1)[i as int] == added);
            }
            if !known {
                let pending = self.is_pending(address.as_str());
                rows.push(AddRow { name, address, pending });
                proof {
                    let now = add_rows_view(rows@);
                    assert(now =~= before.push(self@.add_row(added)));
                    assert forall|j: int| 0 <= j < now.len() implies ({
                        let row = #[trigger] now[j];
                        self@.addable(row.name) && row == self@.add_row(row.name) && names.take(
                            i + 1,
                        ).contains(row.name)
                    }) by {
                        if j < before.len() {
                            assert(before[j] == now[j]);
                        }
                    }
                    assert forall|j: int, k: int| 0 <= j < k < now.len() implies (
                    #[trigger] now[j]).name != (#[trigger] now[k]).name by {
                        assert(before[j] == now[j]);
                        if k < before.len() {
                            assert(before[k] == now[k]);
                        }
                    }
                    assert(now[before.len() as int] == self@.add_row(added));
                    assert forall|j: int|
                        0 <= j < i + 1 && self@.addable(#[trigger] names[j]) implies now.contains(
                        self@.add_row(names[j]),
                    ) by {
                        if j < i {
                            assert(before.contains(self@.add_row(names[j])));
                            let k = choose|k: int|
                                0 <= k < before.len() && before[k] == self@.add_row(names[j]);
                            assert(now[k] == self@.add_row(names[j]));
                        }
                    }
                }
            } else {
                proof {
                    assert(!self@.addable(added));
                }
            }
            i = i + 1;
        }
        proof {
            assert forall|name: Seq<char>| #[trigger]
                self@.addable(name) implies add_rows_view(rows@).contains(self@.add_row(name)) by {
                assert(names.contains(name));
                let k = choose|k: int| 0 <= k < names.len() && names[k] == name;
                assert(self@.addable(names[k]));
            }
        }
        rows
    }

    /// The page to add a device on: the paired devices that are not known yet.
    fn add_page(&self) -> (page: AddPage)
        requires
            self.wf(),
        ensures
            self@.is_add_page(page@),
    {
        let rows = self.add_rows();
        let types: Vec<DeviceType> = vec![DeviceType::Nothing];
        proof {
            assert(types@ =~= seq![DeviceType::Nothing]);
            let shown = add_rows_view(rows@);
            if shown.len() == 0 {
                assert forall|name: Seq<char>| !#[trigger] self@.addable(name) by {
                    if self@.addable(name) {
                        assert(shown.contains(self@.add_row(name)));
                    }
                }
            } else {
                assert(self@.addable(shown[0].name));
            }
        }
        let note = if rows.len() == 0 && self.pending_add_device.is_none() {
            Some("No new paired devices found. All paired devices are already added.")
        } else {
            None
        };
        AddPage {
            title: "Pick a paired device to add:",
            rows,
            types,
            selected: self.selected_device_type,
            note,
        }
    }

    fn has_airpods_state(&self, mac: &str) -> (yes: bool)
        requires
            self.wf(),
        ensures
            yes == (self@.airpods_state(mac@) is Some),
    {
        match self.device_states.get(mac) {
            Some(DeviceState::AirPods(_)) => true,
            _ => false,
        }
    }

    /// Whether an app records from connected AirPods, of those whose
    /// microphone is active.
    fn airpods_mic_active(&self, active: &Vec<String>) -> (yes: bool)
        requires
            self.wf(),
        ensures
            yes == self@.records(crate::text::texts(active@)),
    {
        let ghost all = crate::text::texts(active@);
        let mut i: usize = 0;
        while i < active.len()
            invariant
                self.wf(),
                i <= active@.len(),
                all == crate::text::texts(active@),
                forall|j: int| 0 <= j < i ==> self@.airpods_state(#[trigger] all[j]) is None,
            decreases active@.len() - i,
        {
            proof {
                assert(all[i as int] == active@[i as int]@);
            }
            if self.has_airpods_state(active[i].as_str()) {
                return true;
            }
            i = i + 1;
        }
        false
    }

    fn any_airpods(&self) -> (yes: bool)
        requires
            self.wf(),
        ensures
            yes == self@.has_airpods(),
    {
        let ghost macs = self.device_states.addresses();
        let mut i: usize = 0;
        proof {
            self.device_states.lemma_addresses();
        }
        while i < self.device_states.len()
            invariant
                self.wf(),
                macs == self.device_states.addresses(),
                i <= macs.len(),
                forall|j: int| 0 <= j < i ==> self@.airpods_state(#[trigger] macs[j]) is None,
            decreases macs.len() - i,
        {
            if self.has_airpods_state(self.device_states.address_at(i).as_str()) {
                proof {
                    assert(self@.airpods_state(macs[i as int]) is Some);
                }
                return true;
            }
            i = i + 1;
        }
        proof {
            assert forall|mac: Seq<char>| (#[trigger] self@.airpods_state(mac)) is None by {
                if self@.states.contains_key(mac) {
                    assert(macs.contains(mac));
                    let k = choose|k: int| 0 <= k < macs.len() && macs[k] == mac;
                    assert(self@.airpods_state(macs[k]) is None);
                }
            }
        }
        false
    }

    /// How often to redraw for the level meter and the microphone test, or
    /// None when nothing on screen moves by itself. `active` are the devices
    /// whose microphone is in use.
    pub fn tick_interval(&self, active: &Vec<String>) -> (interval: Option<Duration>)
        requires
            self.wf(),
        ensures
            self@.tick(crate::text::texts(active@)) == (match interval {
                Some(d) => Some(d@),
                None => None,
            }),
    {
        if self.mic_test.is_recording() {
            return Some(Duration::from_millis(MIC_TICK_MILLIS));
        }
        if self.window.is_none() {
            return None;
        }
        if self.mic_test.is_ready() || self.airpods_mic_active(active) {
            return Some(Duration::from_millis(MIC_TICK_MILLIS));
        }
        if self.settings.hires_mic_enabled && self.any_airpods() {
            Some(Duration::from_millis(MIC_WATCH_MILLIS))
        } else {
            None
        }
    }
}

// What a change on a page means

/// What setting a switch of the AirPods page changes.
pub open spec fn switch_on_page(item: Item, on: bool) -> Option<AirPodsChange> {
    match item {
        Item::PersonalizedVolume => Some(AirPodsChange::PersonalizedVolume(on)),
        Item::ConversationAwareness => Some(AirPodsChange::ConversationAwareness(on)),
        Item::OffListeningMode => Some(AirPodsChange::AllowOff(on)),
        Item::HiResMicrophone => Some(AirPodsChange::HiResMic(on)),
        Item::CustomEq => Some(AirPodsChange::EqEnabled(on)),
        _ => match crate::ui::gtk::pages::switch_change(item, on) {
            Some(change) => Some(AirPodsChange::Setting(change)),
            None => None,
        },
    }
}

/// What setting a switch of the AirPods page changes.
pub fn page_switched(item: Item, on: bool) -> (change: Option<AirPodsChange>)
    ensures
        change == switch_on_page(item, on),
{
    match item {
        Item::PersonalizedVolume => Some(AirPodsChange::PersonalizedVolume(on)),
        Item::ConversationAwareness => Some(AirPodsChange::ConversationAwareness(on)),
        Item::OffListeningMode => Some(AirPodsChange::AllowOff(on)),
        Item::HiResMicrophone => Some(AirPodsChange::HiResMic(on)),
        Item::CustomEq => Some(AirPodsChange::EqEnabled(on)),
        _ => match switched(item, on) {
            Some(change) => Some(AirPodsChange::Setting(change)),
            None => None,
        },
    }
}

/// What moving a slider of the AirPods page changes.
pub open spec fn slide_on_page(item: Item, value: u8) -> Option<AirPodsChange> {
    match item {
        Item::LowBand => Some(AirPodsChange::EqBand(EqBand::Low, value)),
        Item::MidBand => Some(AirPodsChange::EqBand(EqBand::Mid, value)),
        Item::HighBand => Some(AirPodsChange::EqBand(EqBand::High, value)),
        _ => match crate::ui::gtk::pages::slide_change(item, value) {
            Some(change) => Some(AirPodsChange::Setting(change)),
            None => None,
        },
    }
}

/// What moving a slider of the AirPods page changes.
pub fn page_slid(item: Item, value: u8) -> (change: Option<AirPodsChange>)
    ensures
        change == (match item {
            Item::LowBand => Some(AirPodsChange::EqBand(EqBand::Low, value)),
            Item::MidBand => Some(AirPodsChange::EqBand(EqBand::Mid, value)),
            Item::HighBand => Some(AirPodsChange::EqBand(EqBand::High, value)),
            Item::ToneVolume => Some(AirPodsChange::Setting(ControlChange::ToneVolume(value))),
            Item::AdaptiveAudio => Some(
                AirPodsChange::Setting(ControlChange::AdaptiveNoise(value)),
            ),
            _ => None,
        }),
        change == slide_on_page(item, value),
{
    match item {
        Item::LowBand => Some(AirPodsChange::EqBand(EqBand::Low, value)),
        Item::MidBand => Some(AirPodsChange::EqBand(EqBand::Mid, value)),
        Item::HighBand => Some(AirPodsChange::EqBand(EqBand::High, value)),
        _ => match slid(item, value) {
            Some(change) => Some(AirPodsChange::Setting(change)),
            None => None,
        },
    }
}

impl AppView {
    /// What picking an option of the AirPods page changes: a listening mode
    /// among those its AirPods offer, or a setting.
    pub open spec fn pick_on_page(self, mac: Seq<char>, item: Item, at: usize) -> Option<
        AirPodsChange,
    > {
        match item {
            Item::ListeningMode => match self.airpods_state(mac) {
                Some(state) => if at < state.pods.offered_modes().len() {
                    Some(AirPodsChange::ListeningMode(state.pods.offered_modes()[at as int]))
                } else {
                    None
                },
                None => None,
            },
            _ => match crate::ui::gtk::pages::pick_change(item, at) {
                Some(change) => Some(AirPodsChange::Setting(change)),
                None => None,
            },
        }
    }
}

impl App {
    /// What picking an option of the AirPods page changes.
    pub fn page_picked(&self, mac: &str, item: Item, at: usize) -> (change: Option<AirPodsChange>)
        requires
            self.wf(),
        ensures
            change == self@.pick_on_page(mac@, item, at),
    {
        match item {
            Item::ListeningMode => match self.device_states.get(mac) {
                Some(DeviceState::AirPods(state)) => match picked_mode(&state.pods, at) {
                    Some(mode) => Some(AirPodsChange::ListeningMode(mode)),
                    None => None,
                },
                _ => None,
            },
            _ => match picked(item, at) {
                Some(change) => Some(AirPodsChange::Setting(change)),
                None => None,
            },
        }
    }
}

/// What setting a switch of the settings page says.
pub open spec fn setting_message(item: Item, on: bool) -> Option<Message> {
    match item {
        Item::TrayText => Some(Message::TrayTextModeChanged(on)),
        Item::StemControl => Some(Message::StemControlChanged(on)),
        Item::AutoSwitch => Some(Message::AutoSwitchChanged(on)),
        Item::A2dpReset => Some(Message::A2dpResetChanged(on)),
        Item::HiResMicAgc => Some(Message::HiResMicAgcChanged(on)),
        Item::HiResMicPauseConvo => Some(Message::HiResMicPauseConvoChanged(on)),
        _ => None,
    }
}

/// What setting a switch of the settings page says.
pub fn setting_switched(item: Item, on: bool) -> (message: Option<Message>)
    ensures
        message == (match item {
            Item::TrayText => Some(Message::TrayTextModeChanged(on)),
            Item::StemControl => Some(Message::StemControlChanged(on)),
            Item::AutoSwitch => Some(Message::AutoSwitchChanged(on)),
            Item::A2dpReset => Some(Message::A2dpResetChanged(on)),
            Item::HiResMicAgc => Some(Message::HiResMicAgcChanged(on)),
            Item::HiResMicPauseConvo => Some(Message::HiResMicPauseConvoChanged(on)),
            _ => None,
        }),
        message == setting_message(item, on),
{
    match item {
        Item::TrayText => Some(Message::TrayTextModeChanged(on)),
        Item::StemControl => Some(Message::StemControlChanged(on)),
        Item::AutoSwitch => Some(Message::AutoSwitchChanged(on)),
        Item::A2dpReset => Some(Message::A2dpResetChanged(on)),
        Item::HiResMicAgc => Some(Message::HiResMicAgcChanged(on)),
        Item::HiResMicPauseConvo => Some(Message::HiResMicPauseConvoChanged(on)),
        _ => None,
    }
}

/// What picking an option of the settings page says.
pub open spec fn option_message(item: Item, at: usize) -> Option<Message> {
    match item {
        Item::Theme => match crate::ui::gtk::pages::nth::<MyTheme>(at) {
            Some(theme) => Some(Message::ThemeSelected(theme)),
            None => None,
        },
        Item::PreferredCodec => match crate::ui::gtk::pages::nth::<PreferredCodec>(at) {
            Some(codec) => Some(Message::PreferredCodecChanged(codec)),
            None => None,
        },
        _ => None,
    }
}

/// What picking an option of the settings page says.
pub fn setting_picked(item: Item, at: usize) -> (message: Option<Message>)
    ensures
        message == (match item {
            Item::Theme => match crate::ui::gtk::pages::nth::<MyTheme>(at) {
                Some(theme) => Some(Message::ThemeSelected(theme)),
                None => None,
            },
            Item::PreferredCodec => match crate::ui::gtk::pages::nth::<PreferredCodec>(at) {
                Some(codec) => Some(Message::PreferredCodecChanged(codec)),
                None => None,
            },
            _ => None,
        }),
        message == option_message(item, at),
{
    match item {
        Item::Theme => match option_at::<MyTheme>(at) {
            Some(theme) => Some(Message::ThemeSelected(theme)),
            None => None,
        },
        Item::PreferredCodec => match option_at::<PreferredCodec>(at) {
            Some(codec) => Some(Message::PreferredCodecChanged(codec)),
            None => None,
        },
        _ => None,
    }
}

/// What a button of the microphone test says, for where the player is and
/// how long the take is.
pub open spec fn button_message(button: TestButton, position: Duration, duration: Duration) -> Message {
    match button {
        TestButton::Record => Message::MicTestRecord,
        TestButton::RecordAgain => Message::MicTestRecord,
        TestButton::Stop => Message::MicTestStop,
        TestButton::Back => Message::MicTestSkip { forward: false, position, duration },
        TestButton::Forward => Message::MicTestSkip { forward: true, position, duration },
        TestButton::Play => Message::MicTestPlay,
        TestButton::Pause => Message::MicTestPause,
        TestButton::Done => Message::MicTestDone,
    }
}

/// What a button of the microphone test says, for where the player is and
/// how long the take is.
pub fn test_pressed(button: TestButton, position: Duration, duration: Duration) -> (message:
    Message)
    ensures
        message == (match button {
            TestButton::Record => Message::MicTestRecord,
            TestButton::RecordAgain => Message::MicTestRecord,
            TestButton::Stop => Message::MicTestStop,
            TestButton::Back => Message::MicTestSkip { forward: false, position, duration },
            TestButton::Forward => Message::MicTestSkip { forward: true, position, duration },
            TestButton::Play => Message::MicTestPlay,
            TestButton::Pause => Message::MicTestPause,
            TestButton::Done => Message::MicTestDone,
        }),
        message == button_message(button, position, duration),
{
    match button {
        TestButton::Record | TestButton::RecordAgain => Message::MicTestRecord,
        TestButton::Stop => Message::MicTestStop,
        TestButton::Back => Message::MicTestSkip { forward: false, position, duration },
        TestButton::Forward => Message::MicTestSkip { forward: true, position, duration },
        TestButton::Play => Message::MicTestPlay,
        TestButton::Pause => Message::MicTestPause,
        TestButton::Done => Message::MicTestDone,
    }
}

impl App {
    /// What the microphone test shows, for what the recorder and the player
    /// say.
    pub fn test_row(&self, reading: &MicReading) -> (row: TestRow)
        ensures
            row@ == crate::ui::airpods::shown_test(self@.test, *reading),
    {
        mic_test_row(&self.mic_test, reading)
    }

    /// The address of the device whose tab is selected.
    pub fn selected_device(&self) -> (mac: Option<&str>)
        ensures
            match mac {
                Some(m) => self@.selected_tab == TabView::Device(m@),
                None => !(self@.selected_tab is Device),
            },
    {
        match &self.selected_tab {
            Tab::Device(mac) => Some(mac.as_str()),
            _ => None,
        }
    }
}

} // verus!
