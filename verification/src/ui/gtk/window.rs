//! What the GNOME window and its sidebar show, before any widget is touched.

use crate::text::{joined, same_text};
use crate::ui::gtk::battery::{Batteries, Level};
use crate::ui::gtk::model::{
    Content, ContentView, Model, ModelView, Selection, SelectionView, SidebarEntry,
};
use vstd::prelude::*;

verus! {

/// Application id; also the .desktop file name and the window icon name.
pub const APP_ID: &'static str = "me.kavishdevar.librepods";

/// A page of the stack.
#[derive(Debug, Clone, Copy, PartialEq, Eq, Structural)]
pub enum PageName {
    AirPods,
    Disconnected,
    Nothing,
    Settings,
    /// The placeholder for the pages that are only a message.
    Status,
}

impl PageName {
    /// The name of the page in the stack.
    pub open spec fn in_stack(self) -> Seq<char> {
        match self {
            PageName::AirPods => "airpods"@,
            PageName::Disconnected => "disconnected"@,
            PageName::Nothing => "nothing"@,
            PageName::Settings => "settings"@,
            PageName::Status => "status"@,
        }
    }

    /// The name of the page in the stack.
    pub fn name(self) -> (name: &'static str)
        ensures
            name@ == self.in_stack(),
    {
        match self {
            PageName::AirPods => "airpods",
            PageName::Disconnected => "disconnected",
            PageName::Nothing => "nothing",
            PageName::Settings => "settings",
            PageName::Status => "status",
        }
    }
}

/// A page that is only a message.
#[derive(Debug, Clone, Copy, PartialEq, Eq)]
pub struct StatusText {
    pub icon: &'static str,
    pub title: &'static str,
    pub description: &'static str,
}

/// The mathematical content of a `StatusText`.
#[verifier::ext_equal]
pub struct StatusTextView {
    pub icon: Seq<char>,
    pub title: Seq<char>,
    pub description: Seq<char>,
}

impl View for StatusText {
    type V = StatusTextView;

    open spec fn view(&self) -> StatusTextView {
        StatusTextView {
            icon: self.icon@,
            title: self.title@,
            description: self.description@,
        }
    }
}

/// The page the window shows, and its title.
#[derive(Debug, Clone, PartialEq, Eq)]
pub struct Shown {
    pub page: PageName,
    pub title: String,
    /// The message of a page that is only one.
    pub status: Option<StatusText>,
}

/// The mathematical content of a `Shown`.
#[verifier::ext_equal]
pub struct ShownView {
    pub page: PageName,
    pub title: Seq<char>,
    pub status: Option<StatusTextView>,
}

impl View for Shown {
    type V = ShownView;

    open spec fn view(&self) -> ShownView {
        ShownView {
            page: self.page,
            title: self.title@,
            status: match self.status {
                Some(s) => Some(s@),
                None => None,
            },
        }
    }
}

/// The message of a page that is only one.
pub open spec fn status_of(content: ContentView) -> Option<StatusTextView> {
    match content {
        ContentView::Empty => Some(
            StatusTextView {
                icon: "bluetooth-symbolic"@,
                title: "No devices"@,
                description: "Connect your AirPods to this PC once to add them here."@,
            },
        ),
        ContentView::Waiting(_) => Some(
            StatusTextView {
                icon: "audio-headphones-symbolic"@,
                title: "Connected"@,
                description: "Waiting for the device to report its state…"@,
            },
        ),
        ContentView::Unavailable(_) => Some(
            StatusTextView {
                icon: "audio-headphones-symbolic"@,
                title: "Not connected"@,
                description: "Connect the device to this PC from the Bluetooth settings."@,
            },
        ),
        _ => None,
    }
}

impl ModelView {
    /// The page the window shows, and its title: the name of the device it
    /// is about.
    pub open spec fn shown_page(self) -> ShownView {
        let content = self.shown_content();
        ShownView {
            page: match content {
                ContentView::Empty => PageName::Status,
                ContentView::Settings => PageName::Settings,
                ContentView::AirPods(_) => PageName::AirPods,
                ContentView::Waiting(_) => PageName::Status,
                ContentView::Disconnected(_) => PageName::Disconnected,
                ContentView::Nothing(_) => PageName::Nothing,
                ContentView::Unavailable(_) => PageName::Status,
            },
            title: match content {
                ContentView::Empty => ""@,
                ContentView::Settings => "Settings"@,
                ContentView::AirPods(mac) => self.shown_title(mac),
                ContentView::Waiting(mac) => self.shown_title(mac),
                ContentView::Disconnected(mac) => self.shown_title(mac),
                ContentView::Nothing(mac) => self.shown_title(mac),
                ContentView::Unavailable(mac) => self.shown_title(mac),
            },
            status: status_of(content),
        }
    }
}

impl Model {
    /// The page the window shows, and its title.
    pub fn shown(&self) -> (shown: Shown)
        requires
            self.parts_wf(),
        ensures
            shown@ == self@.shown_page(),
    {
        match self.content() {
            Content::Empty => Shown {
                page: PageName::Status,
                title: "".to_string(),
                status: Some(
                    StatusText {
                        icon: "bluetooth-symbolic",
                        title: "No devices",
                        description: "Connect your AirPods to this PC once to add them here.",
                    },
                ),
            },
            Content::Settings => Shown {
                page: PageName::Settings,
                title: "Settings".to_string(),
                status: None,
            },
            Content::AirPods(mac) => Shown {
                page: PageName::AirPods,
                title: self.title(mac.as_str()).to_string(),
                status: None,
            },
            Content::Waiting(mac) => Shown {
                page: PageName::Status,
                title: self.title(mac.as_str()).to_string(),
                status: Some(
                    StatusText {
                        icon: "audio-headphones-symbolic",
                        title: "Connected",
                        description: "Waiting for the device to report its state…",
                    },
                ),
            },
            Content::Disconnected(mac) => Shown {
                page: PageName::Disconnected,
                title: self.title(mac.as_str()).to_string(),
                status: None,
            },
            Content::Nothing(mac) => Shown {
                page: PageName::Nothing,
                title: self.title(mac.as_str()).to_string(),
                status: None,
            },
            Content::Unavailable(mac) => Shown {
                page: PageName::Status,
                title: self.title(mac.as_str()).to_string(),
                status: Some(
                    StatusText {
                        icon: "audio-headphones-symbolic",
                        title: "Not connected",
                        description: "Connect the device to this PC from the Bluetooth settings.",
                    },
                ),
            },
        }
    }
}

/// A page is a message exactly where the stack shows the placeholder.
pub proof fn messages_are_on_the_placeholder(model: ModelView)
    ensures
        model.shown_page().status is Some <==> model.shown_page().page == PageName::Status,
{
}

// The sidebar

/// One battery of a line of the sidebar.
#[derive(Debug, Clone, PartialEq, Eq)]
pub struct Caption {
    pub icon: String,
    pub text: String,
    /// Drawn dimmed, as the last known level.
    pub stale: bool,
}

/// The mathematical content of a `Caption`.
#[verifier::ext_equal]
pub struct CaptionView {
    pub icon: Seq<char>,
    pub text: Seq<char>,
    pub stale: bool,
}

impl View for Caption {
    type V = CaptionView;

    open spec fn view(&self) -> CaptionView {
        CaptionView { icon: self.icon@, text: self.text@, stale: self.stale }
    }
}

/// The mathematical content of some captions.
pub open spec fn captions_view(captions: Seq<Caption>) -> Seq<CaptionView> {
    captions.map_values(|c: Caption| c@)
}

/// A battery with a mark before its level.
pub open spec fn caption_of(mark: Seq<char>, level: Level) -> CaptionView {
    CaptionView {
        icon: level.shown_icon(),
        text: mark + level.shown_text(),
        stale: level.stale,
    }
}

/// The batteries of a line: those of buds with the first letter of their
/// label, that of headphones without.
pub open spec fn shown_captions(batteries: Batteries) -> Seq<CaptionView> {
    match batteries {
        Batteries::Headphone(level) => seq![caption_of(""@, level)],
        Batteries::Buds { left, right, case } => seq![
            caption_of("L "@, left),
            caption_of("R "@, right),
            caption_of("C "@, case),
        ],
    }
}

fn caption(mark: &str, level: Level) -> (caption: Caption)
    ensures
        caption@ == caption_of(mark@, level),
{
    Caption {
        icon: level.icon_name(),
        text: joined(mark, level.text().as_str()),
        stale: level.stale,
    }
}

/// The batteries of a line of the sidebar.
pub fn captions(batteries: &Batteries) -> (captions: Vec<Caption>)
    ensures
        captions_view(captions@) == shown_captions(*batteries),
{
    match *batteries {
        Batteries::Headphone(level) => {
            let captions: Vec<Caption> = vec![caption("", level)];
            proof {
                assert(captions_view(captions@) =~= shown_captions(*batteries));
            }
            captions
        },
        Batteries::Buds { left, right, case } => {
            let captions: Vec<Caption> = vec![
                caption("L ", left),
                caption("R ", right),
                caption("C ", case),
            ];
            proof {
                assert(captions_view(captions@) =~= shown_captions(*batteries));
            }
            captions
        },
    }
}

/// The addresses of some lines.
pub open spec fn entry_macs(entries: Seq<SidebarEntry>) -> Seq<Seq<char>> {
    entries.map_values(|e: SidebarEntry| e.mac@)
}

/// Whether the rows of the list are those of the entries, so that they need
/// not be built again.
pub fn same_devices(rows: &Vec<String>, entries: &Vec<SidebarEntry>) -> (same: bool)
    ensures
        same == (crate::text::texts(rows@) == entry_macs(entries@)),
{
    let ghost shown = crate::text::texts(rows@);
    let ghost wanted = entry_macs(entries@);
    if rows.len() != entries.len() {
        proof {
            assert(shown.len() != wanted.len());
        }
        return false;
    }
    let mut i: usize = 0;
    while i < rows.len()
        invariant
            i <= rows@.len(),
            rows@.len() == entries@.len(),
            shown == crate::text::texts(rows@),
            wanted == entry_macs(entries@),
            forall|j: int| 0 <= j < i ==> #[trigger] shown[j] == wanted[j],
        decreases rows@.len() - i,
    {
        if !same_text(rows[i].as_str(), entries[i].mac.as_str()) {
            proof {
                assert(shown[i as int] != wanted[i as int]);
            }
            return false;
        }
        i = i + 1;
    }
    proof {
        assert(shown =~= wanted);
    }
    true
}

/// The first row of a device.
pub open spec fn row_of_device(rows: Seq<Seq<char>>, mac: Seq<char>) -> Option<int>
    decreases rows.len(),
{
    if rows.len() == 0 {
        None
    } else if rows[0] == mac {
        Some(0)
    } else {
        match row_of_device(rows.skip(1), mac) {
            Some(i) => Some(i + 1),
            None => None,
        }
    }
}

/// The row of the selected device, None where none is selected.
pub fn selected_row(rows: &Vec<String>, selection: &Selection) -> (at: Option<usize>)
    ensures
        (match at {
            Some(i) => Some(i as int),
            None => None,
        }) == (match selection@ {
            SelectionView::Device(mac) => row_of_device(crate::text::texts(rows@), mac),
            _ => None,
        }),
{
    let mac = match selection {
        Selection::Device(mac) => mac,
        Selection::Empty | Selection::Settings => {
            return None;
        },
    };
    let ghost all = crate::text::texts(rows@);
    let mut i: usize = 0;
    proof {
        assert(all.skip(0) =~= all);
    }
    while i < rows.len()
        invariant
            i <= rows@.len(),
            selection@ == SelectionView::Device(mac@),
            all == crate::text::texts(rows@),
            row_of_device(all, mac@) == (match row_of_device(all.skip(i as int), mac@) {
                Some(n) => Some(n + i),
                None => None,
            }),
        decreases rows@.len() - i,
    {
        proof {
            assert(all.skip(i as int)[0] == all[i as int]);
            assert(all.skip(i as int).skip(1) =~= all.skip(i + 1));
            assert(all[i as int] == rows@[i as int]@);
        }
        if same_text(rows[i].as_str(), mac.as_str()) {
            proof {
                assert(row_of_device(all.skip(i as int), mac@) == Some(0int));
            }
            return Some(i);
        }
        i = i + 1;
    }
    None
}

/// The device of a row that was selected; a row that is not in the list has
/// none.
pub fn device_at(rows: &Vec<String>, index: i32) -> (mac: Option<String>)
    ensures
        match mac {
            Some(m) => 0 <= index < rows@.len() && m@ == rows@[index as int]@,
            None => !(0 <= index < rows@.len()),
        },
{
    if index < 0 {
        return None;
    }
    let at: usize = index as usize;
    if at < rows.len() {
        Some(rows[at].clone())
    } else {
        None
    }
}

proof fn lemma_row(rows: Seq<Seq<char>>, mac: Seq<char>)
    ensures
        row_of_device(rows, mac) matches Some(at) ==> 0 <= at < rows.len() && rows[at] == mac,
        row_of_device(rows, mac) is None ==> !rows.contains(mac),
    decreases rows.len(),
{
    if rows.len() > 0 && rows[0] != mac {
        lemma_row(rows.skip(1), mac);
        match row_of_device(rows.skip(1), mac) {
            Some(at) => {
                assert(rows.skip(1)[at] == rows[at + 1]);
            },
            None => {
                if rows.contains(mac) {
                    let i = choose|i: int| 0 <= i < rows.len() && rows[i] == mac;
                    assert(rows.skip(1)[i - 1] == mac);
                    assert(rows.skip(1).contains(mac));
                }
            },
        }
    }
}

/// The selected row is a row of the selected device, wherever the list has
/// one.
pub proof fn the_selected_row_is_of_the_device(rows: Seq<Seq<char>>, mac: Seq<char>)
    ensures
        rows.contains(mac) <==> row_of_device(rows, mac) is Some,
        row_of_device(rows, mac) matches Some(at) ==> 0 <= at < rows.len() && rows[at] == mac,
{
    lemma_row(rows, mac);
    match row_of_device(rows, mac) {
        Some(at) => {
            assert(rows[at] == mac);
        },
        None => {},
    }
}

/// Headphones have one caption, of their level alone; buds have three, each with
/// its own level behind its letter: left, right, case.
pub proof fn captions_name_their_bud(level: Level, left: Level, right: Level, case: Level)
    ensures
        ({
            let one = shown_captions(Batteries::Headphone(level));
            let three = shown_captions(Batteries::Buds { left, right, case });
            &&& one.len() == 1
            &&& one[0].text == level.shown_text()
            &&& one[0].icon == level.shown_icon()
            &&& one[0].stale == level.stale
            &&& three.len() == 3
            &&& three[0].text == seq!['L', ' '] + left.shown_text()
            &&& three[1].text == seq!['R', ' '] + right.shown_text()
            &&& three[2].text == seq!['C', ' '] + case.shown_text()
            &&& three[0].icon == left.shown_icon()
            &&& three[1].icon == right.shown_icon()
            &&& three[2].icon == case.shown_icon()
            &&& three[0].stale == left.stale
            &&& three[1].stale == right.stale
            &&& three[2].stale == case.stale
        }),
{
    reveal_strlit("");
    reveal_strlit("L ");
    reveal_strlit("R ");
    reveal_strlit("C ");
    assert("L "@ =~= seq!['L', ' ']);
    assert("R "@ =~= seq!['R', ' ']);
    assert("C "@ =~= seq!['C', ' ']);
    assert(""@ + level.shown_text() =~= level.shown_text());
}

/// The messages of the pages that are only one.
pub proof fn messages_say_what_to_do(mac: Seq<char>)
    ensures
        status_of(ContentView::Empty)->0.description
            == "Connect your AirPods to this PC once to add them here."@,
        status_of(ContentView::Waiting(mac))->0.description
            == "Waiting for the device to report its state…"@,
        status_of(ContentView::Unavailable(mac))->0.description
            == "Connect the device to this PC from the Bluetooth settings."@,
        status_of(ContentView::Empty)->0.icon == "bluetooth-symbolic"@,
        status_of(ContentView::Waiting(mac))->0.icon == "audio-headphones-symbolic"@,
        status_of(ContentView::Unavailable(mac))->0.icon == "audio-headphones-symbolic"@,
        PageName::AirPods.in_stack() == "airpods"@,
        PageName::Disconnected.in_stack() == "disconnected"@,
        PageName::Nothing.in_stack() == "nothing"@,
        PageName::Settings.in_stack() == "settings"@,
        PageName::Status.in_stack() == "status"@,
{
}

} // verus!
