//! The AirPods page of the iced window.

use crate::audio::mic_test::{max_recording, MAX_RECORDING_SECS, SKIP_SECS};
use crate::devices::airpods::{AirPodsInformation, AirPodsInformationView};
use crate::devices::enums::{AirPodsNoiseControlMode, DeviceData, DeviceDataView};
use crate::devices::state::{AirPodsState, AirPodsStateView};
use crate::text::{decimal_text, joined, joined3};
use crate::time::{Duration, NANOS_PER_SEC};
use crate::ui::airpods_settings::settings_sections;
use crate::ui::choice::labels;
use crate::ui::equalizer::equalizer_section;
use crate::ui::format::{mmss, validate_device_name};
use crate::ui::gtk::model::{AirPods, AirPodsView};
use crate::ui::page::{
    add_row, add_section, add_sections, add_switch, no_rows, no_sections, Control, ControlView,
    Heading, Item, Row, RowView, Section, SectionView,
};
use crate::ui::window::{MicTest, MicTestPhase};
use vstd::prelude::*;

verus! {

/// The hint under the name field while a draft is edited.
pub open spec fn draft_hint(draft: Option<Seq<char>>) -> Option<Seq<char>> {
    match draft {
        Some(text) => Some(
            match crate::ui::format::checked_name(text) {
                Ok(_) => "Press Enter to rename"@,
                Err(e) => e,
            },
        ),
        None => None,
    }
}

/// The place of a listening mode among those offered.
pub open spec fn mode_place(airpods: AirPodsView) -> Option<usize> {
    let first = if airpods.allow_off {
        1int
    } else {
        0
    };
    match airpods.listening_mode {
        AirPodsNoiseControlMode::Off => if airpods.allow_off {
            Some(0usize)
        } else {
            None
        },
        AirPodsNoiseControlMode::Transparency => Some(first as usize),
        AirPodsNoiseControlMode::NoiseCancellation => Some((first + 1) as usize),
        AirPodsNoiseControlMode::Adaptive => Some((first + 2) as usize),
    }
}

/// The device information of AirPods.
pub open spec fn information_rows(info: Option<AirPodsInformationView>) -> Seq<RowView> {
    match info {
        Some(i) => Seq::empty().push(
            crate::ui::page::row_of(Item::ModelNumber, ControlView::Text(i.model_number)),
        ).push(
            crate::ui::page::row_of(Item::Manufacturer, ControlView::Text(i.manufacturer)),
        ).push(
            crate::ui::page::row_of(Item::SerialNumber, ControlView::Copy(i.serial_number)),
        ).push(
            crate::ui::page::row_of(
                Item::LeftSerialNumber,
                ControlView::Copy(i.left_serial_number),
            ),
        ).push(
            crate::ui::page::row_of(
                Item::RightSerialNumber,
                ControlView::Copy(i.right_serial_number),
            ),
        ).push(crate::ui::page::row_of(Item::Version1, ControlView::Text(i.version1))).push(
            crate::ui::page::row_of(Item::Version2, ControlView::Text(i.version2)),
        ).push(crate::ui::page::row_of(Item::Version3, ControlView::Text(i.version3))),
        None => Seq::empty(),
    }
}

/// What the page knows of a capture from the hi-res microphone.
#[derive(Debug, Clone)]
pub struct MicUse {
    /// An app records from the AirPods.
    pub active: bool,
    pub app: Option<String>,
}

/// The line above the level meter.
pub open spec fn use_line(mic: MicUse) -> Seq<char> {
    match mic.app {
        Some(app) => "In use by "@ + app@,
        None => "Input level"@,
    }
}

/// The rows of the hi-res microphone: its switch, the level meter while an
/// app records, and the test while the microphone is on.
pub open spec fn hires_rows(state: AirPodsStateView, mic: MicUse) -> Seq<RowView> {
    let switch = Seq::empty().push(
        crate::ui::page::switch_row(Item::HiResMicrophone, state.hires_mic_enabled),
    );
    let meter = if mic.active {
        switch.push(
            crate::ui::page::row_of(Item::InputLevel, ControlView::Text(use_line(mic))),
        )
    } else {
        switch
    };
    if state.hires_mic_enabled {
        meter.push(crate::ui::page::row_of(Item::MicrophoneTest, ControlView::Plain))
    } else {
        meter
    }
}

/// The information of AirPods in a device that may be unknown.
pub open spec fn known_information(device: Option<DeviceDataView>) -> Option<
    AirPodsInformationView,
> {
    match device {
        Some(d) => d.airpods_information(),
        None => None,
    }
}

/// The model number of AirPods, where it is known.
pub open spec fn known_model(device: Option<DeviceDataView>) -> Option<Seq<char>> {
    match known_information(device) {
        Some(info) => Some(info.model_number),
        None => None,
    }
}

/// The AirPods page, above the settings sections.
pub open spec fn page_top(
    state: AirPodsStateView,
    draft: Option<Seq<char>>,
    awareness_locked: bool,
) -> Seq<SectionView> {
    let name = crate::ui::page::with_section(
        Seq::empty(),
        Heading::Untitled,
        Seq::empty().push(
            crate::ui::page::row_of(
                Item::Name,
                ControlView::Entry {
                    text: match draft {
                        Some(text) => text,
                        None => state.pods.name,
                    },
                    hint: draft_hint(draft),
                },
            ),
        ),
    );
    let mode = crate::ui::page::with_section(
        name,
        Heading::Untitled,
        Seq::empty().push(
            crate::ui::page::row_of(Item::ListeningMode, mode_choice(state.pods)),
        ),
    );
    crate::ui::page::with_section(
        mode,
        Heading::AudioSettings,
        Seq::empty().push(
            crate::ui::page::switch_row(Item::PersonalizedVolume, state.pods.personalized_volume),
        ).push(
            crate::ui::page::row_of(
                Item::ConversationAwareness,
                ControlView::Switch {
                    on: state.pods.conversation_awareness,
                    locked: awareness_locked,
                },
            ),
        ),
    )
}

/// The AirPods page: name, listening mode, audio settings, equalizer, Off
/// listening mode, hi-res microphone, the settings sections and the device
/// information. Conversation awareness is locked while a capture manages it,
/// so the user cannot fight the override.
pub open spec fn airpods_page(
    state: AirPodsStateView,
    device: Option<DeviceDataView>,
    draft: Option<Seq<char>>,
    pause_convo: bool,
    mic: MicUse,
) -> Seq<SectionView> {
    let top = page_top(state, draft, pause_convo && mic.active)
        + crate::ui::equalizer::equalizer_card(known_model(device), state.custom_eq.eq);
    let off = crate::ui::page::with_section(
        top,
        Heading::Untitled,
        Seq::empty().push(crate::ui::page::switch_row(Item::OffListeningMode, state.pods.allow_off)),
    );
    let hires = crate::ui::page::with_section(off, Heading::Untitled, hires_rows(state, mic));
    crate::ui::page::with_section(
        hires + crate::ui::airpods_settings::shown_sections(state.pods),
        Heading::DeviceInformation,
        information_rows(known_information(device)),
    )
}

/// The view of a text that may be missing.
pub open spec fn draft_view(draft: Option<&str>) -> Option<Seq<char>> {
    match draft {
        Some(text) => Some(text@),
        None => None,
    }
}

fn name_row(state: &AirPodsState, draft: Option<&str>) -> (control: Control)
    ensures
        control@ == (ControlView::Entry {
            text: match draft_view(draft) {
                Some(text) => text,
                None => state@.pods.name,
            },
            hint: draft_hint(draft_view(draft)),
        }),
{
    match draft {
        Some(text) => {
            let hint = match validate_device_name(text) {
                Ok(_) => "Press Enter to rename",
                Err(e) => e,
            };
            Control::Entry { text: text.to_string(), hint: Some(hint) }
        },
        None => Control::Entry { text: state.pods.name.clone(), hint: None },
    }
}

/// A choice among the listening modes that are offered.
pub open spec fn mode_choice(airpods: AirPodsView) -> ControlView {
    ControlView::Choice {
        options: crate::ui::choice::option_texts(airpods.offered_modes()),
        selected: mode_place(airpods),
    }
}

/// A choice among the listening modes that are offered.
pub(crate) fn mode_row(airpods: &AirPods) -> (control: Control)
    ensures
        control@ == mode_choice(airpods@),
{
    let modes = airpods.listening_modes();
    let first: usize = if airpods.allow_off {
        1
    } else {
        0
    };
    let selected: Option<usize> = match airpods.listening_mode {
        AirPodsNoiseControlMode::Off => if airpods.allow_off {
            Some(0)
        } else {
            None
        },
        AirPodsNoiseControlMode::Transparency => Some(first),
        AirPodsNoiseControlMode::NoiseCancellation => Some(first + 1),
        AirPodsNoiseControlMode::Adaptive => Some(first + 2),
    };
    Control::Choice { options: labels(&modes), selected }
}

fn information(info: Option<&AirPodsInformation>) -> (rows: Vec<Row>)
    ensures
        crate::ui::page::rows_view(rows@) == information_rows(
            match info {
                Some(i) => Some(i@),
                None => None,
            },
        ),
{
    let mut rows = no_rows();
    match info {
        Some(i) => {
            add_row(&mut rows, Item::ModelNumber, Control::Text(i.model_number.clone()));
            add_row(&mut rows, Item::Manufacturer, Control::Text(i.manufacturer.clone()));
            add_row(&mut rows, Item::SerialNumber, Control::Copy(i.serial_number.clone()));
            add_row(&mut rows, Item::LeftSerialNumber, Control::Copy(i.left_serial_number.clone()));
            add_row(
                &mut rows,
                Item::RightSerialNumber,
                Control::Copy(i.right_serial_number.clone()),
            );
            add_row(&mut rows, Item::Version1, Control::Text(i.version1.clone()));
            add_row(&mut rows, Item::Version2, Control::Text(i.version2.clone()));
            add_row(&mut rows, Item::Version3, Control::Text(i.version3.clone()));
        },
        None => {},
    }
    rows
}

fn hires(state: &AirPodsState, mic: &MicUse) -> (rows: Vec<Row>)
    ensures
        crate::ui::page::rows_view(rows@) == hires_rows(state@, *mic),
{
    let mut rows = no_rows();
    add_switch(&mut rows, Item::HiResMicrophone, state.hires_mic_enabled);
    if mic.active {
        let line = match &mic.app {
            Some(app) => joined("In use by ", app.as_str()),
            None => "Input level".to_string(),
        };
        add_row(&mut rows, Item::InputLevel, Control::Text(line));
    }
    if state.hires_mic_enabled {
        add_row(&mut rows, Item::MicrophoneTest, Control::Plain);
    }
    rows
}

fn top(state: &AirPodsState, draft: Option<&str>, awareness_locked: bool) -> (sections: Vec<
    Section,
>)
    ensures
        crate::ui::page::sections_view(sections@) == page_top(
            state@,
            draft_view(draft),
            awareness_locked,
        ),
{
    let mut sections = no_sections();
    let mut rows = no_rows();
    add_row(&mut rows, Item::Name, name_row(state, draft));
    add_section(&mut sections, Heading::Untitled, rows);
    let mut rows = no_rows();
    add_row(&mut rows, Item::ListeningMode, mode_row(&state.pods));
    add_section(&mut sections, Heading::Untitled, rows);
    let mut rows = no_rows();
    add_switch(&mut rows, Item::PersonalizedVolume, state.pods.personalized_volume);
    add_row(
        &mut rows,
        Item::ConversationAwareness,
        Control::Switch { on: state.pods.conversation_awareness, locked: awareness_locked },
    );
    add_section(&mut sections, Heading::AudioSettings, rows);
    sections
}

/// The AirPods page.
pub fn airpods_view(
    state: &AirPodsState,
    device: Option<&DeviceData>,
    name_draft: Option<&str>,
    pause_convo: bool,
    mic: &MicUse,
) -> (page: Vec<Section>)
    ensures
        crate::ui::page::sections_view(page@) == airpods_page(
            state@,
            crate::ui::nothing::device_view(device),
            draft_view(name_draft),
            pause_convo,
            *mic,
        ),
{
    let info = match device {
        Some(device) => device.airpods_information(),
        None => None,
    };
    let model = match info {
        Some(info) => Some(info.model_number.as_str()),
        None => None,
    };
    let mut page = top(state, name_draft, pause_convo && mic.active);
    add_sections(&mut page, equalizer_section(model, state.custom_eq.eq));
    let mut rows = no_rows();
    add_switch(&mut rows, Item::OffListeningMode, state.pods.allow_off);
    add_section(&mut page, Heading::Untitled, rows);
    add_section(&mut page, Heading::Untitled, hires(state, mic));
    add_sections(&mut page, settings_sections(&state.pods));
    add_section(&mut page, Heading::DeviceInformation, information(info));
    page
}

// The microphone test

/// What the app reads from the recorder and the player.
#[derive(Debug, Clone)]
pub struct MicReading {
    pub elapsed: Duration,
    pub position: Duration,
    pub duration: Duration,
    pub playing: bool,
    pub error: Option<String>,
}

/// A button of the microphone test.
#[derive(Debug, Clone, Copy, PartialEq, Eq, Structural)]
pub enum TestButton {
    Record,
    RecordAgain,
    Stop,
    Back,
    Forward,
    Play,
    Pause,
    Done,
}

impl TestButton {
    /// The text of the button.
    pub open spec fn shown(self) -> Seq<char> {
        match self {
            TestButton::Record => "Record"@,
            TestButton::RecordAgain => "Record again"@,
            TestButton::Stop => "Stop"@,
            TestButton::Back => "-"@ + crate::text::decimal(SKIP_SECS as nat) + "s"@,
            TestButton::Forward => "+"@ + crate::text::decimal(SKIP_SECS as nat) + "s"@,
            TestButton::Play => "Play"@,
            TestButton::Pause => "Pause"@,
            TestButton::Done => "Done"@,
        }
    }

    /// The text of the button.
    pub fn label(self) -> (label: String)
        ensures
            label@ == self.shown(),
    {
        match self {
            TestButton::Record => "Record".to_string(),
            TestButton::RecordAgain => "Record again".to_string(),
            TestButton::Stop => "Stop".to_string(),
            TestButton::Back => joined3("-", decimal_text(SKIP_SECS).as_str(), "s"),
            TestButton::Forward => joined3("+", decimal_text(SKIP_SECS).as_str(), "s"),
            TestButton::Play => "Play".to_string(),
            TestButton::Pause => "Pause".to_string(),
            TestButton::Done => "Done".to_string(),
        }
    }
}

/// What the microphone test shows.
#[derive(Debug, Clone)]
pub struct TestRow {
    /// The text of the row.
    pub line: String,
    /// A dim text beside or under it.
    pub note: Option<String>,
    /// Position and length of the player, for its slider.
    pub player: Option<(Duration, Duration)>,
    pub buttons: Vec<TestButton>,
}

/// The mathematical content of a `TestRow`.
#[verifier::ext_equal]
pub struct TestRowView {
    pub line: Seq<char>,
    pub note: Option<Seq<char>>,
    pub player: Option<(nat, nat)>,
    pub buttons: Seq<TestButton>,
}

impl View for TestRow {
    type V = TestRowView;

    open spec fn view(&self) -> TestRowView {
        TestRowView {
            line: self.line@,
            note: match self.note {
                Some(n) => Some(n@),
                None => None,
            },
            player: match self.player {
                Some((position, duration)) => Some((position@, duration@)),
                None => None,
            },
            buttons: self.buttons@,
        }
    }
}

/// A row with a text and some buttons.
pub open spec fn text_row(line: Seq<char>, buttons: Seq<TestButton>) -> TestRowView {
    TestRowView { line, note: None, player: None, buttons }
}

/// What the microphone test shows in a phase.
pub open spec fn shown_test(test: MicTestPhase, reading: MicReading) -> TestRowView {
    match test {
        MicTestPhase::Idle => text_row(
            crate::ui::gtk::model::mic::TEST_HINT@,
            seq![TestButton::Record],
        ),
        MicTestPhase::Failed(e) => text_row(e, seq![TestButton::Record]),
        MicTestPhase::Starting => text_row("Pausing media…"@, Seq::empty()),
        MicTestPhase::Stopping => text_row("Finishing the recording…"@, Seq::empty()),
        MicTestPhase::Recording => TestRowView {
            note: Some(
                "max "@ + crate::ui::gtk::model::mic::clock(
                    (MAX_RECORDING_SECS * NANOS_PER_SEC) as nat,
                ),
            ),
            ..text_row(
                "Recording  "@ + crate::ui::gtk::model::mic::clock(reading.elapsed@),
                seq![TestButton::Stop],
            )
        },
        MicTestPhase::Ready => {
            let position = crate::time::shorter(reading.position@, reading.duration@);
            TestRowView {
                line: crate::ui::gtk::model::mic::clock(position) + " / "@
                    + crate::ui::gtk::model::mic::clock(reading.duration@),
                note: crate::ui::gtk::model::mic::optional_text(reading.error),
                player: Some((position, reading.duration@)),
                buttons: seq![
                    TestButton::Back,
                    if reading.playing {
                        TestButton::Pause
                    } else {
                        TestButton::Play
                    },
                    TestButton::Forward,
                    TestButton::RecordAgain,
                    TestButton::Done,
                ],
            }
        },
    }
}

/// What the microphone test shows.
pub fn mic_test_row(test: &MicTest, reading: &MicReading) -> (row: TestRow)
    ensures
        row@ == shown_test(test@, *reading),
{
    match test {
        MicTest::Idle => {
            let buttons: Vec<TestButton> = vec![TestButton::Record];
            proof {
                assert(buttons@ =~= seq![TestButton::Record]);
            }
            TestRow {
                line: crate::ui::gtk::model::mic::TEST_HINT.to_string(),
                note: None,
                player: None,
                buttons,
            }
        },
        MicTest::Failed(e) => {
            let buttons: Vec<TestButton> = vec![TestButton::Record];
            proof {
                assert(buttons@ =~= seq![TestButton::Record]);
            }
            TestRow { line: e.clone(), note: None, player: None, buttons }
        },
        MicTest::Starting => TestRow {
            line: "Pausing media…".to_string(),
            note: None,
            player: None,
            buttons: Vec::new(),
        },
        MicTest::Stopping => TestRow {
            line: "Finishing the recording…".to_string(),
            note: None,
            player: None,
            buttons: Vec::new(),
        },
        MicTest::Recording => {
            let buttons: Vec<TestButton> = vec![TestButton::Stop];
            proof {
                assert(buttons@ =~= seq![TestButton::Stop]);
            }
            TestRow {
                line: joined("Recording  ", mmss(reading.elapsed).as_str()),
                note: Some(joined("max ", mmss(max_recording()).as_str())),
                player: None,
                buttons,
            }
        },
        MicTest::Ready => {
            let position = reading.position.min(reading.duration);
            let play_pause = if reading.playing {
                TestButton::Pause
            } else {
                TestButton::Play
            };
            let buttons: Vec<TestButton> = vec![
                TestButton::Back,
                play_pause,
                TestButton::Forward,
                TestButton::RecordAgain,
                TestButton::Done,
            ];
            let note = match &reading.error {
                Some(e) => Some(e.clone()),
                None => None,
            };
            let row = TestRow {
                line: joined3(mmss(position).as_str(), " / ", mmss(reading.duration).as_str()),
                note,
                player: Some((position, reading.duration)),
                buttons,
            };
            proof {
                assert(row@ =~= shown_test(test@, *reading));
            }
            row
        },
    }
}

} // verus!
