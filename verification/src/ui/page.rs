//! What the pages of the windows show: sections of rows, each with a control.
//! The front end draws them.

use vstd::prelude::*;

verus! {

/// What a row is for.
#[derive(Debug, Clone, Copy, PartialEq, Eq, Structural)]
pub enum Item {
    Name,
    ListeningMode,
    PersonalizedVolume,
    ConversationAwareness,
    CustomEq,
    LowBand,
    MidBand,
    HighBand,
    ResetEq,
    OffListeningMode,
    HiResMicrophone,
    InputLevel,
    MicrophoneTest,
    LongPressLeft,
    LongPressRight,
    ListeningModes,
    CycleOff,
    CycleNoiseCancellation,
    CycleTransparency,
    CycleAdaptive,
    AnswerCall,
    MuteControl,
    HangUp,
    MicrophoneMode,
    SleepDetection,
    PressSpeed,
    HoldDuration,
    OneBudAnc,
    ToneVolume,
    VolumeControl,
    VolumeSwipeSpeed,
    AdaptiveAudio,
    ModelNumber,
    Manufacturer,
    SerialNumber,
    LeftSerialNumber,
    RightSerialNumber,
    Version1,
    Version2,
    Version3,
    Firmware,
    FirmwareVersion,
    NoiseControlMode,
    Theme,
    TrayText,
    StemControl,
    PreferredCodec,
    AutoSwitch,
    A2dpReset,
    HiResMicAgc,
    HiResMicPauseConvo,
}

impl Item {
    /// The title of the row.
    pub open spec fn title_text(self) -> Seq<char> {
        match self {
            Item::Name => "Name"@,
            Item::ListeningMode => "Listening Mode"@,
            Item::PersonalizedVolume => "Personalized Volume"@,
            Item::ConversationAwareness => "Conversation Awareness"@,
            Item::CustomEq => "Custom EQ"@,
            Item::LowBand => "Low"@,
            Item::MidBand => "Mid"@,
            Item::HighBand => "High"@,
            Item::ResetEq => "Reset"@,
            Item::OffListeningMode => "Off Listening Mode"@,
            Item::HiResMicrophone => "Hi-Res Microphone"@,
            Item::InputLevel => "Input level"@,
            Item::MicrophoneTest => "Microphone test"@,
            Item::LongPressLeft => "Left"@,
            Item::LongPressRight => "Right"@,
            Item::ListeningModes => "Listening Modes"@,
            Item::CycleOff => "Off"@,
            Item::CycleNoiseCancellation => "Noise Cancellation"@,
            Item::CycleTransparency => "Transparency"@,
            Item::CycleAdaptive => "Adaptive"@,
            Item::AnswerCall => "Answer Call"@,
            Item::MuteControl => "Mute/Unmute"@,
            Item::HangUp => "Hang Up"@,
            Item::MicrophoneMode => "Microphone Mode"@,
            Item::SleepDetection => "Pause media when falling asleep"@,
            Item::PressSpeed => "Press Speed"@,
            Item::HoldDuration => "Press and Hold Duration"@,
            Item::OneBudAnc => "Noise Cancellation with Single AirPod"@,
            Item::ToneVolume => "Tone Volume"@,
            Item::VolumeControl => "Volume Control"@,
            Item::VolumeSwipeSpeed => "Volume Swipe Speed"@,
            Item::AdaptiveAudio => "Customize Adaptive Audio"@,
            Item::ModelNumber => "Model Number"@,
            Item::Manufacturer => "Manufacturer"@,
            Item::SerialNumber => "Serial Number"@,
            Item::LeftSerialNumber => "Left Serial Number"@,
            Item::RightSerialNumber => "Right Serial Number"@,
            Item::Version1 => "Version 1"@,
            Item::Version2 => "Version 2"@,
            Item::Version3 => "Version 3"@,
            Item::Firmware => "Firmware"@,
            Item::FirmwareVersion => "Firmware Version"@,
            Item::NoiseControlMode => "Noise Control Mode"@,
            Item::Theme => "Theme"@,
            Item::TrayText => "Use text in tray"@,
            Item::StemControl => "Stem press track control"@,
            Item::PreferredCodec => "Preferred audio codec"@,
            Item::AutoSwitch => "Switch to this PC on playback"@,
            Item::A2dpReset => "Reset A2DP transport"@,
            Item::HiResMicAgc => "Hi-res mic auto gain"@,
            Item::HiResMicPauseConvo => "Pause conversation awareness during capture"@,
        }
    }

    /// The dim text under the title, where there is one.
    pub open spec fn description_text(self) -> Option<Seq<char>> {
        match self {
            Item::PersonalizedVolume => Some(
                "Adjusts the volume in response to your environment."@,
            ),
            Item::ConversationAwareness => Some(
                "Lowers the volume of your audio when it detects that you are speaking."@,
            ),
            Item::CustomEq => Some(
                "Use your own bass, mids and treble instead of the recommended tuning. Needs the latest AirPods beta firmware."@,
            ),
            Item::OffListeningMode => Some(
                "When this is on, AirPods listening modes will include an Off option. Loud sound levels are not reduced when listening mode is set to Off."@,
            ),
            Item::HiResMicrophone => Some(
                "Captures the AirPods' high-quality AAC-ELD microphone stream and exposes it as an 'AirPodsHiRes' input."@,
            ),
            Item::ListeningModes => Some(
                "Press and hold the stem to cycle between the selected listening modes."@,
            ),
            Item::CycleOff => Some(
                "Turns off noise management"@,
            ),
            Item::CycleNoiseCancellation => Some(
                "Blocks out external sounds"@,
            ),
            Item::CycleTransparency => Some(
                "Lets in external sounds"@,
            ),
            Item::CycleAdaptive => Some(
                "Dynamically adjusts external noise"@,
            ),
            Item::PressSpeed => Some(
                "Adjust the speed required to press two or three times on your AirPods."@,
            ),
            Item::HoldDuration => Some(
                "Adjust the duration required to press and hold on your AirPods."@,
            ),
            Item::OneBudAnc => Some(
                "Allow AirPods to be put in noise cancellation mode when only one AirPod is in your ear."@,
            ),
            Item::ToneVolume => Some(
                "Adjust the tone volume of sound effects played by AirPods."@,
            ),
            Item::VolumeControl => Some(
                "Adjust the volume by swiping up or down on the sensor located on the AirPods Pro stem."@,
            ),
            Item::VolumeSwipeSpeed => Some(
                "To prevent unintended volume adjustments, select preferred wait time between swipes."@,
            ),
            Item::AdaptiveAudio => Some(
                "Adaptive audio dynamically responds to your environment and cancels or allows external noise. You can customize Adaptive Audio to allow more or less noise."@,
            ),
            Item::TrayText => Some(
                "Use text for battery status in tray instead of a progress bar."@,
            ),
            Item::StemControl => Some(
                "Double press = next track, triple press = previous track. Disable if your environment handles AirPods AVRCP commands natively."@,
            ),
            Item::PreferredCodec => Some(
                "Codec to activate for playback. The others are used as fallbacks if the chosen one is unavailable."@,
            ),
            Item::AutoSwitch => Some(
                "When media starts playing here and the AirPods are on another device, connect them to this PC. They leave the other device, even mid-call."@,
            ),
            Item::A2dpReset => Some(
                "Briefly suspends and resumes A2DP after the hi-res mic starts or stops. Disabling removes the short pause/stutter when the mic turns on or off, but on some setups it causes playback on one AirPod to drop once capture ends."@,
            ),
            Item::HiResMicAgc => Some(
                "Automatically normalizes the hi-res microphone level. For most usecases this should remain on. Disable for a raw, unprocessed capture."@,
            ),
            Item::HiResMicPauseConvo => Some(
                "Turns off conversation awareness while the hi-res microphone is capturing, then restores it afterwards."@,
            ),
            _ => None,
        }
    }

    /// The title of the row.
    pub fn title(self) -> (title: &'static str)
        ensures
            title@ == self.title_text(),
    {
        match self {
            Item::Name => "Name",
            Item::ListeningMode => "Listening Mode",
            Item::PersonalizedVolume => "Personalized Volume",
            Item::ConversationAwareness => "Conversation Awareness",
            Item::CustomEq => "Custom EQ",
            Item::LowBand => "Low",
            Item::MidBand => "Mid",
            Item::HighBand => "High",
            Item::ResetEq => "Reset",
            Item::OffListeningMode => "Off Listening Mode",
            Item::HiResMicrophone => "Hi-Res Microphone",
            Item::InputLevel => "Input level",
            Item::MicrophoneTest => "Microphone test",
            Item::LongPressLeft => "Left",
            Item::LongPressRight => "Right",
            Item::ListeningModes => "Listening Modes",
            Item::CycleOff => "Off",
            Item::CycleNoiseCancellation => "Noise Cancellation",
            Item::CycleTransparency => "Transparency",
            Item::CycleAdaptive => "Adaptive",
            Item::AnswerCall => "Answer Call",
            Item::MuteControl => "Mute/Unmute",
            Item::HangUp => "Hang Up",
            Item::MicrophoneMode => "Microphone Mode",
            Item::SleepDetection => "Pause media when falling asleep",
            Item::PressSpeed => "Press Speed",
            Item::HoldDuration => "Press and Hold Duration",
            Item::OneBudAnc => "Noise Cancellation with Single AirPod",
            Item::ToneVolume => "Tone Volume",
            Item::VolumeControl => "Volume Control",
            Item::VolumeSwipeSpeed => "Volume Swipe Speed",
            Item::AdaptiveAudio => "Customize Adaptive Audio",
            Item::ModelNumber => "Model Number",
            Item::Manufacturer => "Manufacturer",
            Item::SerialNumber => "Serial Number",
            Item::LeftSerialNumber => "Left Serial Number",
            Item::RightSerialNumber => "Right Serial Number",
            Item::Version1 => "Version 1",
            Item::Version2 => "Version 2",
            Item::Version3 => "Version 3",
            Item::Firmware => "Firmware",
            Item::FirmwareVersion => "Firmware Version",
            Item::NoiseControlMode => "Noise Control Mode",
            Item::Theme => "Theme",
            Item::TrayText => "Use text in tray",
            Item::StemControl => "Stem press track control",
            Item::PreferredCodec => "Preferred audio codec",
            Item::AutoSwitch => "Switch to this PC on playback",
            Item::A2dpReset => "Reset A2DP transport",
            Item::HiResMicAgc => "Hi-res mic auto gain",
            Item::HiResMicPauseConvo => "Pause conversation awareness during capture",
        }
    }

    /// The dim text under the title, where there is one.
    pub fn description(self) -> (description: Option<&'static str>)
        ensures
            self.description_text() == (match description {
                Some(d) => Some(d@),
                None => None,
            }),
    {
        match self {
            Item::PersonalizedVolume => Some(
                "Adjusts the volume in response to your environment.",
            ),
            Item::ConversationAwareness => Some(
                "Lowers the volume of your audio when it detects that you are speaking.",
            ),
            Item::CustomEq => Some(
                "Use your own bass, mids and treble instead of the recommended tuning. Needs the latest AirPods beta firmware.",
            ),
            Item::OffListeningMode => Some(
                "When this is on, AirPods listening modes will include an Off option. Loud sound levels are not reduced when listening mode is set to Off.",
            ),
            Item::HiResMicrophone => Some(
                "Captures the AirPods' high-quality AAC-ELD microphone stream and exposes it as an 'AirPodsHiRes' input.",
            ),
            Item::ListeningModes => Some(
                "Press and hold the stem to cycle between the selected listening modes.",
            ),
            Item::CycleOff => Some(
                "Turns off noise management",
            ),
            Item::CycleNoiseCancellation => Some(
                "Blocks out external sounds",
            ),
            Item::CycleTransparency => Some(
                "Lets in external sounds",
            ),
            Item::CycleAdaptive => Some(
                "Dynamically adjusts external noise",
            ),
            Item::PressSpeed => Some(
                "Adjust the speed required to press two or three times on your AirPods.",
            ),
            Item::HoldDuration => Some(
                "Adjust the duration required to press and hold on your AirPods.",
            ),
            Item::OneBudAnc => Some(
                "Allow AirPods to be put in noise cancellation mode when only one AirPod is in your ear.",
            ),
            Item::ToneVolume => Some(
                "Adjust the tone volume of sound effects played by AirPods.",
            ),
            Item::VolumeControl => Some(
                "Adjust the volume by swiping up or down on the sensor located on the AirPods Pro stem.",
            ),
            Item::VolumeSwipeSpeed => Some(
                "To prevent unintended volume adjustments, select preferred wait time between swipes.",
            ),
            Item::AdaptiveAudio => Some(
                "Adaptive audio dynamically responds to your environment and cancels or allows external noise. You can customize Adaptive Audio to allow more or less noise.",
            ),
            Item::TrayText => Some(
                "Use text for battery status in tray instead of a progress bar.",
            ),
            Item::StemControl => Some(
                "Double press = next track, triple press = previous track. Disable if your environment handles AirPods AVRCP commands natively.",
            ),
            Item::PreferredCodec => Some(
                "Codec to activate for playback. The others are used as fallbacks if the chosen one is unavailable.",
            ),
            Item::AutoSwitch => Some(
                "When media starts playing here and the AirPods are on another device, connect them to this PC. They leave the other device, even mid-call.",
            ),
            Item::A2dpReset => Some(
                "Briefly suspends and resumes A2DP after the hi-res mic starts or stops. Disabling removes the short pause/stutter when the mic turns on or off, but on some setups it causes playback on one AirPod to drop once capture ends.",
            ),
            Item::HiResMicAgc => Some(
                "Automatically normalizes the hi-res microphone level. For most usecases this should remain on. Disable for a raw, unprocessed capture.",
            ),
            Item::HiResMicPauseConvo => Some(
                "Turns off conversation awareness while the hi-res microphone is capturing, then restores it afterwards.",
            ),
            _ => None,
        }
    }

    /// The captions at the low and the high end of the slider, where it has
    /// them.
    pub open spec fn end_texts(self) -> Option<(Seq<char>, Seq<char>)> {
        match self {
            Item::ToneVolume => Some(("Quiet"@, "Loud"@)),
            Item::AdaptiveAudio => Some(("Less noise"@, "More noise"@)),
            _ => None,
        }
    }

    /// The captions at the low and the high end of the slider, where it has
    /// them.
    pub fn ends(self) -> (ends: Option<(&'static str, &'static str)>)
        ensures
            self.end_texts() == (match ends {
                Some((low, high)) => Some((low@, high@)),
                None => None,
            }),
    {
        match self {
            Item::ToneVolume => Some(("Quiet", "Loud")),
            Item::AdaptiveAudio => Some(("Less noise", "More noise")),
            _ => None,
        }
    }
}

/// The control of a row.
#[derive(Debug, Clone, PartialEq)]
pub enum Control {
    /// Only the title.
    Plain,
    Text(String),
    /// A text that a click copies.
    Copy(String),
    Switch { on: bool, locked: bool },
    Choice { options: Vec<&'static str>, selected: Option<usize> },
    Slider { value: u8, max: u8, step: u8 },
    Button { enabled: bool },
    /// A text field, with a hint while it is edited.
    Entry { text: String, hint: Option<&'static str> },
}

/// The mathematical content of a `Control`.
#[verifier::ext_equal]
pub enum ControlView {
    Plain,
    Text(Seq<char>),
    Copy(Seq<char>),
    Switch { on: bool, locked: bool },
    Choice { options: Seq<Seq<char>>, selected: Option<usize> },
    Slider { value: u8, max: u8, step: u8 },
    Button { enabled: bool },
    Entry { text: Seq<char>, hint: Option<Seq<char>> },
}

impl View for Control {
    type V = ControlView;

    open spec fn view(&self) -> ControlView {
        match *self {
            Control::Plain => ControlView::Plain,
            Control::Text(text) => ControlView::Text(text@),
            Control::Copy(text) => ControlView::Copy(text@),
            Control::Switch { on, locked } => ControlView::Switch { on, locked },
            Control::Choice { options, selected } => ControlView::Choice {
                options: crate::ui::choice::labels_view(options@),
                selected,
            },
            Control::Slider { value, max, step } => ControlView::Slider { value, max, step },
            Control::Button { enabled } => ControlView::Button { enabled },
            Control::Entry { text, hint } => ControlView::Entry {
                text: text@,
                hint: match hint {
                    Some(h) => Some(h@),
                    None => None,
                },
            },
        }
    }
}

/// A row of a page.
#[derive(Debug, Clone, PartialEq)]
pub struct Row {
    pub item: Item,
    pub control: Control,
}

/// The mathematical content of a `Row`.
#[verifier::ext_equal]
pub struct RowView {
    pub item: Item,
    pub control: ControlView,
}

impl View for Row {
    type V = RowView;

    open spec fn view(&self) -> RowView {
        RowView { item: self.item, control: self.control@ }
    }
}

/// The mathematical content of some rows.
pub open spec fn rows_view(rows: Seq<Row>) -> Seq<RowView> {
    rows.map_values(|r: Row| r@)
}

/// A row with a control.
pub open spec fn row_of(item: Item, control: ControlView) -> RowView {
    RowView { item, control }
}

/// A row with a switch that can be changed.
pub open spec fn switch_row(item: Item, on: bool) -> RowView {
    row_of(item, ControlView::Switch { on, locked: false })
}

/// No rows.
pub(crate) fn no_rows() -> (rows: Vec<Row>)
    ensures
        rows_view(rows@) == Seq::<RowView>::empty(),
{
    let rows: Vec<Row> = Vec::new();
    proof {
        assert(rows_view(rows@) =~= Seq::<RowView>::empty());
    }
    rows
}

/// One more row.
pub(crate) fn add_row(rows: &mut Vec<Row>, item: Item, control: Control)
    ensures
        rows_view(final(rows)@) == rows_view(old(rows)@).push(row_of(item, control@)),
{
    rows.push(Row { item, control });
    proof {
        assert(rows_view(rows@) =~= rows_view(old(rows)@).push(row_of(item, control@)));
    }
}

/// One more row, with a switch that can be changed.
pub(crate) fn add_switch(rows: &mut Vec<Row>, item: Item, on: bool)
    ensures
        rows_view(final(rows)@) == rows_view(old(rows)@).push(switch_row(item, on)),
{
    add_row(rows, item, Control::Switch { on, locked: false });
}

/// The title of a section.
#[derive(Debug, Clone, Copy, PartialEq, Eq, Structural)]
pub enum Heading {
    AudioSettings,
    NoiseControl,
    Equalizer,
    PressAndHold,
    CallControls,
    Microphone,
    Accessibility,
    AdaptiveAudio,
    DeviceInformation,
    Appearance,
    Controls,
    /// A section without a title.
    Untitled,
}

impl Heading {
    /// The text of the title.
    pub open spec fn shown(self) -> Option<Seq<char>> {
        match self {
            Heading::AudioSettings => Some("Audio Settings"@),
            Heading::NoiseControl => Some("Noise Control"@),
            Heading::Equalizer => Some("Equalizer"@),
            Heading::PressAndHold => Some("Press and Hold AirPods"@),
            Heading::CallControls => Some("Call Controls"@),
            Heading::Microphone => Some("Microphone"@),
            Heading::Accessibility => Some("Accessibility"@),
            Heading::AdaptiveAudio => Some("Adaptive Audio"@),
            Heading::DeviceInformation => Some("Device Information"@),
            Heading::Appearance => Some("Appearance"@),
            Heading::Controls => Some("Controls"@),
            Heading::Untitled => None,
        }
    }

    /// The text of the title.
    pub fn title(self) -> (title: Option<&'static str>)
        ensures
            self.shown() == (match title {
                Some(t) => Some(t@),
                None => None,
            }),
    {
        match self {
            Heading::AudioSettings => Some("Audio Settings"),
            Heading::NoiseControl => Some("Noise Control"),
            Heading::Equalizer => Some("Equalizer"),
            Heading::PressAndHold => Some("Press and Hold AirPods"),
            Heading::CallControls => Some("Call Controls"),
            Heading::Microphone => Some("Microphone"),
            Heading::Accessibility => Some("Accessibility"),
            Heading::AdaptiveAudio => Some("Adaptive Audio"),
            Heading::DeviceInformation => Some("Device Information"),
            Heading::Appearance => Some("Appearance"),
            Heading::Controls => Some("Controls"),
            Heading::Untitled => None,
        }
    }
}

/// A titled card with one row per setting.
#[derive(Debug, Clone, PartialEq)]
pub struct Section {
    pub heading: Heading,
    pub rows: Vec<Row>,
}

/// The mathematical content of a `Section`.
#[verifier::ext_equal]
pub struct SectionView {
    pub heading: Heading,
    pub rows: Seq<RowView>,
}

impl View for Section {
    type V = SectionView;

    open spec fn view(&self) -> SectionView {
        SectionView { heading: self.heading, rows: rows_view(self.rows@) }
    }
}

/// The mathematical content of some sections.
pub open spec fn sections_view(sections: Seq<Section>) -> Seq<SectionView> {
    sections.map_values(|s: Section| s@)
}

/// Some sections and one more, unless it has no rows.
pub open spec fn with_section(
    sections: Seq<SectionView>,
    heading: Heading,
    rows: Seq<RowView>,
) -> Seq<SectionView> {
    if rows.len() == 0 {
        sections
    } else {
        sections.push(SectionView { heading, rows })
    }
}

/// No sections.
pub(crate) fn no_sections() -> (sections: Vec<Section>)
    ensures
        sections_view(sections@) == Seq::<SectionView>::empty(),
{
    let sections: Vec<Section> = Vec::new();
    proof {
        assert(sections_view(sections@) =~= Seq::<SectionView>::empty());
    }
    sections
}

/// One more section, unless it has no rows.
pub(crate) fn add_section(sections: &mut Vec<Section>, heading: Heading, rows: Vec<Row>)
    ensures
        sections_view(final(sections)@) == with_section(
            sections_view(old(sections)@),
            heading,
            rows_view(rows@),
        ),
{
    if rows.len() == 0 {
        return;
    }
    sections.push(Section { heading, rows });
    proof {
        assert(sections_view(sections@) =~= with_section(
            sections_view(old(sections)@),
            heading,
            rows_view(rows@),
        ));
    }
}

/// Some sections after some others.
pub(crate) fn add_sections(sections: &mut Vec<Section>, more: Vec<Section>)
    ensures
        sections_view(final(sections)@) == sections_view(old(sections)@) + sections_view(more@),
{
    let mut more = more;
    let ghost added = more@;
    sections.append(&mut more);
    proof {
        assert(sections_view(sections@) =~= sections_view(old(sections)@) + sections_view(added));
    }
}

/// The rows are called this.
pub proof fn rows_have_their_titles()
    ensures
        Item::Name.title_text() == "Name"@,
        Item::ListeningMode.title_text() == "Listening Mode"@,
        Item::PersonalizedVolume.title_text() == "Personalized Volume"@,
        Item::ConversationAwareness.title_text() == "Conversation Awareness"@,
        Item::CustomEq.title_text() == "Custom EQ"@,
        Item::LowBand.title_text() == "Low"@,
        Item::MidBand.title_text() == "Mid"@,
        Item::HighBand.title_text() == "High"@,
        Item::ResetEq.title_text() == "Reset"@,
        Item::OffListeningMode.title_text() == "Off Listening Mode"@,
        Item::HiResMicrophone.title_text() == "Hi-Res Microphone"@,
        Item::InputLevel.title_text() == "Input level"@,
        Item::MicrophoneTest.title_text() == "Microphone test"@,
        Item::LongPressLeft.title_text() == "Left"@,
        Item::LongPressRight.title_text() == "Right"@,
        Item::ListeningModes.title_text() == "Listening Modes"@,
        Item::CycleOff.title_text() == "Off"@,
        Item::CycleNoiseCancellation.title_text() == "Noise Cancellation"@,
        Item::CycleTransparency.title_text() == "Transparency"@,
        Item::CycleAdaptive.title_text() == "Adaptive"@,
        Item::AnswerCall.title_text() == "Answer Call"@,
        Item::MuteControl.title_text() == "Mute/Unmute"@,
        Item::HangUp.title_text() == "Hang Up"@,
        Item::MicrophoneMode.title_text() == "Microphone Mode"@,
        Item::SleepDetection.title_text() == "Pause media when falling asleep"@,
        Item::PressSpeed.title_text() == "Press Speed"@,
        Item::HoldDuration.title_text() == "Press and Hold Duration"@,
        Item::OneBudAnc.title_text() == "Noise Cancellation with Single AirPod"@,
        Item::ToneVolume.title_text() == "Tone Volume"@,
        Item::VolumeControl.title_text() == "Volume Control"@,
        Item::VolumeSwipeSpeed.title_text() == "Volume Swipe Speed"@,
        Item::AdaptiveAudio.title_text() == "Customize Adaptive Audio"@,
        Item::ModelNumber.title_text() == "Model Number"@,
        Item::Manufacturer.title_text() == "Manufacturer"@,
        Item::SerialNumber.title_text() == "Serial Number"@,
        Item::LeftSerialNumber.title_text() == "Left Serial Number"@,
        Item::RightSerialNumber.title_text() == "Right Serial Number"@,
        Item::Version1.title_text() == "Version 1"@,
        Item::Version2.title_text() == "Version 2"@,
        Item::Version3.title_text() == "Version 3"@,
        Item::Firmware.title_text() == "Firmware"@,
        Item::FirmwareVersion.title_text() == "Firmware Version"@,
        Item::NoiseControlMode.title_text() == "Noise Control Mode"@,
        Item::Theme.title_text() == "Theme"@,
        Item::TrayText.title_text() == "Use text in tray"@,
        Item::StemControl.title_text() == "Stem press track control"@,
        Item::PreferredCodec.title_text() == "Preferred audio codec"@,
        Item::AutoSwitch.title_text() == "Switch to this PC on playback"@,
        Item::A2dpReset.title_text() == "Reset A2DP transport"@,
        Item::HiResMicAgc.title_text() == "Hi-res mic auto gain"@,
        Item::HiResMicPauseConvo.title_text() == "Pause conversation awareness during capture"@,
{
}

/// The sections are called this, and one has no title.
pub proof fn sections_have_their_titles()
    ensures
        Heading::AudioSettings.shown() == Some("Audio Settings"@),
        Heading::NoiseControl.shown() == Some("Noise Control"@),
        Heading::Equalizer.shown() == Some("Equalizer"@),
        Heading::PressAndHold.shown() == Some("Press and Hold AirPods"@),
        Heading::CallControls.shown() == Some("Call Controls"@),
        Heading::Microphone.shown() == Some("Microphone"@),
        Heading::Accessibility.shown() == Some("Accessibility"@),
        Heading::AdaptiveAudio.shown() == Some("Adaptive Audio"@),
        Heading::DeviceInformation.shown() == Some("Device Information"@),
        Heading::Appearance.shown() == Some("Appearance"@),
        Heading::Controls.shown() == Some("Controls"@),
        Heading::Untitled.shown() is None,
        Item::ToneVolume.end_texts() == Some(("Quiet"@, "Loud"@)),
        Item::AdaptiveAudio.end_texts() == Some(("Less noise"@, "More noise"@)),
{
}

/// A section without rows is left out, and one with rows stands last.
pub proof fn only_sections_with_rows_are_shown(
    sections: Seq<SectionView>,
    heading: Heading,
    rows: Seq<RowView>,
)
    ensures
        ({
            let shown = with_section(sections, heading, rows);
            &&& rows.len() == 0 ==> shown == sections
            &&& rows.len() > 0 ==> shown.len() == sections.len() + 1 && shown.drop_last()
                == sections && shown.last().heading == heading && shown.last().rows == rows
        }),
{
    if rows.len() > 0 {
        assert(with_section(sections, heading, rows).drop_last() =~= sections);
    }
}

} // verus!
