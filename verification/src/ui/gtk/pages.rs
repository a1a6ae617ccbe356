//! What the pages of the GNOME window show, and what a change on them means.

use crate::bluetooth::settings::{
    CallControls, ClickHoldAction, CycleMode, MicMode, PressInterval, SwipeInterval,
};
use crate::devices::airpods::{AirPodsInformation, AirPodsInformationView};
use crate::devices::enums::AirPodsNoiseControlMode;
use crate::ui::airpods::mode_row;
use crate::ui::airpods_settings::settings_sections;
use crate::ui::choice::{option_at, Choice};
use crate::ui::equalizer::equalizer_section;
use crate::ui::gtk::battery::{Batteries, Level};
use crate::ui::gtk::controls::{Bud, ControlChange};
use crate::ui::gtk::model::equalizer::{EqBand, EqInput};
use crate::ui::gtk::model::mic::{MicTestShown, MicTestView};
use crate::ui::gtk::model::{
    AirPods, AirPodsView, Input, Model, ModelView, NameHint, NameHintView, Nothing, SettingChange,
    WindowSettings,
};
use crate::ui::gtk::theme::ThemePreference;
use crate::ui::nothing::choice;
use crate::ui::page::{
    add_row, add_section, add_sections, add_switch, no_rows, no_sections, Control, ControlView,
    Heading, Item, RowView, Section, SectionView,
};
use crate::utils::PreferredCodec;
use vstd::prelude::*;

verus! {

// The settings page

/// A row of the settings page.
#[derive(Debug, Clone, Copy, PartialEq, Eq, Structural)]
pub enum SettingsRow {
    Style,
    TrayText,
    Codec,
    AutoSwitch,
    A2dpReset,
    MicAgc,
    MicPauseConvo,
    StemControl,
}

/// The rows of the settings page, group by group.
pub fn settings_rows() -> (rows: [SettingsRow; 8])
    ensures
        rows@ == seq![
            SettingsRow::Style,
            SettingsRow::TrayText,
            SettingsRow::Codec,
            SettingsRow::AutoSwitch,
            SettingsRow::A2dpReset,
            SettingsRow::MicAgc,
            SettingsRow::MicPauseConvo,
            SettingsRow::StemControl,
        ],
{
    [
        SettingsRow::Style,
        SettingsRow::TrayText,
        SettingsRow::Codec,
        SettingsRow::AutoSwitch,
        SettingsRow::A2dpReset,
        SettingsRow::MicAgc,
        SettingsRow::MicPauseConvo,
        SettingsRow::StemControl,
    ]
}

impl SettingsRow {
    /// The title of the group of the row.
    pub open spec fn group_text(self) -> Seq<char> {
        match self {
            SettingsRow::Style => "Appearance"@,
            SettingsRow::TrayText => "Appearance"@,
            SettingsRow::Codec => "Audio"@,
            SettingsRow::AutoSwitch => "Audio"@,
            SettingsRow::A2dpReset => "Audio"@,
            SettingsRow::MicAgc => "Hi-Res Microphone"@,
            SettingsRow::MicPauseConvo => "Hi-Res Microphone"@,
            SettingsRow::StemControl => "Controls"@,
        }
    }

    /// The title of the row.
    pub open spec fn title_text(self) -> Seq<char> {
        match self {
            SettingsRow::Style => "Style"@,
            SettingsRow::TrayText => "Use text in tray"@,
            SettingsRow::Codec => "Preferred audio codec"@,
            SettingsRow::AutoSwitch => "Switch to this PC on playback"@,
            SettingsRow::A2dpReset => "Reset A2DP transport"@,
            SettingsRow::MicAgc => "Hi-res mic auto gain"@,
            SettingsRow::MicPauseConvo => "Pause conversation awareness during capture"@,
            SettingsRow::StemControl => "Stem press track control"@,
        }
    }

    /// The text under the title, where there is one.
    pub open spec fn subtitle_text(self) -> Option<Seq<char>> {
        match self {
            SettingsRow::Style => None,
            SettingsRow::TrayText => Some(
                "Use text for battery status in tray instead of a progress bar."@,
            ),
            SettingsRow::Codec => Some(
                "Codec to activate for playback. The others are used as fallbacks if the chosen one is unavailable."@,
            ),
            SettingsRow::AutoSwitch => Some(
                "When media starts playing here and the AirPods are on another device, connect them to this PC. They leave the other device, even mid-call."@,
            ),
            SettingsRow::A2dpReset => Some(
                "Briefly suspends and resumes A2DP after the hi-res mic starts or stops. Only turn on if playback stays on one AirPod after capture ends: some setups lose the audio transport after the reset, which cuts calls."@,
            ),
            SettingsRow::MicAgc => Some(
                "Automatically normalizes the hi-res microphone level. For most uses this should remain on. Disable for a raw, unprocessed capture."@,
            ),
            SettingsRow::MicPauseConvo => Some(
                "Turns off conversation awareness while the hi-res microphone is capturing, then restores it afterwards."@,
            ),
            SettingsRow::StemControl => Some(
                "Double press = next track, triple press = previous track. Disable if your environment handles AirPods AVRCP commands natively."@,
            ),
        }
    }

    /// What the row shows.
    pub open spec fn shown(self, settings: WindowSettings) -> ControlView {
        match self {
            SettingsRow::Style => crate::ui::nothing::choice_of(Some(settings.theme)),
            SettingsRow::TrayText => ControlView::Switch {
                on: settings.tray_text_mode,
                locked: false,
            },
            SettingsRow::Codec => crate::ui::nothing::choice_of(Some(settings.preferred_codec)),
            SettingsRow::AutoSwitch => ControlView::Switch {
                on: settings.auto_switch_on_playback,
                locked: false,
            },
            SettingsRow::A2dpReset => ControlView::Switch { on: settings.a2dp_reset, locked: false },
            SettingsRow::MicAgc => ControlView::Switch {
                on: settings.hires_mic_agc,
                locked: false,
            },
            SettingsRow::MicPauseConvo => ControlView::Switch {
                on: settings.hires_mic_pause_convo,
                locked: false,
            },
            SettingsRow::StemControl => ControlView::Switch {
                on: settings.stem_control,
                locked: false,
            },
        }
    }

    /// The change when the switch of the row is set; none for a choice.
    pub open spec fn change_of(self, on: bool) -> Option<SettingChange> {
        match self {
            SettingsRow::Style => None,
            SettingsRow::TrayText => Some(SettingChange::TrayTextMode(on)),
            SettingsRow::Codec => None,
            SettingsRow::AutoSwitch => Some(SettingChange::AutoSwitchOnPlayback(on)),
            SettingsRow::A2dpReset => Some(SettingChange::A2dpReset(on)),
            SettingsRow::MicAgc => Some(SettingChange::HiResMicAgc(on)),
            SettingsRow::MicPauseConvo => Some(SettingChange::HiResMicPauseConvo(on)),
            SettingsRow::StemControl => Some(SettingChange::StemControl(on)),
        }
    }

    /// The change when an option of the row is picked; none for a switch or
    /// past the end of the options.
    pub open spec fn pick_of(self, at: usize) -> Option<SettingChange> {
        match self {
            SettingsRow::Style => if at < ThemePreference::options().len() {
                Some(SettingChange::Theme(ThemePreference::options()[at as int]))
            } else {
                None
            },
            SettingsRow::Codec => if at < PreferredCodec::options().len() {
                Some(SettingChange::PreferredCodec(PreferredCodec::options()[at as int]))
            } else {
                None
            },
            _ => None,
        }
    }

    /// The title of the group of the row.
    pub fn group(self) -> (title: &'static str)
        ensures
            title@ == self.group_text(),
    {
        match self {
            SettingsRow::Style | SettingsRow::TrayText => "Appearance",
            SettingsRow::Codec | SettingsRow::AutoSwitch | SettingsRow::A2dpReset => "Audio",
            SettingsRow::MicAgc | SettingsRow::MicPauseConvo => "Hi-Res Microphone",
            SettingsRow::StemControl => "Controls",
        }
    }

    /// The title of the row.
    pub fn title(self) -> (title: &'static str)
        ensures
            title@ == self.title_text(),
    {
        match self {
            SettingsRow::Style => "Style",
            SettingsRow::TrayText => "Use text in tray",
            SettingsRow::Codec => "Preferred audio codec",
            SettingsRow::AutoSwitch => "Switch to this PC on playback",
            SettingsRow::A2dpReset => "Reset A2DP transport",
            SettingsRow::MicAgc => "Hi-res mic auto gain",
            SettingsRow::MicPauseConvo => "Pause conversation awareness during capture",
            SettingsRow::StemControl => "Stem press track control",
        }
    }

    /// The text under the title, where there is one.
    pub fn subtitle(self) -> (subtitle: Option<&'static str>)
        ensures
            self.subtitle_text() == (match subtitle {
                Some(s) => Some(s@),
                None => None,
            }),
    {
        match self {
            SettingsRow::Style => None,
            SettingsRow::TrayText => Some(
                "Use text for battery status in tray instead of a progress bar.",
            ),
            SettingsRow::Codec => Some(
                "Codec to activate for playback. The others are used as fallbacks if the chosen one is unavailable.",
            ),
            SettingsRow::AutoSwitch => Some(
                "When media starts playing here and the AirPods are on another device, connect them to this PC. They leave the other device, even mid-call.",
            ),
            SettingsRow::A2dpReset => Some(
                "Briefly suspends and resumes A2DP after the hi-res mic starts or stops. Only turn on if playback stays on one AirPod after capture ends: some setups lose the audio transport after the reset, which cuts calls.",
            ),
            SettingsRow::MicAgc => Some(
                "Automatically normalizes the hi-res microphone level. For most uses this should remain on. Disable for a raw, unprocessed capture.",
            ),
            SettingsRow::MicPauseConvo => Some(
                "Turns off conversation awareness while the hi-res microphone is capturing, then restores it afterwards.",
            ),
            SettingsRow::StemControl => Some(
                "Double press = next track, triple press = previous track. Disable if your environment handles AirPods AVRCP commands natively.",
            ),
        }
    }

    /// What the row shows.
    pub fn control(self, settings: &WindowSettings) -> (control: Control)
        ensures
            control@ == self.shown(*settings),
    {
        match self {
            SettingsRow::Style => choice(Some(settings.theme)),
            SettingsRow::TrayText => Control::Switch {
                on: settings.tray_text_mode,
                locked: false,
            },
            SettingsRow::Codec => choice(Some(settings.preferred_codec)),
            SettingsRow::AutoSwitch => Control::Switch {
                on: settings.auto_switch_on_playback,
                locked: false,
            },
            SettingsRow::A2dpReset => Control::Switch { on: settings.a2dp_reset, locked: false },
            SettingsRow::MicAgc => Control::Switch { on: settings.hires_mic_agc, locked: false },
            SettingsRow::MicPauseConvo => Control::Switch {
                on: settings.hires_mic_pause_convo,
                locked: false,
            },
            SettingsRow::StemControl => Control::Switch {
                on: settings.stem_control,
                locked: false,
            },
        }
    }

    /// The change when the switch of the row is set.
    pub fn switched(self, on: bool) -> (change: Option<SettingChange>)
        ensures
            change == self.change_of(on),
    {
        match self {
            SettingsRow::Style | SettingsRow::Codec => None,
            SettingsRow::TrayText => Some(SettingChange::TrayTextMode(on)),
            SettingsRow::AutoSwitch => Some(SettingChange::AutoSwitchOnPlayback(on)),
            SettingsRow::A2dpReset => Some(SettingChange::A2dpReset(on)),
            SettingsRow::MicAgc => Some(SettingChange::HiResMicAgc(on)),
            SettingsRow::MicPauseConvo => Some(SettingChange::HiResMicPauseConvo(on)),
            SettingsRow::StemControl => Some(SettingChange::StemControl(on)),
        }
    }

    /// The change when an option of the row is picked.
    pub fn picked(self, at: usize) -> (change: Option<SettingChange>)
        ensures
            change == self.pick_of(at),
    {
        match self {
            SettingsRow::Style => match option_at::<ThemePreference>(at) {
                Some(theme) => Some(SettingChange::Theme(theme)),
                None => None,
            },
            SettingsRow::Codec => match option_at::<PreferredCodec>(at) {
                Some(codec) => Some(SettingChange::PreferredCodec(codec)),
                None => None,
            },
            _ => None,
        }
    }
}

/// What a row shows is what it last was set to: setting a switch or picking
/// an option, and looking at the row, gives it back.
pub proof fn settings_rows_show_their_changes(row: SettingsRow, settings: WindowSettings, on: bool, at: usize)
    ensures
        row.change_of(on) matches Some(change) ==> row.shown(
            crate::ui::gtk::model::changed_settings(settings, change),
        ) == (ControlView::Switch { on, locked: false }),
        row.pick_of(at) matches Some(change) ==> (row.shown(
            crate::ui::gtk::model::changed_settings(settings, change),
        ) matches ControlView::Choice { selected, .. } && selected == Some(at)),
{
}

// The AirPods page

/// One battery of the AirPods page.
#[derive(Debug, Clone, PartialEq, Eq)]
pub struct BatteryCard {
    pub caption: &'static str,
    pub icon: String,
    pub text: String,
    /// Drawn dimmed, as the last known level.
    pub stale: bool,
}

/// The mathematical content of a `BatteryCard`.
#[verifier::ext_equal]
pub struct BatteryCardView {
    pub caption: Seq<char>,
    pub icon: Seq<char>,
    pub text: Seq<char>,
    pub stale: bool,
}

impl View for BatteryCard {
    type V = BatteryCardView;

    open spec fn view(&self) -> BatteryCardView {
        BatteryCardView {
            caption: self.caption@,
            icon: self.icon@,
            text: self.text@,
            stale: self.stale,
        }
    }
}

/// The mathematical content of some cards.
pub open spec fn cards_view(cards: Seq<BatteryCard>) -> Seq<BatteryCardView> {
    cards.map_values(|c: BatteryCard| c@)
}

/// The card of a battery.
pub open spec fn card_of(entry: (Seq<char>, Level)) -> BatteryCardView {
    BatteryCardView {
        caption: entry.0,
        icon: entry.1.shown_icon(),
        text: entry.1.shown_text(),
        stale: entry.1.stale,
    }
}

/// Whether anything is known of the batteries: those of buds are hidden
/// while no level is.
pub open spec fn anything_known(batteries: Batteries) -> bool {
    match batteries {
        Batteries::Headphone(_) => true,
        Batteries::Buds { left, right, case } => left.percent is Some || right.percent is Some
            || case.percent is Some,
    }
}

/// The cards of the batteries, one per battery in display order; none while
/// nothing is known of buds.
pub open spec fn shown_cards(batteries: Batteries) -> Seq<BatteryCardView> {
    if anything_known(batteries) {
        batteries.with_labels().map_values(|e: (Seq<char>, Level)| card_of(e))
    } else {
        Seq::empty()
    }
}

/// The cards of the batteries.
pub fn battery_cards(batteries: &Batteries) -> (cards: Vec<BatteryCard>)
    ensures
        cards_view(cards@) == shown_cards(*batteries),
{
    let mut cards: Vec<BatteryCard> = Vec::new();
    let known = match *batteries {
        Batteries::Headphone(_) => true,
        Batteries::Buds { left, right, case } => left.percent.is_some()
            || right.percent.is_some() || case.percent.is_some(),
    };
    if !known {
        proof {
            assert(cards_view(cards@) =~= shown_cards(*batteries));
        }
        return cards;
    }
    let labeled = batteries.labeled();
    let ghost wanted = batteries.with_labels();
    let mut i: usize = 0;
    while i < labeled.len()
        invariant
            i <= labeled@.len(),
            wanted == crate::ui::gtk::battery::labeled_view(labeled@),
            cards@.len() == i,
            forall|j: int| 0 <= j < i ==> (#[trigger] cards@[j])@ == card_of(wanted[j]),
        decreases labeled@.len() - i,
    {
        let (caption, level) = labeled[i];
        cards.push(
            BatteryCard { caption, icon: level.icon_name(), text: level.text(), stale: level.stale },
        );
        i = i + 1;
    }
    proof {
        assert(cards_view(cards@) =~= shown_cards(*batteries));
    }
    cards
}

/// The name field of the AirPods page.
#[derive(Debug, Clone, PartialEq, Eq)]
pub struct NameField {
    /// The text to show; None while the user edits, when the field keeps the
    /// draft.
    pub text: Option<String>,
    pub hint: &'static str,
    /// The draft cannot be sent.
    pub error: bool,
}

/// The mathematical content of a `NameField`.
#[verifier::ext_equal]
pub struct NameFieldView {
    pub text: Option<Seq<char>>,
    pub hint: Seq<char>,
    pub error: bool,
}

impl View for NameField {
    type V = NameFieldView;

    open spec fn view(&self) -> NameFieldView {
        NameFieldView {
            text: match self.text {
                Some(t) => Some(t@),
                None => None,
            },
            hint: self.hint@,
            error: self.error,
        }
    }
}

/// The name field for a name and a hint.
pub open spec fn shown_name(name: Seq<char>, hint: Option<NameHintView>) -> NameFieldView {
    match hint {
        None => NameFieldView { text: Some(name), hint: ""@, error: false },
        Some(NameHintView::PressEnter) => NameFieldView {
            text: None,
            hint: "Press Enter to rename"@,
            error: false,
        },
        Some(NameHintView::Invalid(why)) => NameFieldView { text: None, hint: why, error: true },
    }
}

/// The name field for a name and a hint.
pub fn name_field(name: &str, hint: Option<NameHint>) -> (field: NameField)
    ensures
        field@ == shown_name(
            name@,
            match hint {
                Some(h) => Some(h@),
                None => None,
            },
        ),
{
    match hint {
        None => NameField { text: Some(name.to_string()), hint: "", error: false },
        Some(NameHint::PressEnter) => NameField {
            text: None,
            hint: "Press Enter to rename",
            error: false,
        },
        Some(NameHint::Invalid(why)) => NameField { text: None, hint: why, error: true },
    }
}

/// The rows on noise control: the listening mode and the switches that shape
/// it.
pub open spec fn noise_rows(airpods: AirPodsView, awareness_locked: bool) -> Seq<RowView> {
    Seq::empty().push(
        crate::ui::page::row_of(Item::ListeningMode, crate::ui::airpods::mode_choice(airpods)),
    ).push(
        crate::ui::page::row_of(
            Item::ConversationAwareness,
            ControlView::Switch { on: airpods.conversation_awareness, locked: awareness_locked },
        ),
    ).push(
        crate::ui::page::switch_row(Item::PersonalizedVolume, airpods.personalized_volume),
    ).push(crate::ui::page::switch_row(Item::OffListeningMode, airpods.allow_off))
}

/// The rows of the device information.
pub open spec fn info_rows(info: Option<AirPodsInformationView>) -> Seq<RowView> {
    match info {
        Some(i) => Seq::empty().push(
            crate::ui::page::row_of(Item::ModelNumber, ControlView::Text(i.model_number)),
        ).push(
            crate::ui::page::row_of(Item::Manufacturer, ControlView::Text(i.manufacturer)),
        ).push(
            crate::ui::page::row_of(Item::SerialNumber, ControlView::Copy(i.serial_number)),
        ).push(
            crate::ui::page::row_of(
                Item::LeftSerialNumber,
                ControlView::Copy(i.left_serial_number),
            ),
        ).push(
            crate::ui::page::row_of(
                Item::RightSerialNumber,
                ControlView::Copy(i.right_serial_number),
            ),
        ).push(crate::ui::page::row_of(Item::Firmware, ControlView::Text(i.version1))).push(
            crate::ui::page::row_of(Item::Version2, ControlView::Text(i.version2)),
        ).push(crate::ui::page::row_of(Item::Version3, ControlView::Text(i.version3))),
        None => Seq::empty(),
    }
}

/// The AirPods page, from top to bottom.
#[derive(Debug, Clone)]
pub struct AirPodsPage {
    pub batteries: Vec<BatteryCard>,
    pub name: NameField,
    /// Noise control and the equalizer.
    pub upper: Vec<Section>,
    pub microphone: MicrophoneRows,
    /// The reported settings and the device information.
    pub lower: Vec<Section>,
}

/// The mathematical content of an `AirPodsPage`.
#[verifier::ext_equal]
pub struct AirPodsPageView {
    pub batteries: Seq<BatteryCardView>,
    pub name: NameFieldView,
    pub upper: Seq<SectionView>,
    pub microphone: MicrophoneRowsView,
    pub lower: Seq<SectionView>,
}

impl View for AirPodsPage {
    type V = AirPodsPageView;

    open spec fn view(&self) -> AirPodsPageView {
        AirPodsPageView {
            batteries: cards_view(self.batteries@),
            name: self.name@,
            upper: crate::ui::page::sections_view(self.upper@),
            microphone: self.microphone@,
            lower: crate::ui::page::sections_view(self.lower@),
        }
    }
}

/// The microphone section of the AirPods page.
#[derive(Debug, Clone)]
pub struct MicrophoneRows {
    /// The hi-res microphone is on.
    pub hires: bool,
    /// The line and the bits of the level of the meter, while an app records.
    pub meter: Option<(String, u32)>,
    /// The microphone test, while the hi-res microphone is on.
    pub test: Option<MicTestView>,
}

/// The mathematical content of `MicrophoneRows`.
#[verifier::ext_equal]
pub struct MicrophoneRowsView {
    pub hires: bool,
    pub meter: Option<(Seq<char>, u32)>,
    pub test: Option<MicTestShown>,
}

impl View for MicrophoneRows {
    type V = MicrophoneRowsView;

    open spec fn view(&self) -> MicrophoneRowsView {
        MicrophoneRowsView {
            hires: self.hires,
            meter: match self.meter {
                Some((line, level)) => Some((line@, level)),
                None => None,
            },
            test: match self.test {
                Some(t) => Some(t@),
                None => None,
            },
        }
    }
}

impl ModelView {
    /// The microphone section of the page of AirPods.
    pub open spec fn microphone_rows(self, mac: Seq<char>) -> MicrophoneRowsView {
        MicrophoneRowsView {
            hires: self.settings.hires_mic_enabled,
            meter: if self.capturing(mac) {
                Some(
                    (
                        match self.mic.capture[mac].app {
                            Some(app) => "In use by "@ + app,
                            None => "Input level"@,
                        },
                        self.mic.capture[mac].level,
                    ),
                )
            } else {
                None
            },
            test: if self.settings.hires_mic_enabled {
                Some(crate::ui::gtk::model::mic::test_rows(self.mic.test))
            } else {
                None
            },
        }
    }

    /// The page of connected AirPods.
    pub open spec fn airpods_page(self, mac: Seq<char>) -> AirPodsPageView {
        let airpods = self.airpods[mac];
        AirPodsPageView {
            batteries: shown_cards(
                crate::ui::gtk::battery::batteries_shown(airpods.battery, self.case_level(mac)),
            ),
            name: shown_name(airpods.name, self.hint_for(mac)),
            upper: crate::ui::page::with_section(
                Seq::empty(),
                Heading::NoiseControl,
                noise_rows(airpods, self.awareness_locked(mac)),
            ) + crate::ui::equalizer::equalizer_card(
                match self.airpods_information(mac) {
                    Some(info) => Some(info.model_number),
                    None => None,
                },
                self.eq_shown(mac),
            ),
            microphone: self.microphone_rows(mac),
            lower: crate::ui::page::with_section(
                crate::ui::airpods_settings::shown_sections(airpods),
                Heading::DeviceInformation,
                info_rows(self.airpods_information(mac)),
            ),
        }
    }
}

fn noise_section(airpods: &AirPods, awareness_locked: bool) -> (sections: Vec<Section>)
    ensures
        crate::ui::page::sections_view(sections@) == crate::ui::page::with_section(
            Seq::empty(),
            Heading::NoiseControl,
            noise_rows(airpods@, awareness_locked),
        ),
{
    let mut sections = no_sections();
    let mut rows = no_rows();
    add_row(&mut rows, Item::ListeningMode, mode_row(airpods));
    add_row(
        &mut rows,
        Item::ConversationAwareness,
        Control::Switch { on: airpods.conversation_awareness, locked: awareness_locked },
    );
    add_switch(&mut rows, Item::PersonalizedVolume, airpods.personalized_volume);
    add_switch(&mut rows, Item::OffListeningMode, airpods.allow_off);
    add_section(&mut sections, Heading::NoiseControl, rows);
    sections
}

fn add_info(sections: &mut Vec<Section>, info: Option<&AirPodsInformation>)
    ensures
        crate::ui::page::sections_view(final(sections)@) == crate::ui::page::with_section(
            crate::ui::page::sections_view(old(sections)@),
            Heading::DeviceInformation,
            info_rows(
                match info {
                    Some(i) => Some(i@),
                    None => None,
                },
            ),
        ),
{
    let mut rows = no_rows();
    match info {
        Some(i) => {
            add_row(&mut rows, Item::ModelNumber, Control::Text(i.model_number.clone()));
            add_row(&mut rows, Item::Manufacturer, Control::Text(i.manufacturer.clone()));
            add_row(&mut rows, Item::SerialNumber, Control::Copy(i.serial_number.clone()));
            add_row(&mut rows, Item::LeftSerialNumber, Control::Copy(i.left_serial_number.clone()));
            add_row(
                &mut rows,
                Item::RightSerialNumber,
                Control::Copy(i.right_serial_number.clone()),
            );
            add_row(&mut rows, Item::Firmware, Control::Text(i.version1.clone()));
            add_row(&mut rows, Item::Version2, Control::Text(i.version2.clone()));
            add_row(&mut rows, Item::Version3, Control::Text(i.version3.clone()));
        },
        None => {},
    }
    add_section(sections, Heading::DeviceInformation, rows);
}

impl Model {
    /// The microphone section of the page of AirPods: the switch, the level
    /// meter while an app records, and the microphone test.
    pub fn microphone_rows(&self, mac: &str) -> (rows: MicrophoneRows)
        requires
            self.parts_wf(),
        ensures
            rows@ == self@.microphone_rows(mac@),
    {
        let hires = self.settings().hires_mic_enabled;
        let meter = match self.mic_capture(mac) {
            Some(capture) => Some((capture.title(), capture.level)),
            None => None,
        };
        let test = if hires {
            Some(self.mic_test().rows())
        } else {
            None
        };
        MicrophoneRows { hires, meter, test }
    }

    /// The page of connected AirPods; None where they are not connected.
    pub fn airpods_page(&self, mac: &str) -> (page: Option<AirPodsPage>)
        requires
            self.parts_wf(),
        ensures
            match page {
                Some(p) => self@.airpods.contains_key(mac@) && p@ == self@.airpods_page(mac@),
                None => !self@.airpods.contains_key(mac@),
            },
    {
        let airpods = match self.airpods(mac) {
            Some(airpods) => airpods,
            None => {
                return None;
            },
        };
        let batteries = match self.batteries(mac) {
            Some(shown) => battery_cards(&shown),
            None => Vec::new(),
        };
        let info = self.information(mac);
        let number = match info {
            Some(info) => Some(info.model_number.as_str()),
            None => None,
        };
        let mut upper = noise_section(airpods, self.conversation_awareness_locked(mac));
        add_sections(&mut upper, equalizer_section(number, self.custom_eq(mac)));
        let mut lower = settings_sections(airpods);
        add_info(&mut lower, info);
        Some(
            AirPodsPage {
                batteries,
                name: name_field(airpods.name.as_str(), self.name_hint(mac)),
                upper,
                microphone: self.microphone_rows(mac),
                lower,
            },
        )
    }
}

/// The dim text under the title of a row of the AirPods page.
pub open spec fn subtitle_text(item: Item) -> Option<Seq<char>> {
    match item {
        Item::AdaptiveAudio => Some(
            "Adaptive Audio dynamically responds to your environment and cancels or allows external noise. You can customize Adaptive Audio to allow more or less noise."@,
        ),
        _ => item.description_text(),
    }
}

/// The dim text under the title of a row of the AirPods page.
pub fn subtitle(item: Item) -> (subtitle: Option<&'static str>)
    ensures
        subtitle_text(item) == (match subtitle {
            Some(s) => Some(s@),
            None => None,
        }),
{
    match item {
        Item::AdaptiveAudio => Some(
            "Adaptive Audio dynamically responds to your environment and cancels or allows external noise. You can customize Adaptive Audio to allow more or less noise.",
        ),
        _ => item.description(),
    }
}

// What a change on a page means

/// The listening mode at a place of the choice.
pub fn picked_mode(airpods: &AirPods, at: usize) -> (mode: Option<AirPodsNoiseControlMode>)
    ensures
        mode == (if at < airpods@.offered_modes().len() {
            Some(airpods@.offered_modes()[at as int])
        } else {
            None
        }),
{
    let modes = airpods.listening_modes();
    if at < modes.len() {
        Some(modes[at])
    } else {
        None
    }
}

/// The noise control mode of a Nothing device, as a choice among all modes.
pub fn nothing_control(nothing: &Nothing) -> (control: Control)
    ensures
        control@ == crate::ui::nothing::choice_of(Some(nothing@)),
{
    choice(Some(nothing.anc_mode))
}

/// The option at a place.
pub open spec fn nth<T: Choice>(at: usize) -> Option<T> {
    if at < T::options().len() {
        Some(T::options()[at as int])
    } else {
        None
    }
}

/// What picking an option of a settings row changes.
pub open spec fn pick_change(item: Item, at: usize) -> Option<ControlChange> {
    match item {
        Item::LongPressLeft => match nth::<ClickHoldAction>(at) {
            Some(action) => Some(ControlChange::LongPress(Bud::Left, action)),
            None => None,
        },
        Item::LongPressRight => match nth::<ClickHoldAction>(at) {
            Some(action) => Some(ControlChange::LongPress(Bud::Right, action)),
            None => None,
        },
        Item::MuteControl => match nth::<CallControls>(at) {
            Some(controls) => Some(ControlChange::MuteControl(controls)),
            None => None,
        },
        Item::MicrophoneMode => match nth::<MicMode>(at) {
            Some(mode) => Some(ControlChange::MicMode(mode)),
            None => None,
        },
        Item::PressSpeed => match nth::<PressInterval>(at) {
            Some(interval) => Some(ControlChange::PressSpeed(interval)),
            None => None,
        },
        Item::HoldDuration => match nth::<PressInterval>(at) {
            Some(interval) => Some(ControlChange::HoldDuration(interval)),
            None => None,
        },
        Item::VolumeSwipeSpeed => match nth::<SwipeInterval>(at) {
            Some(interval) => Some(ControlChange::SwipeSpeed(interval)),
            None => None,
        },
        _ => None,
    }
}

/// What picking an option of a settings row changes; nothing past the end of
/// its options.
pub fn picked(item: Item, at: usize) -> (change: Option<ControlChange>)
    ensures
        change == pick_change(item, at),
{
    match item {
        Item::LongPressLeft => match option_at::<ClickHoldAction>(at) {
            Some(action) => Some(ControlChange::LongPress(Bud::Left, action)),
            None => None,
        },
        Item::LongPressRight => match option_at::<ClickHoldAction>(at) {
            Some(action) => Some(ControlChange::LongPress(Bud::Right, action)),
            None => None,
        },
        Item::MuteControl => match option_at::<CallControls>(at) {
            Some(controls) => Some(ControlChange::MuteControl(controls)),
            None => None,
        },
        Item::MicrophoneMode => match option_at::<MicMode>(at) {
            Some(mode) => Some(ControlChange::MicMode(mode)),
            None => None,
        },
        Item::PressSpeed => match option_at::<PressInterval>(at) {
            Some(interval) => Some(ControlChange::PressSpeed(interval)),
            None => None,
        },
        Item::HoldDuration => match option_at::<PressInterval>(at) {
            Some(interval) => Some(ControlChange::HoldDuration(interval)),
            None => None,
        },
        Item::VolumeSwipeSpeed => match option_at::<SwipeInterval>(at) {
            Some(interval) => Some(ControlChange::SwipeSpeed(interval)),
            None => None,
        },
        _ => None,
    }
}

/// What setting the switch of a settings row changes.
pub open spec fn switch_change(item: Item, on: bool) -> Option<ControlChange> {
    match item {
        Item::CycleOff => Some(ControlChange::CycleMode(CycleMode::Off, on)),
        Item::CycleNoiseCancellation => Some(
            ControlChange::CycleMode(CycleMode::NoiseCancellation, on),
        ),
        Item::CycleTransparency => Some(ControlChange::CycleMode(CycleMode::Transparency, on)),
        Item::CycleAdaptive => Some(ControlChange::CycleMode(CycleMode::Adaptive, on)),
        Item::SleepDetection => Some(ControlChange::SleepDetection(on)),
        Item::OneBudAnc => Some(ControlChange::OneBudAnc(on)),
        Item::VolumeControl => Some(ControlChange::VolumeSwipe(on)),
        _ => None,
    }
}

/// What setting the switch of a settings row changes.
pub fn switched(item: Item, on: bool) -> (change: Option<ControlChange>)
    ensures
        change == switch_change(item, on),
{
    match item {
        Item::CycleOff => Some(ControlChange::CycleMode(CycleMode::Off, on)),
        Item::CycleNoiseCancellation => Some(
            ControlChange::CycleMode(CycleMode::NoiseCancellation, on),
        ),
        Item::CycleTransparency => Some(ControlChange::CycleMode(CycleMode::Transparency, on)),
        Item::CycleAdaptive => Some(ControlChange::CycleMode(CycleMode::Adaptive, on)),
        Item::SleepDetection => Some(ControlChange::SleepDetection(on)),
        Item::OneBudAnc => Some(ControlChange::OneBudAnc(on)),
        Item::VolumeControl => Some(ControlChange::VolumeSwipe(on)),
        _ => None,
    }
}

/// What moving the slider of a settings row changes.
pub open spec fn slide_change(item: Item, position: u8) -> Option<ControlChange> {
    match item {
        Item::ToneVolume => Some(ControlChange::ToneVolume(position)),
        Item::AdaptiveAudio => Some(ControlChange::AdaptiveNoise(position)),
        _ => None,
    }
}

/// What moving the slider of a settings row changes.
pub fn slid(item: Item, position: u8) -> (change: Option<ControlChange>)
    ensures
        change == (match item {
            Item::ToneVolume => Some(ControlChange::ToneVolume(position)),
            Item::AdaptiveAudio => Some(ControlChange::AdaptiveNoise(position)),
            _ => None,
        }),
        change == slide_change(item, position),
{
    match item {
        Item::ToneVolume => Some(ControlChange::ToneVolume(position)),
        Item::AdaptiveAudio => Some(ControlChange::AdaptiveNoise(position)),
        _ => None,
    }
}

/// What setting the switch of a row of the AirPods page says.
pub open spec fn switch_input(item: Item, mac: String, on: bool) -> Option<Input> {
    match item {
        Item::ConversationAwareness => Some(Input::SetConversationAwareness(mac, on)),
        Item::PersonalizedVolume => Some(Input::SetPersonalizedVolume(mac, on)),
        Item::OffListeningMode => Some(Input::SetAllowOff(mac, on)),
        Item::CustomEq => Some(Input::Equalizer(EqInput::SetEnabled(mac, on))),
        _ => match switch_change(item, on) {
            Some(change) => Some(Input::AirPodsControl(mac, change)),
            None => None,
        },
    }
}

/// What setting the switch of a row of the AirPods page says.
pub fn page_input(item: Item, mac: String, on: bool) -> (input: Option<Input>)
    ensures
        input == (match item {
            Item::ConversationAwareness => Some(Input::SetConversationAwareness(mac, on)),
            Item::PersonalizedVolume => Some(Input::SetPersonalizedVolume(mac, on)),
            Item::OffListeningMode => Some(Input::SetAllowOff(mac, on)),
            Item::CustomEq => Some(Input::Equalizer(EqInput::SetEnabled(mac, on))),
            _ => match switch_change(item, on) {
                Some(change) => Some(Input::AirPodsControl(mac, change)),
                None => None,
            },
        }),
        input == switch_input(item, mac, on),
{
    match item {
        Item::ConversationAwareness => Some(Input::SetConversationAwareness(mac, on)),
        Item::PersonalizedVolume => Some(Input::SetPersonalizedVolume(mac, on)),
        Item::OffListeningMode => Some(Input::SetAllowOff(mac, on)),
        Item::CustomEq => Some(Input::Equalizer(EqInput::SetEnabled(mac, on))),
        _ => match switched(item, on) {
            Some(change) => Some(Input::AirPodsControl(mac, change)),
            None => None,
        },
    }
}

/// What moving the slider of a row of the AirPods page says.
pub open spec fn slide_input(item: Item, mac: String, value: u8) -> Option<Input> {
    match item {
        Item::LowBand => Some(Input::Equalizer(EqInput::SetBand(mac, EqBand::Low, value))),
        Item::MidBand => Some(Input::Equalizer(EqInput::SetBand(mac, EqBand::Mid, value))),
        Item::HighBand => Some(Input::Equalizer(EqInput::SetBand(mac, EqBand::High, value))),
        _ => match slide_change(item, value) {
            Some(change) => Some(Input::AirPodsControl(mac, change)),
            None => None,
        },
    }
}

/// What moving the slider of a row of the AirPods page says.
pub fn slider_input(item: Item, mac: String, value: u8) -> (input: Option<Input>)
    ensures
        input == (match item {
            Item::LowBand => Some(Input::Equalizer(EqInput::SetBand(mac, EqBand::Low, value))),
            Item::MidBand => Some(Input::Equalizer(EqInput::SetBand(mac, EqBand::Mid, value))),
            Item::HighBand => Some(Input::Equalizer(EqInput::SetBand(mac, EqBand::High, value))),
            Item::ToneVolume => Some(Input::AirPodsControl(mac, ControlChange::ToneVolume(value))),
            Item::AdaptiveAudio => Some(
                Input::AirPodsControl(mac, ControlChange::AdaptiveNoise(value)),
            ),
            _ => None,
        }),
        input == slide_input(item, mac, value),
{
    match item {
        Item::LowBand => Some(Input::Equalizer(EqInput::SetBand(mac, EqBand::Low, value))),
        Item::MidBand => Some(Input::Equalizer(EqInput::SetBand(mac, EqBand::Mid, value))),
        Item::HighBand => Some(Input::Equalizer(EqInput::SetBand(mac, EqBand::High, value))),
        _ => match slid(item, value) {
            Some(change) => Some(Input::AirPodsControl(mac, change)),
            None => None,
        },
    }
}

/// What picking an option of a row of the AirPods page says: a listening mode
/// among those the AirPods offer, or a setting.
pub open spec fn pick_input(airpods: AirPodsView, item: Item, mac: String, at: usize) -> Option<
    Input,
> {
    match item {
        Item::ListeningMode => if at < airpods.offered_modes().len() {
            Some(Input::SetListeningMode(mac, airpods.offered_modes()[at as int]))
        } else {
            None
        },
        _ => match pick_change(item, at) {
            Some(change) => Some(Input::AirPodsControl(mac, change)),
            None => None,
        },
    }
}

/// What picking an option of a row of the AirPods page says: a listening mode
/// among those the AirPods offer, or a setting.
pub fn choice_input(airpods: &AirPods, item: Item, mac: String, at: usize) -> (input: Option<
    Input,
>)
    ensures
        input == (match item {
            Item::ListeningMode => if at < airpods@.offered_modes().len() {
                Some(Input::SetListeningMode(mac, airpods@.offered_modes()[at as int]))
            } else {
                None
            },
            _ => match pick_change(item, at) {
                Some(change) => Some(Input::AirPodsControl(mac, change)),
                None => None,
            },
        }),
        input == pick_input(airpods@, item, mac, at),
{
    match item {
        Item::ListeningMode => match picked_mode(airpods, at) {
            Some(mode) => Some(Input::SetListeningMode(mac, mode)),
            None => None,
        },
        _ => match picked(item, at) {
            Some(change) => Some(Input::AirPodsControl(mac, change)),
            None => None,
        },
    }
}

/// Picking the option that shows a value sends that value.
pub proof fn options_are_picked_by_their_place(
    bud: ClickHoldAction,
    mute: CallControls,
    mic: MicMode,
    press: PressInterval,
    swipe: SwipeInterval,
)
    ensures
        pick_change(Item::LongPressLeft, bud.place()) == Some(
            ControlChange::LongPress(Bud::Left, bud),
        ),
        pick_change(Item::LongPressRight, bud.place()) == Some(
            ControlChange::LongPress(Bud::Right, bud),
        ),
        pick_change(Item::MuteControl, mute.place()) == Some(ControlChange::MuteControl(mute)),
        pick_change(Item::MicrophoneMode, mic.place()) == Some(ControlChange::MicMode(mic)),
        pick_change(Item::PressSpeed, press.place()) == Some(ControlChange::PressSpeed(press)),
        pick_change(Item::HoldDuration, press.place()) == Some(ControlChange::HoldDuration(press)),
        pick_change(Item::VolumeSwipeSpeed, swipe.place()) == Some(
            ControlChange::SwipeSpeed(swipe),
        ),
{
}

} // verus!
