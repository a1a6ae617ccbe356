//! Settings with a few values to choose from, as a list of options shows them.

use crate::bluetooth::settings::{
    CallControls, ClickHoldAction, MicMode, PressInterval, SwipeInterval,
};
use crate::devices::enums::{AirPodsNoiseControlMode, DeviceType, NothingAncMode};
use crate::ui::gtk::theme::ThemePreference;
use crate::utils::{MyTheme, PreferredCodec};
use vstd::prelude::*;

verus! {

/// A value out of a short list.
pub trait Choice: Sized {
    /// The values, in the order of the list.
    spec fn options() -> Seq<Self>;

    /// The text of a value.
    spec fn text(self) -> Seq<char>;

    /// The place of a value in the list.
    spec fn place(self) -> usize;

    /// The values, in the order of the list.
    fn choices() -> (values: Vec<Self>)
        ensures
            values@ == Self::options(),
    ;

    /// The text of a value.
    fn name(&self) -> (name: &'static str)
        ensures
            name@ == self.text(),
    ;

    /// The place of a value in the list.
    fn index(&self) -> (at: usize)
        ensures
            at == self.place(),
            at < Self::options().len(),
            Self::options()[at as int] == *self,
    ;
}

/// The texts of some options.
pub open spec fn option_texts<T: Choice>(options: Seq<T>) -> Seq<Seq<char>> {
    options.map_values(|o: T| o.text())
}

/// The view of some labels.
pub open spec fn labels_view(labels: Seq<&'static str>) -> Seq<Seq<char>> {
    labels.map_values(|l: &'static str| l@)
}

/// The texts of some options.
pub fn labels<T: Choice>(options: &Vec<T>) -> (labels: Vec<&'static str>)
    ensures
        labels_view(labels@) == option_texts(options@),
{
    let mut labels: Vec<&'static str> = Vec::new();
    let mut i: usize = 0;
    while i < options.len()
        invariant
            i <= options@.len(),
            labels@.len() == i,
            forall|j: int| 0 <= j < i ==> (#[trigger] labels@[j])@ == options@[j].text(),
        decreases options@.len() - i,
    {
        labels.push(options[i].name());
        i = i + 1;
    }
    proof {
        assert(labels_view(labels@) =~= option_texts(options@));
    }
    labels
}

/// The value at a place of the list; None past its end.
pub fn option_at<T: Choice>(at: usize) -> (value: Option<T>)
    ensures
        value == (if at < T::options().len() {
            Some(T::options()[at as int])
        } else {
            None
        }),
{
    let mut values = T::choices();
    if at < values.len() {
        Some(values.swap_remove(at))
    } else {
        None
    }
}

/// The place of a value that may be missing.
pub open spec fn place_of<T: Choice>(value: Option<T>) -> Option<usize> {
    match value {
        Some(v) => Some(v.place()),
        None => None,
    }
}

/// The place of a value that may be missing.
pub fn position<T: Choice>(value: &Option<T>) -> (at: Option<usize>)
    ensures
        at == place_of(*value),
{
    match value {
        Some(v) => Some(v.index()),
        None => None,
    }
}

impl Choice for ClickHoldAction {
    open spec fn options() -> Seq<ClickHoldAction> {
        seq![
            ClickHoldAction::NoiseControl,
            ClickHoldAction::Siri,
        ]
    }

    open spec fn text(self) -> Seq<char> {
        match self {
            ClickHoldAction::NoiseControl => "Noise Control"@,
            ClickHoldAction::Siri => "Siri"@,
        }
    }

    open spec fn place(self) -> usize {
        match self {
            ClickHoldAction::NoiseControl => 0,
            ClickHoldAction::Siri => 1,
        }
    }

    fn choices() -> (values: Vec<ClickHoldAction>) {
        let values: Vec<ClickHoldAction> = vec![
            ClickHoldAction::NoiseControl,
            ClickHoldAction::Siri,
        ];
        proof {
            assert(values@ =~= Self::options());
        }
        values
    }

    fn name(&self) -> (name: &'static str) {
        self.label()
    }

    fn index(&self) -> (at: usize) {
        match self {
            ClickHoldAction::NoiseControl => 0,
            ClickHoldAction::Siri => 1,
        }
    }
}

impl Choice for CallControls {
    open spec fn options() -> Seq<CallControls> {
        seq![
            CallControls::PressOnceToMute,
            CallControls::PressTwiceToMute,
        ]
    }

    open spec fn text(self) -> Seq<char> {
        match self {
            CallControls::PressOnceToMute => "Press Once"@,
            CallControls::PressTwiceToMute => "Press Twice"@,
        }
    }

    open spec fn place(self) -> usize {
        match self {
            CallControls::PressOnceToMute => 0,
            CallControls::PressTwiceToMute => 1,
        }
    }

    fn choices() -> (values: Vec<CallControls>) {
        let values: Vec<CallControls> = vec![
            CallControls::PressOnceToMute,
            CallControls::PressTwiceToMute,
        ];
        proof {
            assert(values@ =~= Self::options());
        }
        values
    }

    fn name(&self) -> (name: &'static str) {
        self.label()
    }

    fn index(&self) -> (at: usize) {
        match self {
            CallControls::PressOnceToMute => 0,
            CallControls::PressTwiceToMute => 1,
        }
    }
}

impl Choice for MicMode {
    open spec fn options() -> Seq<MicMode> {
        seq![
            MicMode::Automatic,
            MicMode::AlwaysRight,
            MicMode::AlwaysLeft,
        ]
    }

    open spec fn text(self) -> Seq<char> {
        match self {
            MicMode::Automatic => "Automatic"@,
            MicMode::AlwaysRight => "Always Right"@,
            MicMode::AlwaysLeft => "Always Left"@,
        }
    }

    open spec fn place(self) -> usize {
        match self {
            MicMode::Automatic => 0,
            MicMode::AlwaysRight => 1,
            MicMode::AlwaysLeft => 2,
        }
    }

    fn choices() -> (values: Vec<MicMode>) {
        let values: Vec<MicMode> = vec![
            MicMode::Automatic,
            MicMode::AlwaysRight,
            MicMode::AlwaysLeft,
        ];
        proof {
            assert(values@ =~= Self::options());
        }
        values
    }

    fn name(&self) -> (name: &'static str) {
        self.label()
    }

    fn index(&self) -> (at: usize) {
        match self {
            MicMode::Automatic => 0,
            MicMode::AlwaysRight => 1,
            MicMode::AlwaysLeft => 2,
        }
    }
}

impl Choice for PressInterval {
    open spec fn options() -> Seq<PressInterval> {
        seq![
            PressInterval::Default,
            PressInterval::Slower,
            PressInterval::Slowest,
        ]
    }

    open spec fn text(self) -> Seq<char> {
        match self {
            PressInterval::Default => "Default"@,
            PressInterval::Slower => "Slower"@,
            PressInterval::Slowest => "Slowest"@,
        }
    }

    open spec fn place(self) -> usize {
        match self {
            PressInterval::Default => 0,
            PressInterval::Slower => 1,
            PressInterval::Slowest => 2,
        }
    }

    fn choices() -> (values: Vec<PressInterval>) {
        let values: Vec<PressInterval> = vec![
            PressInterval::Default,
            PressInterval::Slower,
            PressInterval::Slowest,
        ];
        proof {
            assert(values@ =~= Self::options());
        }
        values
    }

    fn name(&self) -> (name: &'static str) {
        self.label()
    }

    fn index(&self) -> (at: usize) {
        match self {
            PressInterval::Default => 0,
            PressInterval::Slower => 1,
            PressInterval::Slowest => 2,
        }
    }
}

impl Choice for SwipeInterval {
    open spec fn options() -> Seq<SwipeInterval> {
        seq![
            SwipeInterval::Default,
            SwipeInterval::Longer,
            SwipeInterval::Longest,
        ]
    }

    open spec fn text(self) -> Seq<char> {
        match self {
            SwipeInterval::Default => "Default"@,
            SwipeInterval::Longer => "Longer"@,
            SwipeInterval::Longest => "Longest"@,
        }
    }

    open spec fn place(self) -> usize {
        match self {
            SwipeInterval::Default => 0,
            SwipeInterval::Longer => 1,
            SwipeInterval::Longest => 2,
        }
    }

    fn choices() -> (values: Vec<SwipeInterval>) {
        let values: Vec<SwipeInterval> = vec![
            SwipeInterval::Default,
            SwipeInterval::Longer,
            SwipeInterval::Longest,
        ];
        proof {
            assert(values@ =~= Self::options());
        }
        values
    }

    fn name(&self) -> (name: &'static str) {
        self.label()
    }

    fn index(&self) -> (at: usize) {
        match self {
            SwipeInterval::Default => 0,
            SwipeInterval::Longer => 1,
            SwipeInterval::Longest => 2,
        }
    }
}

impl Choice for PreferredCodec {
    open spec fn options() -> Seq<PreferredCodec> {
        seq![
            PreferredCodec::Aac,
            PreferredCodec::SbcXq,
            PreferredCodec::Sbc,
        ]
    }

    open spec fn text(self) -> Seq<char> {
        match self {
            PreferredCodec::Aac => "AAC"@,
            PreferredCodec::SbcXq => "SBC-XQ"@,
            PreferredCodec::Sbc => "SBC"@,
        }
    }

    open spec fn place(self) -> usize {
        match self {
            PreferredCodec::Aac => 0,
            PreferredCodec::SbcXq => 1,
            PreferredCodec::Sbc => 2,
        }
    }

    fn choices() -> (values: Vec<PreferredCodec>) {
        let values: Vec<PreferredCodec> = vec![
            PreferredCodec::Aac,
            PreferredCodec::SbcXq,
            PreferredCodec::Sbc,
        ];
        proof {
            assert(values@ =~= Self::options());
        }
        values
    }

    fn name(&self) -> (name: &'static str) {
        self.label()
    }

    fn index(&self) -> (at: usize) {
        match self {
            PreferredCodec::Aac => 0,
            PreferredCodec::SbcXq => 1,
            PreferredCodec::Sbc => 2,
        }
    }
}

impl Choice for ThemePreference {
    open spec fn options() -> Seq<ThemePreference> {
        seq![
            ThemePreference::System,
            ThemePreference::Light,
            ThemePreference::Dark,
        ]
    }

    open spec fn text(self) -> Seq<char> {
        match self {
            ThemePreference::System => "System"@,
            ThemePreference::Light => "Light"@,
            ThemePreference::Dark => "Dark"@,
        }
    }

    open spec fn place(self) -> usize {
        match self {
            ThemePreference::System => 0,
            ThemePreference::Light => 1,
            ThemePreference::Dark => 2,
        }
    }

    fn choices() -> (values: Vec<ThemePreference>) {
        let values: Vec<ThemePreference> = vec![
            ThemePreference::System,
            ThemePreference::Light,
            ThemePreference::Dark,
        ];
        proof {
            assert(values@ =~= Self::options());
        }
        values
    }

    fn name(&self) -> (name: &'static str) {
        self.label()
    }

    fn index(&self) -> (at: usize) {
        match self {
            ThemePreference::System => 0,
            ThemePreference::Light => 1,
            ThemePreference::Dark => 2,
        }
    }
}

impl Choice for NothingAncMode {
    open spec fn options() -> Seq<NothingAncMode> {
        seq![
            NothingAncMode::Off,
            NothingAncMode::Transparency,
            NothingAncMode::AdaptiveNoiseCancellation,
            NothingAncMode::LowNoiseCancellation,
            NothingAncMode::MidNoiseCancellation,
            NothingAncMode::HighNoiseCancellation,
        ]
    }

    open spec fn text(self) -> Seq<char> {
        crate::devices::enums::nothing_label(self)
    }

    open spec fn place(self) -> usize {
        match self {
            NothingAncMode::Off => 0,
            NothingAncMode::Transparency => 1,
            NothingAncMode::AdaptiveNoiseCancellation => 2,
            NothingAncMode::LowNoiseCancellation => 3,
            NothingAncMode::MidNoiseCancellation => 4,
            NothingAncMode::HighNoiseCancellation => 5,
        }
    }

    fn choices() -> (values: Vec<NothingAncMode>) {
        let values: Vec<NothingAncMode> = vec![
            NothingAncMode::Off,
            NothingAncMode::Transparency,
            NothingAncMode::AdaptiveNoiseCancellation,
            NothingAncMode::LowNoiseCancellation,
            NothingAncMode::MidNoiseCancellation,
            NothingAncMode::HighNoiseCancellation,
        ];
        proof {
            assert(values@ =~= Self::options());
        }
        values
    }

    fn name(&self) -> (name: &'static str) {
        self.label()
    }

    fn index(&self) -> (at: usize) {
        match self {
            NothingAncMode::Off => 0,
            NothingAncMode::Transparency => 1,
            NothingAncMode::AdaptiveNoiseCancellation => 2,
            NothingAncMode::LowNoiseCancellation => 3,
            NothingAncMode::MidNoiseCancellation => 4,
            NothingAncMode::HighNoiseCancellation => 5,
        }
    }
}

impl Choice for AirPodsNoiseControlMode {
    open spec fn options() -> Seq<AirPodsNoiseControlMode> {
        seq![
            AirPodsNoiseControlMode::Off,
            AirPodsNoiseControlMode::Transparency,
            AirPodsNoiseControlMode::NoiseCancellation,
            AirPodsNoiseControlMode::Adaptive,
        ]
    }

    open spec fn text(self) -> Seq<char> {
        crate::devices::enums::listening_label(self)
    }

    open spec fn place(self) -> usize {
        match self {
            AirPodsNoiseControlMode::Off => 0,
            AirPodsNoiseControlMode::Transparency => 1,
            AirPodsNoiseControlMode::NoiseCancellation => 2,
            AirPodsNoiseControlMode::Adaptive => 3,
        }
    }

    fn choices() -> (values: Vec<AirPodsNoiseControlMode>) {
        let values: Vec<AirPodsNoiseControlMode> = vec![
            AirPodsNoiseControlMode::Off,
            AirPodsNoiseControlMode::Transparency,
            AirPodsNoiseControlMode::NoiseCancellation,
            AirPodsNoiseControlMode::Adaptive,
        ];
        proof {
            assert(values@ =~= Self::options());
        }
        values
    }

    fn name(&self) -> (name: &'static str) {
        self.label()
    }

    fn index(&self) -> (at: usize) {
        match self {
            AirPodsNoiseControlMode::Off => 0,
            AirPodsNoiseControlMode::Transparency => 1,
            AirPodsNoiseControlMode::NoiseCancellation => 2,
            AirPodsNoiseControlMode::Adaptive => 3,
        }
    }
}

impl Choice for DeviceType {
    open spec fn options() -> Seq<DeviceType> {
        seq![
            DeviceType::AirPods,
            DeviceType::Nothing,
        ]
    }

    open spec fn text(self) -> Seq<char> {
        match self {
            DeviceType::AirPods => "AirPods"@,
            DeviceType::Nothing => "Nothing"@,
        }
    }

    open spec fn place(self) -> usize {
        match self {
            DeviceType::AirPods => 0,
            DeviceType::Nothing => 1,
        }
    }

    fn choices() -> (values: Vec<DeviceType>) {
        let values: Vec<DeviceType> = vec![
            DeviceType::AirPods,
            DeviceType::Nothing,
        ];
        proof {
            assert(values@ =~= Self::options());
        }
        values
    }

    fn name(&self) -> (name: &'static str) {
        match self {
            DeviceType::AirPods => "AirPods",
            DeviceType::Nothing => "Nothing",
        }
    }

    fn index(&self) -> (at: usize) {
        match self {
            DeviceType::AirPods => 0,
            DeviceType::Nothing => 1,
        }
    }
}

impl Choice for MyTheme {
    open spec fn options() -> Seq<MyTheme> {
        seq![
            MyTheme::Light,
            MyTheme::Dark,
            MyTheme::Dracula,
            MyTheme::Nord,
            MyTheme::SolarizedLight,
            MyTheme::SolarizedDark,
            MyTheme::GruvboxLight,
            MyTheme::GruvboxDark,
            MyTheme::CatppuccinLatte,
            MyTheme::CatppuccinFrappe,
            MyTheme::CatppuccinMacchiato,
            MyTheme::CatppuccinMocha,
            MyTheme::TokyoNight,
            MyTheme::TokyoNightStorm,
            MyTheme::TokyoNightLight,
            MyTheme::KanagawaWave,
            MyTheme::KanagawaDragon,
            MyTheme::KanagawaLotus,
            MyTheme::Moonfly,
            MyTheme::Nightfly,
            MyTheme::Oxocarbon,
            MyTheme::Ferra,
        ]
    }

    open spec fn text(self) -> Seq<char> {
        self.shown()
    }

    open spec fn place(self) -> usize {
        match self {
            MyTheme::Light => 0,
            MyTheme::Dark => 1,
            MyTheme::Dracula => 2,
            MyTheme::Nord => 3,
            MyTheme::SolarizedLight => 4,
            MyTheme::SolarizedDark => 5,
            MyTheme::GruvboxLight => 6,
            MyTheme::GruvboxDark => 7,
            MyTheme::CatppuccinLatte => 8,
            MyTheme::CatppuccinFrappe => 9,
            MyTheme::CatppuccinMacchiato => 10,
            MyTheme::CatppuccinMocha => 11,
            MyTheme::TokyoNight => 12,
            MyTheme::TokyoNightStorm => 13,
            MyTheme::TokyoNightLight => 14,
            MyTheme::KanagawaWave => 15,
            MyTheme::KanagawaDragon => 16,
            MyTheme::KanagawaLotus => 17,
            MyTheme::Moonfly => 18,
            MyTheme::Nightfly => 19,
            MyTheme::Oxocarbon => 20,
            MyTheme::Ferra => 21,
        }
    }

    fn choices() -> (values: Vec<MyTheme>) {
        let values: Vec<MyTheme> = vec![
            MyTheme::Light,
            MyTheme::Dark,
            MyTheme::Dracula,
            MyTheme::Nord,
            MyTheme::SolarizedLight,
            MyTheme::SolarizedDark,
            MyTheme::GruvboxLight,
            MyTheme::GruvboxDark,
            MyTheme::CatppuccinLatte,
            MyTheme::CatppuccinFrappe,
            MyTheme::CatppuccinMacchiato,
            MyTheme::CatppuccinMocha,
            MyTheme::TokyoNight,
            MyTheme::TokyoNightStorm,
            MyTheme::TokyoNightLight,
            MyTheme::KanagawaWave,
            MyTheme::KanagawaDragon,
            MyTheme::KanagawaLotus,
            MyTheme::Moonfly,
            MyTheme::Nightfly,
            MyTheme::Oxocarbon,
            MyTheme::Ferra,
        ];
        proof {
            assert(values@ =~= Self::options());
        }
        values
    }

    fn name(&self) -> (name: &'static str) {
        self.label()
    }

    fn index(&self) -> (at: usize) {
        match self {
            MyTheme::Light => 0,
            MyTheme::Dark => 1,
            MyTheme::Dracula => 2,
            MyTheme::Nord => 3,
            MyTheme::SolarizedLight => 4,
            MyTheme::SolarizedDark => 5,
            MyTheme::GruvboxLight => 6,
            MyTheme::GruvboxDark => 7,
            MyTheme::CatppuccinLatte => 8,
            MyTheme::CatppuccinFrappe => 9,
            MyTheme::CatppuccinMacchiato => 10,
            MyTheme::CatppuccinMocha => 11,
            MyTheme::TokyoNight => 12,
            MyTheme::TokyoNightStorm => 13,
            MyTheme::TokyoNightLight => 14,
            MyTheme::KanagawaWave => 15,
            MyTheme::KanagawaDragon => 16,
            MyTheme::KanagawaLotus => 17,
            MyTheme::Moonfly => 18,
            MyTheme::Nightfly => 19,
            MyTheme::Oxocarbon => 20,
            MyTheme::Ferra => 21,
        }
    }
}

/// The long press actions in the order of their list, by name.
pub proof fn long_press_actions_are_listed_by_name(at: usize)
    ensures
        ClickHoldAction::options().len() == 2,
        ClickHoldAction::NoiseControl.text() == "Noise Control"@,
        ClickHoldAction::options()[0] is NoiseControl,
        ClickHoldAction::Siri.text() == "Siri"@,
        ClickHoldAction::options()[1] is Siri,
        at < 2 ==> ClickHoldAction::options()[at as int].place() == at,
{
}

/// The presses that mute in the order of their list, by name.
pub proof fn mute_presses_are_listed_by_name(at: usize)
    ensures
        CallControls::options().len() == 2,
        CallControls::PressOnceToMute.text() == "Press Once"@,
        CallControls::options()[0] is PressOnceToMute,
        CallControls::PressTwiceToMute.text() == "Press Twice"@,
        CallControls::options()[1] is PressTwiceToMute,
        at < 2 ==> CallControls::options()[at as int].place() == at,
{
}

/// The microphone modes in the order of their list, by name.
pub proof fn microphone_modes_are_listed_by_name(at: usize)
    ensures
        MicMode::options().len() == 3,
        MicMode::Automatic.text() == "Automatic"@,
        MicMode::options()[0] is Automatic,
        MicMode::AlwaysRight.text() == "Always Right"@,
        MicMode::options()[1] is AlwaysRight,
        MicMode::AlwaysLeft.text() == "Always Left"@,
        MicMode::options()[2] is AlwaysLeft,
        at < 3 ==> MicMode::options()[at as int].place() == at,
{
}

/// The press speeds in the order of their list, by name.
pub proof fn press_speeds_are_listed_by_name(at: usize)
    ensures
        PressInterval::options().len() == 3,
        PressInterval::Default.text() == "Default"@,
        PressInterval::options()[0] is Default,
        PressInterval::Slower.text() == "Slower"@,
        PressInterval::options()[1] is Slower,
        PressInterval::Slowest.text() == "Slowest"@,
        PressInterval::options()[2] is Slowest,
        at < 3 ==> PressInterval::options()[at as int].place() == at,
{
}

/// The swipe speeds in the order of their list, by name.
pub proof fn swipe_speeds_are_listed_by_name(at: usize)
    ensures
        SwipeInterval::options().len() == 3,
        SwipeInterval::Default.text() == "Default"@,
        SwipeInterval::options()[0] is Default,
        SwipeInterval::Longer.text() == "Longer"@,
        SwipeInterval::options()[1] is Longer,
        SwipeInterval::Longest.text() == "Longest"@,
        SwipeInterval::options()[2] is Longest,
        at < 3 ==> SwipeInterval::options()[at as int].place() == at,
{
}

/// The codecs in the order of their list, by name.
pub proof fn codecs_are_listed_by_name(at: usize)
    ensures
        PreferredCodec::options().len() == 3,
        PreferredCodec::Aac.text() == "AAC"@,
        PreferredCodec::options()[0] is Aac,
        PreferredCodec::SbcXq.text() == "SBC-XQ"@,
        PreferredCodec::options()[1] is SbcXq,
        PreferredCodec::Sbc.text() == "SBC"@,
        PreferredCodec::options()[2] is Sbc,
        at < 3 ==> PreferredCodec::options()[at as int].place() == at,
{
}

/// The styles in the order of their list, by name.
pub proof fn styles_are_listed_by_name(at: usize)
    ensures
        ThemePreference::options().len() == 3,
        ThemePreference::System.text() == "System"@,
        ThemePreference::options()[0] is System,
        ThemePreference::Light.text() == "Light"@,
        ThemePreference::options()[1] is Light,
        ThemePreference::Dark.text() == "Dark"@,
        ThemePreference::options()[2] is Dark,
        at < 3 ==> ThemePreference::options()[at as int].place() == at,
{
}

/// The modes of a Nothing device in the order of their list, by name.
pub proof fn nothing_modes_are_listed_by_name(at: usize)
    ensures
        NothingAncMode::options().len() == 6,
        NothingAncMode::Off.text() == "Off"@,
        NothingAncMode::options()[0] is Off,
        NothingAncMode::Transparency.text() == "Transparency"@,
        NothingAncMode::options()[1] is Transparency,
        NothingAncMode::AdaptiveNoiseCancellation.text() == "Adaptive Noise Cancellation"@,
        NothingAncMode::options()[2] is AdaptiveNoiseCancellation,
        NothingAncMode::LowNoiseCancellation.text() == "Low Noise Cancellation"@,
        NothingAncMode::options()[3] is LowNoiseCancellation,
        NothingAncMode::MidNoiseCancellation.text() == "Mid Noise Cancellation"@,
        NothingAncMode::options()[4] is MidNoiseCancellation,
        NothingAncMode::HighNoiseCancellation.text() == "High Noise Cancellation"@,
        NothingAncMode::options()[5] is HighNoiseCancellation,
        at < 6 ==> NothingAncMode::options()[at as int].place() == at,
{
}

/// The listening modes in the order of their list, by name.
pub proof fn listening_modes_are_listed_by_name(at: usize)
    ensures
        AirPodsNoiseControlMode::options().len() == 4,
        AirPodsNoiseControlMode::Off.text() == "Off"@,
        AirPodsNoiseControlMode::options()[0] is Off,
        AirPodsNoiseControlMode::Transparency.text() == "Transparency"@,
        AirPodsNoiseControlMode::options()[1] is Transparency,
        AirPodsNoiseControlMode::NoiseCancellation.text() == "Noise Cancellation"@,
        AirPodsNoiseControlMode::options()[2] is NoiseCancellation,
        AirPodsNoiseControlMode::Adaptive.text() == "Adaptive"@,
        AirPodsNoiseControlMode::options()[3] is Adaptive,
        at < 4 ==> AirPodsNoiseControlMode::options()[at as int].place() == at,
{
}

/// The device types in the order of their list, by name.
pub proof fn device_types_are_listed_by_name(at: usize)
    ensures
        DeviceType::options().len() == 2,
        DeviceType::AirPods.text() == "AirPods"@,
        DeviceType::options()[0] is AirPods,
        DeviceType::Nothing.text() == "Nothing"@,
        DeviceType::options()[1] is Nothing,
        at < 2 ==> DeviceType::options()[at as int].place() == at,
{
}

/// The themes in the order of their list, by name.
pub proof fn themes_are_listed_by_name(at: usize)
    ensures
        MyTheme::options().len() == 22,
        MyTheme::Light.text() == "Light"@,
        MyTheme::options()[0] is Light,
        MyTheme::Dark.text() == "Dark"@,
        MyTheme::options()[1] is Dark,
        MyTheme::Dracula.text() == "Dracula"@,
        MyTheme::options()[2] is Dracula,
        MyTheme::Nord.text() == "Nord"@,
        MyTheme::options()[3] is Nord,
        MyTheme::SolarizedLight.text() == "Solarized Light"@,
        MyTheme::options()[4] is SolarizedLight,
        MyTheme::SolarizedDark.text() == "Solarized Dark"@,
        MyTheme::options()[5] is SolarizedDark,
        MyTheme::GruvboxLight.text() == "Gruvbox Light"@,
        MyTheme::options()[6] is GruvboxLight,
        MyTheme::GruvboxDark.text() == "Gruvbox Dark"@,
        MyTheme::options()[7] is GruvboxDark,
        MyTheme::CatppuccinLatte.text() == "Catppuccin Latte"@,
        MyTheme::options()[8] is CatppuccinLatte,
        MyTheme::CatppuccinFrappe.text() == "Catppuccin Frappé"@,
        MyTheme::options()[9] is CatppuccinFrappe,
        MyTheme::CatppuccinMacchiato.text() == "Catppuccin Macchiato"@,
        MyTheme::options()[10] is CatppuccinMacchiato,
        MyTheme::CatppuccinMocha.text() == "Catppuccin Mocha"@,
        MyTheme::options()[11] is CatppuccinMocha,
        MyTheme::TokyoNight.text() == "Tokyo Night"@,
        MyTheme::options()[12] is TokyoNight,
        MyTheme::TokyoNightStorm.text() == "Tokyo Night Storm"@,
        MyTheme::options()[13] is TokyoNightStorm,
        MyTheme::TokyoNightLight.text() == "Tokyo Night Light"@,
        MyTheme::options()[14] is TokyoNightLight,
        MyTheme::KanagawaWave.text() == "Kanagawa Wave"@,
        MyTheme::options()[15] is KanagawaWave,
        MyTheme::KanagawaDragon.text() == "Kanagawa Dragon"@,
        MyTheme::options()[16] is KanagawaDragon,
        MyTheme::KanagawaLotus.text() == "Kanagawa Lotus"@,
        MyTheme::options()[17] is KanagawaLotus,
        MyTheme::Moonfly.text() == "Moonfly"@,
        MyTheme::options()[18] is Moonfly,
        MyTheme::Nightfly.text() == "Nightfly"@,
        MyTheme::options()[19] is Nightfly,
        MyTheme::Oxocarbon.text() == "Oxocarbon"@,
        MyTheme::options()[20] is Oxocarbon,
        MyTheme::Ferra.text() == "Ferra"@,
        MyTheme::options()[21] is Ferra,
        at < 22 ==> MyTheme::options()[at as int].place() == at,
{
}

} // verus!
