//! The state of the window and every decision about it, with no GTK in it.
//!
//! `Model::update` takes one `Input` (a backend message, a user action, the
//! result of earlier work) and returns the `Effect`s to run: commands to the
//! AirPods, file writes, timers, toasts. The app runs the effects and the view
//! redraws from the model; neither decides anything on its own.

use crate::address_map::AddressMap;
use crate::bluetooth::aacp::{
    AACPEvent, BatteryInfo, ControlCommandIdentifiers, ControlCommandStatus,
};
use crate::bluetooth::eq::CustomEq;
use crate::bytes::{copied, ByteMap};
use crate::devices::airpods::AirPodsInformation;
use crate::devices::enums::{
    AirPodsNoiseControlMode, DeviceData, DeviceDataView, DeviceType, NothingAncMode,
};
use crate::text::{joined, same_text};
use crate::ui::connect::{
    sidebar_status, ConnectRequests, ConnectRequestsView, ConnectStatus, ConnectStatusView,
};
use crate::ui::format::{live_case_level, validate_device_name};
use crate::ui::gtk::battery::{batteries, Batteries};
use crate::ui::gtk::controls::{ControlChange, Settling, SettlingView};
use crate::ui::gtk::model::equalizer::{EqEffect, EqEffectView, EqInput, EqSends, EqSendsView};
use crate::ui::gtk::model::listing::{first_listed_airpods, sorted_macs};
use crate::ui::gtk::model::mic::{MicEffect, MicEffectView, MicInput, MicState, MicStateView};
use crate::ui::gtk::theme::ThemePreference;
use crate::ui::messages::BluetoothUIMessage;
use crate::utils::{AppSettings, PreferredCodec};
use vstd::prelude::*;

pub mod airpods_laws;
pub mod equalizer;
pub mod equalizer_laws;
pub mod laws;
pub mod listing;
pub mod mic;
pub mod mic_laws;
pub mod window_laws;

verus! {

/// Everything that can change the model, in the order it happened.
#[derive(Debug)]
pub enum Input {
    Backend(BluetoothUIMessage),
    /// devices.json was read.
    DevicesLoaded(AddressMap<DeviceData>),
    /// The state a device's manager held when it connected. None when no
    /// manager was found for it.
    Snapshot(String, Option<DeviceSnapshot>),
    Select(Selection),
    Connect(String),
    ConnectFinished { mac: String, attempt: u64, result: Result<(), String> },
    ConnectSetupTimedOut { mac: String, attempt: u64 },
    SetListeningMode(String, AirPodsNoiseControlMode),
    SetConversationAwareness(String, bool),
    SetPersonalizedVolume(String, bool),
    SetAllowOff(String, bool),
    /// A change in the settings sections of the AirPods page.
    AirPodsControl(String, ControlChange),
    /// The settle delay of a slider change ran out.
    ControlSettled { mac: String, identifier: ControlCommandIdentifiers, generation: u64 },
    Equalizer(EqInput),
    Microphone(MicInput),
    /// The window was shown or hidden.
    WindowVisible(bool),
    /// The name field changed; the text is not sent until `Rename`.
    NameEdited(String, String),
    Rename(String, String),
    SetNothingAnc(String, NothingAncMode),
    Setting(SettingChange),
    /// A message for the user, such as a command that failed.
    Toast(String),
}

/// Work for the app to do after an update.
#[derive(Debug, Clone, PartialEq)]
pub enum Effect {
    /// Read devices.json and come back with `Input::DevicesLoaded`.
    LoadDevices,
    /// Read the state of a device that just connected and come back with
    /// `Input::Snapshot`.
    Snapshot(String),
    Connect { mac: String, address: [u8; 6], attempt: u64 },
    /// Come back with `Input::ConnectSetupTimedOut` after the setup time.
    SetupTimeout { mac: String, attempt: u64 },
    SendControl { mac: String, identifier: ControlCommandIdentifiers, value: Vec<u8> },
    /// Come back with `Input::ControlSettled` after the settle delay.
    SettleControl { mac: String, identifier: ControlCommandIdentifiers, generation: u64 },
    SetConversationDetection { mac: String, enabled: bool },
    Equalizer(EqEffect),
    Microphone(MicEffect),
    /// Send the rename packet, save the name to devices.json, then reload it.
    Rename { mac: String, name: String },
    SetNothingAnc { mac: String, mode: u8 },
    /// Write `Model::settings` to disk.
    SaveSettings,
    ApplyTheme(ThemePreference),
    PresentWindow,
    Toast(String),
}

/// The mathematical content of an `Effect`.
#[verifier::ext_equal]
pub enum EffectView {
    LoadDevices,
    Snapshot(Seq<char>),
    Connect { mac: Seq<char>, address: Seq<u8>, attempt: u64 },
    SetupTimeout { mac: Seq<char>, attempt: u64 },
    SendControl { mac: Seq<char>, identifier: ControlCommandIdentifiers, value: Seq<u8> },
    SettleControl { mac: Seq<char>, identifier: ControlCommandIdentifiers, generation: u64 },
    SetConversationDetection { mac: Seq<char>, enabled: bool },
    Equalizer(EqEffectView),
    Microphone(MicEffectView),
    Rename { mac: Seq<char>, name: Seq<char> },
    SetNothingAnc { mac: Seq<char>, mode: u8 },
    SaveSettings,
    ApplyTheme(ThemePreference),
    PresentWindow,
    Toast(Seq<char>),
}

impl View for Effect {
    type V = EffectView;

    open spec fn view(&self) -> EffectView {
        match *self {
            Effect::LoadDevices => EffectView::LoadDevices,
            Effect::Snapshot(mac) => EffectView::Snapshot(mac@),
            Effect::Connect { mac, address, attempt } => EffectView::Connect {
                mac: mac@,
                address: address@,
                attempt,
            },
            Effect::SetupTimeout { mac, attempt } => EffectView::SetupTimeout {
                mac: mac@,
                attempt,
            },
            Effect::SendControl { mac, identifier, value } => EffectView::SendControl {
                mac: mac@,
                identifier,
                value: value@,
            },
            Effect::SettleControl { mac, identifier, generation } => EffectView::SettleControl {
                mac: mac@,
                identifier,
                generation,
            },
            Effect::SetConversationDetection { mac, enabled } => {
                EffectView::SetConversationDetection { mac: mac@, enabled }
            },
            Effect::Equalizer(e) => EffectView::Equalizer(e@),
            Effect::Microphone(e) => EffectView::Microphone(e@),
            Effect::Rename { mac, name } => EffectView::Rename { mac: mac@, name: name@ },
            Effect::SetNothingAnc { mac, mode } => EffectView::SetNothingAnc { mac: mac@, mode },
            Effect::SaveSettings => EffectView::SaveSettings,
            Effect::ApplyTheme(theme) => EffectView::ApplyTheme(theme),
            Effect::PresentWindow => EffectView::PresentWindow,
            Effect::Toast(message) => EffectView::Toast(message@),
        }
    }
}

/// The mathematical content of some effects.
pub open spec fn effects_view(effects: Seq<Effect>) -> Seq<EffectView> {
    effects.map_values(|e: Effect| e@)
}

/// No effect.
pub open spec fn nothing_to_do() -> Seq<EffectView> {
    Seq::empty()
}

/// No effect.
pub(crate) fn no_effects() -> (effects: Vec<Effect>)
    ensures
        effects_view(effects@) == nothing_to_do(),
{
    let effects: Vec<Effect> = Vec::new();
    proof {
        assert(effects_view(effects@) =~= nothing_to_do());
    }
    effects
}

/// One effect.
pub(crate) fn one_effect(effect: Effect) -> (effects: Vec<Effect>)
    ensures
        effects_view(effects@) == seq![effect@],
{
    let effects: Vec<Effect> = vec![effect];
    proof {
        assert(effects_view(effects@) =~= seq![effect@]);
    }
    effects
}

/// Two effects, in order.
pub(crate) fn two_effects(first: Effect, second: Effect) -> (effects: Vec<Effect>)
    ensures
        effects_view(effects@) == seq![first@, second@],
{
    let effects: Vec<Effect> = vec![first, second];
    proof {
        assert(effects_view(effects@) =~= seq![first@, second@]);
    }
    effects
}

/// One more effect after some others.
pub(crate) fn add_effect(effects: &mut Vec<Effect>, effect: Effect)
    ensures
        effects_view(final(effects)@) == effects_view(old(effects)@).push(effect@),
{
    effects.push(effect);
    proof {
        assert(effects_view(effects@) =~= effects_view(old(effects)@).push(effect@));
    }
}

/// Some effects after some others.
pub(crate) fn add_effects(effects: &mut Vec<Effect>, more: Vec<Effect>)
    ensures
        effects_view(final(effects)@) == effects_view(old(effects)@) + effects_view(more@),
{
    let mut more = more;
    let ghost added = more@;
    effects.append(&mut more);
    proof {
        assert(effects_view(effects@) =~= effects_view(old(effects)@) + effects_view(added));
    }
}

/// What a connected device reported when the UI first saw it.
#[derive(Debug, Clone)]
pub enum DeviceSnapshot {
    AirPods(AirPodsSnapshot),
    Nothing,
}

/// What connected AirPods reported when the UI first saw them.
#[derive(Debug, Clone)]
pub struct AirPodsSnapshot {
    pub battery: Vec<BatteryInfo>,
    pub controls: Vec<ControlCommandStatus>,
    pub custom_eq: Option<CustomEq>,
}

impl Default for AirPodsSnapshot {
    /// Nothing was reported yet.
    fn default() -> (snapshot: AirPodsSnapshot)
        ensures
            snapshot.battery@ == Seq::<BatteryInfo>::empty(),
            snapshot.controls@ == Seq::<ControlCommandStatus>::empty(),
            snapshot.custom_eq is None,
    {
        AirPodsSnapshot { battery: Vec::new(), controls: Vec::new(), custom_eq: None }
    }
}

/// The sidebar entry that is selected.
#[derive(Debug, Clone, PartialEq, Eq)]
pub enum Selection {
    Empty,
    Device(String),
    Settings,
}

/// The mathematical content of a `Selection`.
#[verifier::ext_equal]
pub enum SelectionView {
    Empty,
    Device(Seq<char>),
    Settings,
}

impl View for Selection {
    type V = SelectionView;

    open spec fn view(&self) -> SelectionView {
        match *self {
            Selection::Empty => SelectionView::Empty,
            Selection::Device(mac) => SelectionView::Device(mac@),
            Selection::Settings => SelectionView::Settings,
        }
    }
}

/// What the content pane shows.
#[derive(Debug, Clone, PartialEq, Eq)]
pub enum Content {
    /// Nothing selected and no device known.
    Empty,
    Settings,
    AirPods(String),
    /// Connected, waiting for the snapshot of its state.
    Waiting(String),
    /// Known AirPods that are not connected to this PC.
    Disconnected(String),
    Nothing(String),
    /// A known device of another kind that is not connected.
    Unavailable(String),
}

/// The mathematical content of a `Content`.
#[verifier::ext_equal]
pub enum ContentView {
    Empty,
    Settings,
    AirPods(Seq<char>),
    Waiting(Seq<char>),
    Disconnected(Seq<char>),
    Nothing(Seq<char>),
    Unavailable(Seq<char>),
}

impl View for Content {
    type V = ContentView;

    open spec fn view(&self) -> ContentView {
        match *self {
            Content::Empty => ContentView::Empty,
            Content::Settings => ContentView::Settings,
            Content::AirPods(mac) => ContentView::AirPods(mac@),
            Content::Waiting(mac) => ContentView::Waiting(mac@),
            Content::Disconnected(mac) => ContentView::Disconnected(mac@),
            Content::Nothing(mac) => ContentView::Nothing(mac@),
            Content::Unavailable(mac) => ContentView::Unavailable(mac@),
        }
    }
}

/// Live state of connected AirPods.
#[derive(Debug, Clone)]
pub struct AirPods {
    pub name: String,
    pub battery: Vec<BatteryInfo>,
    pub listening_mode: AirPodsNoiseControlMode,
    pub conversation_awareness: bool,
    pub personalized_volume: bool,
    pub allow_off: bool,
    /// Last known raw value per control command number, as reported by the
    /// AirPods or last set from the UI. The settings sections read these.
    pub control_values: ByteMap,
    pub custom_eq: Option<CustomEq>,
}

/// The mathematical content of `AirPods`.
#[verifier::ext_equal]
pub struct AirPodsView {
    pub name: Seq<char>,
    pub battery: Seq<BatteryInfo>,
    pub listening_mode: AirPodsNoiseControlMode,
    pub conversation_awareness: bool,
    pub personalized_volume: bool,
    pub allow_off: bool,
    pub control_values: Map<u8, Seq<u8>>,
    pub custom_eq: Option<CustomEq>,
}

impl View for AirPods {
    type V = AirPodsView;

    open spec fn view(&self) -> AirPodsView {
        AirPodsView {
            name: self.name@,
            battery: self.battery@,
            listening_mode: self.listening_mode,
            conversation_awareness: self.conversation_awareness,
            personalized_volume: self.personalized_volume,
            allow_off: self.allow_off,
            control_values: self.control_values@,
            custom_eq: self.custom_eq,
        }
    }
}

/// Whether the bytes of an on/off setting say on. Bytes that say neither
/// count as off.
pub open spec fn says_on(value: Seq<u8>) -> bool {
    value == seq![0x01u8]
}

/// The listening mode that some bytes report.
pub open spec fn reported_mode(value: Seq<u8>) -> AirPodsNoiseControlMode {
    if value.len() == 0 {
        AirPodsNoiseControlMode::Transparency
    } else {
        crate::devices::enums::listening_of(value[0])
    }
}

impl AirPodsView {
    /// AirPods that reported nothing about their settings yet.
    pub open spec fn fresh(
        name: Seq<char>,
        battery: Seq<BatteryInfo>,
        custom_eq: Option<CustomEq>,
    ) -> AirPodsView {
        AirPodsView {
            name,
            battery,
            listening_mode: AirPodsNoiseControlMode::Transparency,
            conversation_awareness: false,
            personalized_volume: false,
            allow_off: false,
            control_values: Map::empty(),
            custom_eq,
        }
    }

    /// The state after a setting was reported.
    pub open spec fn reported(self, identifier: ControlCommandIdentifiers, value: Seq<u8>) -> AirPodsView {
        let control_values = self.control_values.insert(identifier.number(), value);
        match identifier {
            ControlCommandIdentifiers::ListeningMode => AirPodsView {
                listening_mode: reported_mode(value),
                control_values,
                ..self
            },
            ControlCommandIdentifiers::ConversationDetectConfig => AirPodsView {
                conversation_awareness: says_on(value),
                control_values,
                ..self
            },
            ControlCommandIdentifiers::AdaptiveVolumeConfig => AirPodsView {
                personalized_volume: says_on(value),
                control_values,
                ..self
            },
            ControlCommandIdentifiers::AllowOffOption => AirPodsView {
                allow_off: says_on(value),
                control_values,
                ..self
            },
            _ => AirPodsView { control_values, ..self },
        }
    }

    /// The state after some settings were reported, one after the other.
    pub open spec fn all_reported(self, controls: Seq<ControlCommandStatus>) -> AirPodsView
        decreases controls.len(),
    {
        if controls.len() == 0 {
            self
        } else {
            self.all_reported(controls.drop_last()).reported(
                controls.last().identifier,
                controls.last().value@,
            )
        }
    }

    /// The listening modes to offer, in menu order.
    pub open spec fn offered_modes(self) -> Seq<AirPodsNoiseControlMode> {
        let modes = seq![
            AirPodsNoiseControlMode::Transparency,
            AirPodsNoiseControlMode::NoiseCancellation,
            AirPodsNoiseControlMode::Adaptive,
        ];
        if self.allow_off {
            seq![AirPodsNoiseControlMode::Off] + modes
        } else {
            modes
        }
    }
}

fn is_on(value: &[u8]) -> (on: bool)
    ensures
        on == says_on(value@),
{
    if value.len() == 1 && value[0] == 0x01 {
        proof {
            assert(value@ =~= seq![0x01u8]);
        }
        true
    } else {
        proof {
            assert(seq![0x01u8].len() == 1 && seq![0x01u8][0] == 0x01u8);
        }
        false
    }
}

impl AirPods {
    /// The state of AirPods that just connected.
    pub fn from_snapshot(name: String, snapshot: AirPodsSnapshot) -> (airpods: AirPods)
        ensures
            airpods@ == AirPodsView::fresh(
                name@,
                snapshot.battery@,
                snapshot.custom_eq,
            ).all_reported(snapshot.controls@),
    {
        let mut airpods = AirPods {
            name,
            battery: snapshot.battery,
            listening_mode: AirPodsNoiseControlMode::Transparency,
            conversation_awareness: false,
            personalized_volume: false,
            allow_off: false,
            control_values: ByteMap::new(),
            custom_eq: snapshot.custom_eq,
        };
        let ghost fresh = airpods@;
        let controls = snapshot.controls;
        let mut i: usize = 0;
        proof {
            assert(controls@.take(0) =~= Seq::<ControlCommandStatus>::empty());
        }
        while i < controls.len()
            invariant
                i <= controls@.len(),
                airpods@ == fresh.all_reported(controls@.take(i as int)),
            decreases controls@.len() - i,
        {
            proof {
                let next = controls@.take(i + 1);
                assert(next.drop_last() =~= controls@.take(i as int));
                assert(next.last() == controls@[i as int]);
            }
            airpods.apply_control(&controls[i]);
            i = i + 1;
        }
        proof {
            assert(controls@.take(i as int) =~= controls@);
        }
        airpods
    }

    /// Takes over a reported setting.
    pub fn apply_control(&mut self, status: &ControlCommandStatus)
        ensures
            final(self)@ == old(self)@.reported(status.identifier, status.value@),
    {
        match status.identifier {
            ControlCommandIdentifiers::ListeningMode => {
                self.listening_mode =
                if status.value.len() == 0 {
                    AirPodsNoiseControlMode::Transparency
                } else {
                    AirPodsNoiseControlMode::from_byte(&status.value[0])
                };
            },
            ControlCommandIdentifiers::ConversationDetectConfig => {
                self.conversation_awareness = is_on(status.value.as_slice());
            },
            ControlCommandIdentifiers::AdaptiveVolumeConfig => {
                self.personalized_volume = is_on(status.value.as_slice());
            },
            ControlCommandIdentifiers::AllowOffOption => {
                self.allow_off = is_on(status.value.as_slice());
            },
            _ => {},
        }
        self.control_values.insert(status.identifier.to_byte(), copied(status.value.as_slice()));
    }

    /// Listening modes to offer, in menu order. Off only when the AirPods
    /// allow it.
    pub fn listening_modes(&self) -> (modes: Vec<AirPodsNoiseControlMode>)
        ensures
            modes@ == self@.offered_modes(),
    {
        let modes: Vec<AirPodsNoiseControlMode> = if self.allow_off {
            vec![
                AirPodsNoiseControlMode::Off,
                AirPodsNoiseControlMode::Transparency,
                AirPodsNoiseControlMode::NoiseCancellation,
                AirPodsNoiseControlMode::Adaptive,
            ]
        } else {
            vec![
                AirPodsNoiseControlMode::Transparency,
                AirPodsNoiseControlMode::NoiseCancellation,
                AirPodsNoiseControlMode::Adaptive,
            ]
        };
        proof {
            assert(modes@ =~= self@.offered_modes());
        }
        modes
    }
}

/// Live state of a connected Nothing device.
#[derive(Debug, Clone, Copy)]
pub struct Nothing {
    pub anc_mode: NothingAncMode,
}

impl View for Nothing {
    type V = NothingAncMode;

    open spec fn view(&self) -> NothingAncMode {
        self.anc_mode
    }
}

/// The settings the window works with: those of `AppSettings`, with the
/// theme as a preference.
#[derive(Debug, Clone, Copy, PartialEq, Eq, Structural)]
pub struct WindowSettings {
    pub theme: ThemePreference,
    pub tray_text_mode: bool,
    pub stem_control: bool,
    pub hires_mic_enabled: bool,
    pub hires_mic_agc: bool,
    pub hires_mic_pause_convo: bool,
    pub a2dp_reset: bool,
    pub auto_switch_on_playback: bool,
    pub preferred_codec: PreferredCodec,
}

/// The window's form of stored settings.
pub open spec fn window_settings(stored: AppSettings) -> WindowSettings {
    WindowSettings {
        theme: crate::ui::gtk::theme::preference_of(stored.theme.variant()),
        tray_text_mode: stored.tray_text_mode,
        stem_control: stored.stem_control,
        hires_mic_enabled: stored.hires_mic_enabled,
        hires_mic_agc: stored.hires_mic_agc,
        hires_mic_pause_convo: stored.hires_mic_pause_convo,
        a2dp_reset: stored.a2dp_reset,
        auto_switch_on_playback: stored.auto_switch_on_playback,
        preferred_codec: stored.preferred_codec,
    }
}

/// The form in which the window's settings are stored.
pub open spec fn stored_settings(settings: WindowSettings) -> AppSettings {
    AppSettings {
        theme: crate::ui::gtk::theme::stored_as(settings.theme),
        tray_text_mode: settings.tray_text_mode,
        stem_control: settings.stem_control,
        hires_mic_enabled: settings.hires_mic_enabled,
        hires_mic_agc: settings.hires_mic_agc,
        hires_mic_pause_convo: settings.hires_mic_pause_convo,
        a2dp_reset: settings.a2dp_reset,
        auto_switch_on_playback: settings.auto_switch_on_playback,
        preferred_codec: settings.preferred_codec,
    }
}

impl WindowSettings {
    /// The window's form of stored settings.
    pub fn from_stored(stored: AppSettings) -> (settings: WindowSettings)
        ensures
            settings == window_settings(stored),
    {
        WindowSettings {
            theme: ThemePreference::from_stored(stored.theme),
            tray_text_mode: stored.tray_text_mode,
            stem_control: stored.stem_control,
            hires_mic_enabled: stored.hires_mic_enabled,
            hires_mic_agc: stored.hires_mic_agc,
            hires_mic_pause_convo: stored.hires_mic_pause_convo,
            a2dp_reset: stored.a2dp_reset,
            auto_switch_on_playback: stored.auto_switch_on_playback,
            preferred_codec: stored.preferred_codec,
        }
    }

    /// The form in which the settings are stored.
    pub fn to_stored(self) -> (stored: AppSettings)
        ensures
            stored == stored_settings(self),
    {
        AppSettings {
            theme: self.theme.to_stored(),
            tray_text_mode: self.tray_text_mode,
            stem_control: self.stem_control,
            hires_mic_enabled: self.hires_mic_enabled,
            hires_mic_agc: self.hires_mic_agc,
            hires_mic_pause_convo: self.hires_mic_pause_convo,
            a2dp_reset: self.a2dp_reset,
            auto_switch_on_playback: self.auto_switch_on_playback,
            preferred_codec: self.preferred_codec,
        }
    }
}

/// A change made on the settings page.
#[derive(Debug, Clone, Copy, PartialEq, Eq, Structural)]
pub enum SettingChange {
    Theme(ThemePreference),
    TrayTextMode(bool),
    PreferredCodec(PreferredCodec),
    AutoSwitchOnPlayback(bool),
    A2dpReset(bool),
    HiResMicAgc(bool),
    HiResMicPauseConvo(bool),
    StemControl(bool),
}

/// The settings after a change.
pub open spec fn changed_settings(settings: WindowSettings, change: SettingChange) -> WindowSettings {
    match change {
        SettingChange::Theme(theme) => WindowSettings { theme, ..settings },
        SettingChange::TrayTextMode(on) => WindowSettings { tray_text_mode: on, ..settings },
        SettingChange::PreferredCodec(codec) => WindowSettings {
            preferred_codec: codec,
            ..settings
        },
        SettingChange::AutoSwitchOnPlayback(on) => WindowSettings {
            auto_switch_on_playback: on,
            ..settings
        },
        SettingChange::A2dpReset(on) => WindowSettings { a2dp_reset: on, ..settings },
        SettingChange::HiResMicAgc(on) => WindowSettings { hires_mic_agc: on, ..settings },
        SettingChange::HiResMicPauseConvo(on) => WindowSettings {
            hires_mic_pause_convo: on,
            ..settings
        },
        SettingChange::StemControl(on) => WindowSettings { stem_control: on, ..settings },
    }
}

/// What to do after a setting changed.
pub open spec fn setting_effects(change: SettingChange) -> Seq<EffectView> {
    match change {
        SettingChange::Theme(theme) => seq![EffectView::ApplyTheme(theme), EffectView::SaveSettings],
        _ => seq![EffectView::SaveSettings],
    }
}

impl WindowSettings {
    fn changed(self, change: SettingChange) -> (settings: WindowSettings)
        ensures
            settings == changed_settings(self, change),
    {
        match change {
            SettingChange::Theme(theme) => WindowSettings { theme, ..self },
            SettingChange::TrayTextMode(on) => WindowSettings { tray_text_mode: on, ..self },
            SettingChange::PreferredCodec(codec) => WindowSettings {
                preferred_codec: codec,
                ..self
            },
            SettingChange::AutoSwitchOnPlayback(on) => WindowSettings {
                auto_switch_on_playback: on,
                ..self
            },
            SettingChange::A2dpReset(on) => WindowSettings { a2dp_reset: on, ..self },
            SettingChange::HiResMicAgc(on) => WindowSettings { hires_mic_agc: on, ..self },
            SettingChange::HiResMicPauseConvo(on) => WindowSettings {
                hires_mic_pause_convo: on,
                ..self
            },
            SettingChange::StemControl(on) => WindowSettings { stem_control: on, ..self },
        }
    }
}

/// The hint under the name field while the user edits it.
#[derive(Debug, Clone, Copy, PartialEq, Eq)]
pub enum NameHint {
    /// The draft can be sent.
    PressEnter,
    Invalid(&'static str),
}

/// The mathematical content of a `NameHint`.
#[verifier::ext_equal]
pub enum NameHintView {
    PressEnter,
    Invalid(Seq<char>),
}

impl View for NameHint {
    type V = NameHintView;

    open spec fn view(&self) -> NameHintView {
        match *self {
            NameHint::PressEnter => NameHintView::PressEnter,
            NameHint::Invalid(hint) => NameHintView::Invalid(hint@),
        }
    }
}

impl NameHintView {
    /// The text of the hint.
    pub open spec fn shown(self) -> Seq<char> {
        match self {
            NameHintView::PressEnter => "Press Enter to rename"@,
            NameHintView::Invalid(hint) => hint,
        }
    }
}

impl NameHint {
    /// The text of the hint.
    pub fn text(self) -> (text: &'static str)
        ensures
            text@ == (match self@ {
                NameHintView::PressEnter => "Press Enter to rename"@,
                NameHintView::Invalid(hint) => hint,
            }),
            text@ == self@.shown(),
    {
        match self {
            NameHint::PressEnter => "Press Enter to rename",
            NameHint::Invalid(hint) => hint,
        }
    }
}

/// The sidebar line of one device.
#[derive(Debug, Clone, PartialEq)]
pub struct SidebarEntry {
    pub mac: String,
    pub name: String,
    pub connected: bool,
    pub status: SidebarStatus,
}

/// What a sidebar line says about its device.
#[derive(Debug, Clone, PartialEq)]
pub enum SidebarStatus {
    Batteries(Batteries),
    Text(&'static str),
}

/// The mathematical content of a `SidebarStatus`.
#[verifier::ext_equal]
pub enum SidebarStatusView {
    Batteries(Batteries),
    Text(Seq<char>),
}

impl View for SidebarStatus {
    type V = SidebarStatusView;

    open spec fn view(&self) -> SidebarStatusView {
        match *self {
            SidebarStatus::Batteries(b) => SidebarStatusView::Batteries(b),
            SidebarStatus::Text(t) => SidebarStatusView::Text(t@),
        }
    }
}

/// The mathematical content of a `SidebarEntry`.
#[verifier::ext_equal]
pub struct SidebarEntryView {
    pub mac: Seq<char>,
    pub name: Seq<char>,
    pub connected: bool,
    pub status: SidebarStatusView,
}

impl View for SidebarEntry {
    type V = SidebarEntryView;

    open spec fn view(&self) -> SidebarEntryView {
        SidebarEntryView {
            mac: self.mac@,
            name: self.name@,
            connected: self.connected,
            status: self.status@,
        }
    }
}

/// What the disconnected page shows.
#[derive(Debug, Clone, PartialEq, Eq)]
pub struct DisconnectedView {
    pub status: String,
    pub connecting: bool,
}

impl DisconnectedView {
    /// The text of the connect button.
    pub open spec fn button_text(self) -> Seq<char> {
        if self.connecting {
            "Connecting…"@
        } else {
            "Connect to this PC"@
        }
    }

    /// The text of the connect button.
    pub fn button_label(&self) -> (label: &'static str)
        ensures
            label@ == (if self.connecting {
                "Connecting…"@
            } else {
                "Connect to this PC"@
            }),
            label@ == self.button_text(),
    {
        if self.connecting {
            "Connecting…"
        } else {
            "Connect to this PC"
        }
    }
}

/// Shown on the disconnected page before any request was made.
pub const NOT_CONNECTED_HINT: &'static str =
    "Not connected to this PC. If they are on your phone, connecting here takes them over.";

/// The state of the window.
pub struct Model {
    /// Contents of devices.json.
    devices: AddressMap<DeviceData>,
    connected: AddressMap<()>,
    airpods: AddressMap<AirPods>,
    nothing: AddressMap<Nothing>,
    /// Last case level each device reported, shown dimmed while the case is
    /// silent.
    last_case_level: AddressMap<u8>,
    connects: ConnectRequests,
    selection: Selection,
    settings: WindowSettings,
    /// Hint for the name field of the device being renamed.
    name_hint: Option<(String, NameHint)>,
    mic: MicState,
    eq_sends: EqSends,
    settling: Settling,
}

/// The mathematical content of a `Model`.
#[verifier::ext_equal]
pub struct ModelView {
    pub devices: Map<Seq<char>, DeviceDataView>,
    pub connected: Set<Seq<char>>,
    pub airpods: Map<Seq<char>, AirPodsView>,
    pub nothing: Map<Seq<char>, NothingAncMode>,
    pub last_case_level: Map<Seq<char>, u8>,
    pub connects: ConnectRequestsView,
    pub selection: SelectionView,
    pub settings: WindowSettings,
    pub name_hint: Option<(Seq<char>, NameHintView)>,
    pub mic: MicStateView,
    pub eq_sends: EqSendsView,
    pub settling: SettlingView,
}

impl View for Model {
    type V = ModelView;

    closed spec fn view(&self) -> ModelView {
        ModelView {
            devices: self.devices@,
            connected: self.connected@.dom(),
            airpods: self.airpods@,
            nothing: self.nothing@,
            last_case_level: self.last_case_level@,
            connects: self.connects@,
            selection: self.selection@,
            settings: self.settings,
            name_hint: match self.name_hint {
                Some((mac, hint)) => Some((mac@, hint@)),
                None => None,
            },
            mic: self.mic@,
            eq_sends: self.eq_sends@,
            settling: self.settling@,
        }
    }
}

/// A change of a setting that the page of the AirPods shows as a switch or a
/// choice of its own.
#[derive(Debug, Clone, Copy, PartialEq, Eq, Structural)]
pub enum PageChange {
    ListeningMode(AirPodsNoiseControlMode),
    PersonalizedVolume(bool),
    AllowOff(bool),
}

impl PageChange {
    /// The setting a change is for.
    pub open spec fn identifier(self) -> ControlCommandIdentifiers {
        match self {
            PageChange::ListeningMode(_) => ControlCommandIdentifiers::ListeningMode,
            PageChange::PersonalizedVolume(_) => ControlCommandIdentifiers::AdaptiveVolumeConfig,
            PageChange::AllowOff(_) => ControlCommandIdentifiers::AllowOffOption,
        }
    }

    /// The bytes to send for a change.
    pub open spec fn value(self) -> Seq<u8> {
        match self {
            PageChange::ListeningMode(mode) => seq![crate::devices::enums::listening_byte(mode)],
            PageChange::PersonalizedVolume(on) => seq![
                crate::bluetooth::settings::switch_byte(on),
            ],
            PageChange::AllowOff(on) => seq![crate::bluetooth::settings::switch_byte(on)],
        }
    }

    /// The AirPods after a change.
    pub open spec fn applied(self, airpods: AirPodsView) -> AirPodsView {
        let stored = airpods.with_control(self.identifier(), self.value());
        match self {
            PageChange::ListeningMode(mode) => AirPodsView { listening_mode: mode, ..stored },
            PageChange::PersonalizedVolume(on) => AirPodsView {
                personalized_volume: on,
                ..stored
            },
            PageChange::AllowOff(on) => AirPodsView { allow_off: on, ..stored },
        }
    }
}

impl ModelView {
    /// A window that knows no device.
    pub open spec fn fresh(settings: WindowSettings) -> ModelView {
        ModelView {
            devices: Map::empty(),
            connected: Set::empty(),
            airpods: Map::empty(),
            nothing: Map::empty(),
            last_case_level: Map::empty(),
            connects: ConnectRequestsView::none(),
            selection: SelectionView::Empty,
            settings,
            name_hint: None,
            mic: crate::ui::gtk::model::mic::fresh_mic(),
            eq_sends: EqSendsView { generation: 0, pending: Map::empty() },
            settling: SettlingView::none(),
        }
    }

    // What the window shows.

    /// The saved name of a device, else its address.
    pub open spec fn saved_name(self, mac: Seq<char>) -> Seq<char> {
        if self.devices.contains_key(mac) {
            self.devices[mac].name
        } else {
            mac
        }
    }

    /// The name shown in headers: the live name for connected AirPods, else
    /// the saved one.
    pub open spec fn shown_title(self, mac: Seq<char>) -> Seq<char> {
        if self.airpods.contains_key(mac) {
            self.airpods[mac].name
        } else {
            self.saved_name(mac)
        }
    }

    /// The saved information of AirPods.
    pub open spec fn airpods_information(self, mac: Seq<char>) -> Option<
        crate::devices::airpods::AirPodsInformationView,
    > {
        if self.devices.contains_key(mac) {
            self.devices[mac].airpods_information()
        } else {
            None
        }
    }

    /// The last case level a device reported.
    pub open spec fn case_level(self, mac: Seq<char>) -> Option<u8> {
        if self.last_case_level.contains_key(mac) {
            Some(self.last_case_level[mac])
        } else {
            None
        }
    }

    /// The batteries of connected AirPods.
    pub open spec fn shown_batteries(self, mac: Seq<char>) -> Option<Batteries> {
        if self.airpods.contains_key(mac) {
            Some(
                crate::ui::gtk::battery::batteries_shown(
                    self.airpods[mac].battery,
                    self.case_level(mac),
                ),
            )
        } else {
            None
        }
    }

    /// The sidebar line of a device.
    pub open spec fn sidebar_entry(self, mac: Seq<char>) -> SidebarEntryView {
        SidebarEntryView {
            mac,
            name: self.devices[mac].name,
            connected: self.connected.contains(mac),
            status: match self.shown_batteries(mac) {
                Some(shown) => SidebarStatusView::Batteries(shown),
                None => if self.connected.contains(mac) {
                    SidebarStatusView::Text("Connected"@)
                } else {
                    SidebarStatusView::Text(
                        crate::ui::connect::sidebar_line(self.connects.of(mac)),
                    )
                },
            },
        }
    }

    /// The sidebar: one line per device, in order.
    pub open spec fn sidebar_shown(self) -> Seq<SidebarEntryView> {
        crate::ui::gtk::model::listing::listing(self.devices).map_values(
            |mac: Seq<char>| self.sidebar_entry(mac),
        )
    }

    /// The content of a device's page.
    pub open spec fn page_of(self, mac: Seq<char>) -> ContentView {
        if self.airpods.contains_key(mac) {
            ContentView::AirPods(mac)
        } else if self.nothing.contains_key(mac) {
            ContentView::Nothing(mac)
        } else if self.connected.contains(mac) {
            ContentView::Waiting(mac)
        } else if !self.devices.contains_key(mac) {
            // Forgotten from devices.json while selected.
            ContentView::Empty
        } else {
            match self.devices[mac].type_ {
                DeviceType::AirPods => ContentView::Disconnected(mac),
                DeviceType::Nothing => ContentView::Unavailable(mac),
            }
        }
    }

    /// What the content pane shows.
    pub open spec fn shown_content(self) -> ContentView {
        match self.selection {
            SelectionView::Empty => ContentView::Empty,
            SelectionView::Settings => ContentView::Settings,
            SelectionView::Device(mac) => self.page_of(mac),
        }
    }

    /// The hint for the name field of a device.
    pub open spec fn hint_for(self, mac: Seq<char>) -> Option<NameHintView> {
        match self.name_hint {
            Some((of, hint)) => if of == mac {
                Some(hint)
            } else {
                None
            },
            None => None,
        }
    }

    /// The status on the disconnected page of a device.
    pub open spec fn disconnected_status(self, mac: Seq<char>) -> Seq<char> {
        match self.connects.of(mac) {
            Some(ConnectStatusView::Failed(e)) => e,
            Some(_) => "Connecting…"@,
            None => NOT_CONNECTED_HINT@,
        }
    }

    // What an input changes.

    /// The model after devices.json was read. The first AirPods are selected
    /// where nothing is.
    pub open spec fn with_devices(self, devices: Map<Seq<char>, DeviceDataView>) -> ModelView {
        ModelView {
            devices,
            selection: if self.selection is Empty {
                match crate::ui::gtk::model::listing::first_airpods(
                    devices,
                    crate::ui::gtk::model::listing::listing(devices),
                ) {
                    Some(mac) => SelectionView::Device(mac),
                    None => SelectionView::Empty,
                }
            } else {
                self.selection
            },
            ..self
        }
    }

    /// The model with the case level of a battery report, if it has one.
    pub open spec fn remembering(self, mac: Seq<char>, battery: Seq<BatteryInfo>) -> ModelView {
        match crate::ui::format::case_level(battery) {
            Some(level) => ModelView {
                last_case_level: self.last_case_level.insert(mac, level),
                ..self
            },
            None => self,
        }
    }

    /// The model with another state of connected AirPods; without those
    /// AirPods, nothing changes.
    pub open spec fn with_airpods(self, mac: Seq<char>, airpods: AirPodsView) -> ModelView {
        if self.airpods.contains_key(mac) {
            ModelView { airpods: self.airpods.insert(mac, airpods), ..self }
        } else {
            self
        }
    }

    /// The model after an event from AirPods.
    pub open spec fn with_event(self, mac: Seq<char>, event: AACPEvent) -> ModelView {
        match event {
            AACPEvent::BatteryInfo(battery) => self.remembering(mac, battery@).with_airpods(
                mac,
                AirPodsView { battery: battery@, ..self.airpods[mac] },
            ),
            AACPEvent::ControlCommand(status) => self.with_airpods(
                mac,
                self.airpods[mac].reported(status.identifier, status.value@),
            ),
            AACPEvent::CustomEq(eq) => self.with_airpods(
                mac,
                AirPodsView { custom_eq: Some(eq), ..self.airpods[mac] },
            ),
            AACPEvent::Other => self,
        }
    }

    /// The model after the state of a device was read. The device may have
    /// gone away meanwhile; then nothing changes.
    pub open spec fn with_snapshot(
        self,
        mac: Seq<char>,
        snapshot: Option<DeviceSnapshot>,
    ) -> ModelView {
        if !self.connected.contains(mac) {
            self
        } else {
            match snapshot {
                Some(DeviceSnapshot::AirPods(s)) => {
                    let name = if self.devices.contains_key(mac) {
                        self.devices[mac].name
                    } else {
                        "AirPods"@
                    };
                    let airpods = AirPodsView::fresh(
                        name,
                        s.battery@,
                        s.custom_eq,
                    ).all_reported(s.controls@);
                    ModelView {
                        airpods: self.airpods.insert(mac, airpods),
                        ..self.remembering(mac, s.battery@)
                    }
                },
                Some(DeviceSnapshot::Nothing) => ModelView {
                    nothing: self.nothing.insert(mac, NothingAncMode::Off),
                    ..self
                },
                None => self,
            }
        }
    }

    /// The model after a device connected.
    pub open spec fn with_connected(self, mac: Seq<char>) -> ModelView {
        ModelView {
            connected: self.connected.insert(mac),
            connects: self.connects.without(mac),
            ..self
        }
    }

    /// The model after a device disconnected, before the microphone is told.
    pub open spec fn live_state_dropped(self, mac: Seq<char>) -> ModelView {
        ModelView {
            connected: self.connected.remove(mac),
            connects: self.connects.dropped(mac),
            airpods: self.airpods.remove(mac),
            nothing: self.nothing.remove(mac),
            name_hint: if self.hint_for(mac) is Some {
                None
            } else {
                self.name_hint
            },
            ..self
        }
    }

    /// The model after a device disconnected.
    pub open spec fn with_disconnected(self, mac: Seq<char>) -> ModelView {
        self.live_state_dropped(mac).without_eq_send(mac).mic_lost(
            mac,
            self.airpods.contains_key(mac),
        )
    }

    /// Whether a connect request for `mac` is made: none runs, and it is an
    /// address.
    pub open spec fn connectable(self, mac: Seq<char>) -> bool {
        !self.connects.running(mac) && crate::bluetooth::address::address_of(mac) is Some
    }

    /// The model after a connect request.
    pub open spec fn with_request(self, mac: Seq<char>) -> ModelView {
        if self.connectable(mac) {
            ModelView { connects: self.connects.started(mac), ..self }
        } else {
            self
        }
    }

    /// What to do for a connect request.
    pub open spec fn request_effects(self, mac: Seq<char>) -> Seq<EffectView> {
        if self.connectable(mac) {
            seq![
                EffectView::Connect {
                    mac,
                    address: crate::bluetooth::address::address_of(mac)->0,
                    attempt: (self.connects.last_attempt + 1) as u64,
                },
            ]
        } else {
            nothing_to_do()
        }
    }

    /// Whether `mac` are known AirPods that are not connected.
    pub open spec fn away(self, mac: Seq<char>) -> bool {
        self.devices.contains_key(mac) && self.devices[mac].type_ == DeviceType::AirPods
            && !self.connected.contains(mac)
    }

    /// The model after connect requests for those of some devices that are
    /// AirPods and away.
    pub open spec fn with_requests(self, macs: Seq<Seq<char>>) -> ModelView
        decreases macs.len(),
    {
        if macs.len() == 0 {
            self
        } else {
            let earlier = self.with_requests(macs.drop_last());
            if self.away(macs.last()) {
                earlier.with_request(macs.last())
            } else {
                earlier
            }
        }
    }

    /// What to do for those requests, in order.
    pub open spec fn requests_effects(self, macs: Seq<Seq<char>>) -> Seq<EffectView>
        decreases macs.len(),
    {
        if macs.len() == 0 {
            nothing_to_do()
        } else {
            let earlier = self.with_requests(macs.drop_last());
            self.requests_effects(macs.drop_last()) + if self.away(macs.last()) {
                earlier.request_effects(macs.last())
            } else {
                nothing_to_do()
            }
        }
    }

    /// The toast for a request that failed.
    pub open spec fn failure_toast(self, mac: Seq<char>) -> Seq<EffectView> {
        if self.connects.of(mac) matches Some(ConnectStatusView::Failed(_)) {
            seq![EffectView::Toast("Could not connect "@ + self.saved_name(mac))]
        } else {
            nothing_to_do()
        }
    }

    /// The model after the name field of a device changed.
    pub open spec fn with_name_draft(self, mac: Seq<char>, text: Seq<char>) -> ModelView {
        ModelView {
            name_hint: if self.airpods.contains_key(mac) && self.airpods[mac].name == text {
                None
            } else {
                Some(
                    (
                        mac,
                        match crate::ui::format::checked_name(text) {
                            Ok(_) => NameHintView::PressEnter,
                            Err(e) => NameHintView::Invalid(e),
                        },
                    ),
                )
            },
            ..self
        }
    }

    /// The model after a rename was asked for.
    pub open spec fn with_rename(self, mac: Seq<char>, text: Seq<char>) -> ModelView {
        if !self.airpods.contains_key(mac) {
            self
        } else {
            match crate::ui::format::checked_name(text) {
                Ok(name) => ModelView { name_hint: None, ..self }.with_airpods(
                    mac,
                    AirPodsView { name, ..self.airpods[mac] },
                ),
                Err(e) => ModelView { name_hint: Some((mac, NameHintView::Invalid(e))), ..self },
            }
        }
    }

    /// What to do after a rename was asked for.
    pub open spec fn rename_effects(self, mac: Seq<char>, text: Seq<char>) -> Seq<EffectView> {
        if !self.airpods.contains_key(mac) {
            nothing_to_do()
        } else {
            match crate::ui::format::checked_name(text) {
                Ok(name) => if self.airpods[mac].name == name {
                    nothing_to_do()
                } else {
                    seq![EffectView::Rename { mac, name }]
                },
                Err(_) => nothing_to_do(),
            }
        }
    }

    /// The model after a change of a switch or choice of the AirPods page.
    pub open spec fn with_page_change(self, mac: Seq<char>, change: PageChange) -> ModelView {
        self.with_airpods(mac, change.applied(self.airpods[mac]))
    }

    /// What to do after a change of a switch or choice of the AirPods page.
    pub open spec fn page_change_effects(self, mac: Seq<char>, change: PageChange) -> Seq<
        EffectView,
    > {
        if self.airpods.contains_key(mac) {
            seq![
                EffectView::SendControl {
                    mac,
                    identifier: change.identifier(),
                    value: change.value(),
                },
            ]
        } else {
            nothing_to_do()
        }
    }

    /// The model after a change in the settings sections.
    pub open spec fn with_control_change(self, mac: Seq<char>, change: ControlChange) -> ModelView {
        if self.airpods.contains_key(mac) {
            ModelView {
                airpods: self.airpods.insert(
                    mac,
                    crate::ui::gtk::controls::changed_airpods(self.airpods[mac], change),
                ),
                settling: crate::ui::gtk::controls::changed_holds(
                    self.settling,
                    mac,
                    self.airpods[mac],
                    change,
                ),
                ..self
            }
        } else {
            self
        }
    }

    /// Whether conversation awareness can be switched.
    pub open spec fn awareness_free(self, mac: Seq<char>) -> bool {
        self.airpods.contains_key(mac) && !self.awareness_locked(mac)
    }

    /// The model after a message from the backend.
    pub open spec fn after_message(self, message: BluetoothUIMessage) -> ModelView {
        match message {
            BluetoothUIMessage::OpenWindow => self,
            BluetoothUIMessage::ConnectAirPods => self.with_requests(
                crate::ui::gtk::model::listing::listing(self.devices),
            ),
            BluetoothUIMessage::DeviceConnected(mac) => self.with_connected(mac@),
            BluetoothUIMessage::DeviceDisconnected(mac) => self.with_disconnected(mac@),
            BluetoothUIMessage::AACPUIEvent(mac, event) => self.with_event(mac@, event),
        }
    }

    /// What to do after a message from the backend.
    pub open spec fn message_effects(self, message: BluetoothUIMessage) -> Seq<EffectView> {
        match message {
            BluetoothUIMessage::OpenWindow => seq![
                EffectView::PresentWindow,
                EffectView::LoadDevices,
            ],
            BluetoothUIMessage::ConnectAirPods => self.requests_effects(
                crate::ui::gtk::model::listing::listing(self.devices),
            ),
            BluetoothUIMessage::DeviceConnected(mac) => seq![
                EffectView::LoadDevices,
                EffectView::Snapshot(mac@),
            ],
            BluetoothUIMessage::DeviceDisconnected(mac) => if self.airpods.contains_key(mac@) {
                self.mic_end_effects()
            } else {
                nothing_to_do()
            },
            // The handlers of these events save the device information and
            // name to devices.json without an event of their own; the events
            // that follow are the next chance to pick it up.
            BluetoothUIMessage::AACPUIEvent(_, _) => seq![EffectView::LoadDevices],
        }
    }

    /// The model after an input.
    pub open spec fn after(self, input: Input) -> ModelView {
        match input {
            Input::Backend(message) => self.after_message(message),
            Input::DevicesLoaded(devices) => self.with_devices(devices@),
            Input::Snapshot(mac, snapshot) => self.with_snapshot(mac@, snapshot),
            Input::Select(selection) => ModelView {
                selection: selection@,
                name_hint: None,
                ..self
            },
            Input::Connect(mac) => self.with_request(mac@),
            Input::ConnectFinished { mac, attempt, result } => ModelView {
                connects: self.connects.returned(
                    mac@,
                    attempt,
                    crate::ui::connect::connect_error(result),
                ),
                ..self
            },
            Input::ConnectSetupTimedOut { mac, attempt } => ModelView {
                connects: self.connects.timed_out(mac@, attempt),
                ..self
            },
            Input::SetListeningMode(mac, mode) => self.with_page_change(
                mac@,
                PageChange::ListeningMode(mode),
            ),
            Input::SetConversationAwareness(mac, enabled) => if self.awareness_free(mac@) {
                self.with_airpods(
                    mac@,
                    AirPodsView { conversation_awareness: enabled, ..self.airpods[mac@] },
                )
            } else {
                self
            },
            Input::SetPersonalizedVolume(mac, enabled) => self.with_page_change(
                mac@,
                PageChange::PersonalizedVolume(enabled),
            ),
            Input::SetAllowOff(mac, enabled) => self.with_page_change(
                mac@,
                PageChange::AllowOff(enabled),
            ),
            Input::AirPodsControl(mac, change) => self.with_control_change(mac@, change),
            Input::ControlSettled { mac, identifier, generation } => ModelView {
                settling: self.settling.released(mac@, identifier, generation),
                ..self
            },
            Input::Equalizer(input) => self.equalized(input),
            Input::Microphone(input) => self.heard(input),
            Input::WindowVisible(visible) => self.with_mic(
                MicStateView { window_visible: visible, ..self.mic },
            ),
            Input::NameEdited(mac, text) => self.with_name_draft(mac@, text@),
            Input::Rename(mac, text) => self.with_rename(mac@, text@),
            Input::SetNothingAnc(mac, mode) => if self.nothing.contains_key(mac@) {
                ModelView { nothing: self.nothing.insert(mac@, mode), ..self }
            } else {
                self
            },
            Input::Setting(change) => ModelView {
                settings: changed_settings(self.settings, change),
                ..self
            },
            Input::Toast(_) => self,
        }
    }

    /// What to do after an input.
    pub open spec fn effects_after(self, input: Input) -> Seq<EffectView> {
        match input {
            Input::Backend(message) => self.message_effects(message),
            Input::DevicesLoaded(_) => nothing_to_do(),
            Input::Snapshot(_, _) => nothing_to_do(),
            Input::Select(_) => nothing_to_do(),
            Input::Connect(mac) => self.request_effects(mac@),
            Input::ConnectFinished { mac, attempt, result } => if self.connects.connecting(
                mac@,
                attempt,
            ) && result is Ok {
                seq![EffectView::SetupTimeout { mac: mac@, attempt }]
            } else {
                self.after(input).failure_toast(mac@)
            },
            Input::ConnectSetupTimedOut { mac, attempt } => self.after(input).failure_toast(mac@),
            Input::SetListeningMode(mac, mode) => self.page_change_effects(
                mac@,
                PageChange::ListeningMode(mode),
            ),
            Input::SetConversationAwareness(mac, enabled) => if self.awareness_free(mac@) {
                seq![EffectView::SetConversationDetection { mac: mac@, enabled }]
            } else {
                nothing_to_do()
            },
            Input::SetPersonalizedVolume(mac, enabled) => self.page_change_effects(
                mac@,
                PageChange::PersonalizedVolume(enabled),
            ),
            Input::SetAllowOff(mac, enabled) => self.page_change_effects(
                mac@,
                PageChange::AllowOff(enabled),
            ),
            Input::AirPodsControl(mac, change) => if self.airpods.contains_key(mac@) {
                crate::ui::gtk::controls::change_effects(
                    self.settling,
                    mac@,
                    self.airpods[mac@],
                    change,
                )
            } else {
                nothing_to_do()
            },
            Input::ControlSettled { mac, identifier, generation } => {
                crate::ui::gtk::controls::settled_effects(
                    self.settling,
                    mac@,
                    self.airpods.contains_key(mac@),
                    identifier,
                    generation,
                )
            },
            Input::Equalizer(input) => self.equalized_effects(input),
            Input::Microphone(input) => self.heard_effects(input),
            Input::WindowVisible(_) => nothing_to_do(),
            Input::NameEdited(_, _) => nothing_to_do(),
            Input::Rename(mac, text) => self.rename_effects(mac@, text@),
            Input::SetNothingAnc(mac, mode) => if self.nothing.contains_key(mac@) {
                seq![
                    EffectView::SetNothingAnc {
                        mac: mac@,
                        mode: crate::devices::enums::nothing_byte(mode),
                    },
                ]
            } else {
                nothing_to_do()
            },
            Input::Setting(change) => setting_effects(change),
            Input::Toast(message) => seq![EffectView::Toast(message@)],
        }
    }

    /// Whether the counters have room for what an input may count.
    pub open spec fn has_room(self, input: Input) -> bool {
        match input {
            Input::Connect(_) => self.connects.last_attempt < u64::MAX,
            Input::Backend(BluetoothUIMessage::ConnectAirPods) => self.connects.last_attempt
                + crate::ui::gtk::model::listing::listing(self.devices).len() <= u64::MAX,
            Input::Backend(BluetoothUIMessage::DeviceDisconnected(_)) => self.mic.take < u64::MAX,
            Input::Microphone(_) => self.mic.take < u64::MAX,
            Input::Equalizer(_) => self.eq_sends.generation < u64::MAX,
            _ => true,
        }
    }

    /// What holds of the model at all times.
    pub open spec fn consistent(self) -> bool {
        // The list of known devices ends.
        &&& self.devices.dom().finite()
        // Only connected devices have live state, only connected AirPods are
        // captured from or have a delayed equalizer send.
        &&& self.airpods.dom().subset_of(self.connected)
        &&& self.nothing.dom().subset_of(self.connected)
        &&& self.mic.capture.dom().subset_of(self.airpods.dom())
        &&& self.eq_sends.pending.dom().subset_of(
            self.airpods.dom(),
        )
        // Every number of a request or a delayed send was given out.
        &&& self.connects.numbered()
        &&& forall|mac: Seq<char>| #[trigger]
            self.eq_sends.pending.contains_key(mac) ==> self.eq_sends.pending[mac]
                <= self.eq_sends.generation
        // Media players stay paused only while a test runs.
        &&& !self.mic.test.running() ==> self.mic.paused.len()
            == 0
        // The player is never past the end of the take.
        &&& self.mic.test matches crate::ui::gtk::model::mic::MicPhase::Ready(p) ==> p.position
            <= p.duration
    }
}

/// What an input must satisfy.
pub open spec fn input_wf(input: Input) -> bool {
    match input {
        Input::DevicesLoaded(devices) => devices.wf(),
        _ => true,
    }
}

impl Model {
    /// Every part of the model is well formed.
    pub closed spec fn parts_wf(&self) -> bool {
        &&& self.devices.wf()
        &&& self.connected.wf()
        &&& self.airpods.wf()
        &&& self.nothing.wf()
        &&& self.last_case_level.wf()
        &&& self.connects.wf()
        &&& self.mic.capture.wf()
        &&& self.eq_sends.pending.wf()
        &&& self.settling.wf()
    }

    /// What every model satisfies.
    pub open spec fn wf(&self) -> bool {
        &&& self.parts_wf()
        &&& self@.consistent()
    }

    /// A window with these settings and devices.
    pub fn new(settings: AppSettings, devices: AddressMap<DeviceData>) -> (model: Model)
        requires
            devices.wf(),
        ensures
            model.wf(),
            model@ == ModelView::fresh(window_settings(settings)).with_devices(devices@),
    {
        let mut model = Model {
            devices: AddressMap::new(),
            connected: AddressMap::new(),
            airpods: AddressMap::new(),
            nothing: AddressMap::new(),
            last_case_level: AddressMap::new(),
            connects: ConnectRequests::default(),
            selection: Selection::Empty,
            settings: WindowSettings::from_stored(settings),
            name_hint: None,
            mic: MicState::default(),
            eq_sends: EqSends::default(),
            settling: Settling::default(),
        };
        proof {
            assert(model@ =~= ModelView::fresh(window_settings(settings)));
            devices.lemma_addresses();
        }
        model.set_devices(devices);
        model
    }

    /// Whether the counters have room for what an input may count. They have,
    /// for longer than any session lasts.
    pub fn has_room(&self, input: &Input) -> (yes: bool)
        requires
            self.wf(),
        ensures
            yes == self@.has_room(*input),
    {
        match input {
            Input::Connect(_) => self.connects.last_attempt() < u64::MAX,
            Input::Backend(BluetoothUIMessage::ConnectAirPods) => {
                let macs = sorted_macs(&self.devices);
                u64::MAX - self.connects.last_attempt() >= macs.len() as u64
            },
            Input::Backend(BluetoothUIMessage::DeviceDisconnected(_)) => self.mic.take < u64::MAX,
            Input::Microphone(_) => self.mic.take < u64::MAX,
            Input::Equalizer(_) => self.eq_sends.generation < u64::MAX,
            _ => true,
        }
    }

    /// Takes one input and returns the work it asks for.
    pub fn update(&mut self, input: Input) -> (effects: Vec<Effect>)
        requires
            old(self).wf(),
            input_wf(input),
            old(self)@.has_room(input),
        ensures
            final(self).wf(),
            final(self)@ == old(self)@.after(input),
            effects_view(effects@) == old(self)@.effects_after(input),
    {
        proof {
            crate::ui::gtk::model::laws::updates_keep_the_model_consistent(self@, input);
        }
        self.take(input)
    }

    fn take(&mut self, input: Input) -> (effects: Vec<Effect>)
        requires
            old(self).parts_wf(),
            input_wf(input),
            old(self)@.has_room(input),
        ensures
            final(self).parts_wf(),
            final(self)@ == old(self)@.after(input),
            effects_view(effects@) == old(self)@.effects_after(input),
    {
        match input {
            Input::Backend(message) => self.backend(message),
            Input::DevicesLoaded(devices) => {
                self.set_devices(devices);
                no_effects()
            },
            Input::Snapshot(mac, snapshot) => {
                self.snapshot(mac, snapshot);
                no_effects()
            },
            Input::Connect(_) | Input::ConnectFinished { .. } | Input::ConnectSetupTimedOut {
                ..
            } => self.take_connect(input),
            Input::SetListeningMode(_, _) | Input::SetConversationAwareness(_, _)
            | Input::SetPersonalizedVolume(_, _) | Input::SetAllowOff(_, _)
            | Input::AirPodsControl(_, _) | Input::ControlSettled { .. } => self.take_page(input),
            Input::Equalizer(input) => self.equalizer(input),
            Input::Microphone(input) => self.microphone(input),
            _ => self.take_rest(input),
        }
    }

    /// Takes an input of a connect request.
    fn take_connect(&mut self, input: Input) -> (effects: Vec<Effect>)
        requires
            old(self).parts_wf(),
            old(self)@.has_room(input),
            input is Connect || input is ConnectFinished || input is ConnectSetupTimedOut,
        ensures
            final(self).parts_wf(),
            final(self)@ == old(self)@.after(input),
            effects_view(effects@) == old(self)@.effects_after(input),
    {
        match input {
            Input::Connect(mac) => match self.start_connect(mac) {
                Some(effect) => one_effect(effect),
                None => no_effects(),
            },
            Input::ConnectFinished { mac, attempt, result } => self.connect_finished(
                mac,
                attempt,
                result,
            ),
            Input::ConnectSetupTimedOut { mac, attempt } => {
                self.connects.setup_timed_out(mac.as_str(), attempt);
                self.connect_failure_toast(mac.as_str())
            },
            _ => no_effects(),
        }
    }

    /// Takes a change of a setting of AirPods.
    fn take_page(&mut self, input: Input) -> (effects: Vec<Effect>)
        requires
            old(self).parts_wf(),
            input is SetListeningMode || input is SetConversationAwareness
                || input is SetPersonalizedVolume || input is SetAllowOff
                || input is AirPodsControl || input is ControlSettled,
        ensures
            final(self).parts_wf(),
            final(self)@ == old(self)@.after(input),
            effects_view(effects@) == old(self)@.effects_after(input),
    {
        match input {
            Input::SetListeningMode(mac, mode) => self.change_airpods(
                mac,
                PageChange::ListeningMode(mode),
            ),
            Input::SetConversationAwareness(mac, enabled) => self.set_awareness(mac, enabled),
            Input::SetPersonalizedVolume(mac, enabled) => self.change_airpods(
                mac,
                PageChange::PersonalizedVolume(enabled),
            ),
            Input::SetAllowOff(mac, enabled) => self.change_airpods(
                mac,
                PageChange::AllowOff(enabled),
            ),
            Input::AirPodsControl(mac, change) => self.change_control(mac, change),
            Input::ControlSettled { mac, identifier, generation } => {
                let connected = self.airpods.contains_key(mac.as_str());
                crate::ui::gtk::controls::settled(
                    mac,
                    connected,
                    &mut self.settling,
                    identifier,
                    generation,
                )
            },
            _ => no_effects(),
        }
    }

    /// Takes an input of the window itself, a name or a setting.
    fn take_rest(&mut self, input: Input) -> (effects: Vec<Effect>)
        requires
            old(self).parts_wf(),
            input is Select || input is WindowVisible || input is NameEdited || input is Rename
                || input is SetNothingAnc || input is Setting || input is Toast,
        ensures
            final(self).parts_wf(),
            final(self)@ == old(self)@.after(input),
            effects_view(effects@) == old(self)@.effects_after(input),
    {
        match input {
            Input::Select(selection) => {
                self.select(selection);
                no_effects()
            },
            Input::WindowVisible(visible) => {
                self.set_window_visible(visible);
                no_effects()
            },
            Input::NameEdited(mac, text) => {
                self.name_edited(mac, text.as_str());
                no_effects()
            },
            Input::Rename(mac, text) => self.rename(mac, text.as_str()),
            Input::SetNothingAnc(mac, mode) => self.set_nothing_anc(mac, mode),
            Input::Setting(change) => self.change_setting(change),
            Input::Toast(message) => one_effect(Effect::Toast(message)),
            _ => no_effects(),
        }
    }

    fn select(&mut self, selection: Selection)
        requires
            old(self).parts_wf(),
        ensures
            final(self).parts_wf(),
            final(self)@ == old(self)@.after(Input::Select(selection)),
    {
        self.selection = selection;
        self.name_hint = None;
    }

    fn set_nothing_anc(&mut self, mac: String, mode: NothingAncMode) -> (effects: Vec<Effect>)
        requires
            old(self).parts_wf(),
        ensures
            final(self).parts_wf(),
            final(self)@ == old(self)@.after(Input::SetNothingAnc(mac, mode)),
            effects_view(effects@) == old(self)@.effects_after(Input::SetNothingAnc(mac, mode)),
    {
        if !self.nothing.contains_key(mac.as_str()) {
            return no_effects();
        }
        self.nothing.insert(mac.clone(), Nothing { anc_mode: mode });
        one_effect(Effect::SetNothingAnc { mac, mode: mode.to_byte() })
    }

    fn backend(&mut self, message: BluetoothUIMessage) -> (effects: Vec<Effect>)
        requires
            old(self).parts_wf(),
            old(self)@.has_room(Input::Backend(message)),
        ensures
            final(self).parts_wf(),
            final(self)@ == old(self)@.after_message(message),
            effects_view(effects@) == old(self)@.message_effects(message),
    {
        match message {
            BluetoothUIMessage::OpenWindow => two_effects(
                Effect::PresentWindow,
                Effect::LoadDevices,
            ),
            BluetoothUIMessage::ConnectAirPods => self.connect_away_airpods(),
            BluetoothUIMessage::DeviceConnected(mac) => {
                self.device_connected(mac.as_str());
                two_effects(Effect::LoadDevices, Effect::Snapshot(mac))
            },
            BluetoothUIMessage::DeviceDisconnected(mac) => self.device_disconnected(mac.as_str()),
            BluetoothUIMessage::AACPUIEvent(mac, event) => {
                self.aacp_event(mac, event);
                one_effect(Effect::LoadDevices)
            },
        }
    }

    fn device_connected(&mut self, mac: &str)
        requires
            old(self).parts_wf(),
        ensures
            final(self).parts_wf(),
            final(self)@ == old(self)@.with_connected(mac@),
    {
        self.connected.insert(mac.to_string(), ());
        self.connects.connected(mac);
        proof {
            assert(self@.connected =~= old(self)@.connected.insert(mac@));
        }
    }

    fn drop_live_state(&mut self, mac: &str) -> (was_airpods: bool)
        requires
            old(self).parts_wf(),
        ensures
            final(self).parts_wf(),
            final(self)@ == old(self)@.live_state_dropped(mac@),
            was_airpods == old(self)@.airpods.contains_key(mac@),
    {
        let _ = self.connected.remove(mac);
        self.connects.disconnected(mac);
        let was_airpods = self.airpods.remove(mac).is_some();
        let _ = self.nothing.remove(mac);
        let hinted = match &self.name_hint {
            Some((of, _)) => same_text(of.as_str(), mac),
            None => false,
        };
        if hinted {
            self.name_hint = None;
        }
        proof {
            assert(self@.connected =~= old(self)@.connected.remove(mac@));
        }
        was_airpods
    }

    fn device_disconnected(&mut self, mac: &str) -> (effects: Vec<Effect>)
        requires
            old(self).parts_wf(),
            old(self)@.mic.take < u64::MAX,
        ensures
            final(self).parts_wf(),
            final(self)@ == old(self)@.with_disconnected(mac@),
            effects_view(effects@) == (if old(self)@.airpods.contains_key(mac@) {
                old(self)@.mic_end_effects()
            } else {
                nothing_to_do()
            }),
    {
        let was_airpods = self.drop_live_state(mac);
        self.eq_disconnected(mac);
        self.mic_disconnected(mac, was_airpods)
    }

    /// Requests a connection for every known AirPods that are away.
    fn connect_away_airpods(&mut self) -> (effects: Vec<Effect>)
        requires
            old(self).parts_wf(),
            old(self)@.connects.last_attempt + crate::ui::gtk::model::listing::listing(
                old(self)@.devices,
            ).len() <= u64::MAX,
        ensures
            final(self).parts_wf(),
            final(self)@ == old(self)@.with_requests(
                crate::ui::gtk::model::listing::listing(old(self)@.devices),
            ),
            effects_view(effects@) == old(self)@.requests_effects(
                crate::ui::gtk::model::listing::listing(old(self)@.devices),
            ),
    {
        let macs = sorted_macs(&self.devices);
        let ghost all = crate::ui::gtk::model::listing::listing(self@.devices);
        let mut effects = no_effects();
        let mut i: usize = 0;
        proof {
            assert(all.take(0) =~= Seq::<Seq<char>>::empty());
        }
        while i < macs.len()
            invariant
                i <= macs@.len(),
                all == crate::text::texts(macs@),
                self.parts_wf(),
                self@.devices == old(self)@.devices,
                self@.connected == old(self)@.connected,
                self@ == old(self)@.with_requests(all.take(i as int)),
                effects_view(effects@) == old(self)@.requests_effects(all.take(i as int)),
                self@.connects.last_attempt <= old(self)@.connects.last_attempt + i,
                old(self)@.connects.last_attempt + all.len() <= u64::MAX,
            decreases macs@.len() - i,
        {
            let ghost before = self@;
            proof {
                let next = all.take(i + 1);
                assert(next.drop_last() =~= all.take(i as int));
                assert(next.last() == macs@[i as int]@);
            }
            let known = match self.devices.get(macs[i].as_str()) {
                Some(device) => device.type_ == DeviceType::AirPods,
                None => false,
            };
            if known && !self.connected.contains_key(macs[i].as_str()) {
                match self.start_connect(macs[i].clone()) {
                    Some(effect) => {
                        add_effect(&mut effects, effect);
                    },
                    None => {},
                }
            }
            proof {
                assert(effects_view(effects@) =~= old(self)@.requests_effects(
                    all.take(i + 1),
                ));
            }
            i = i + 1;
        }
        proof {
            assert(all.take(i as int) =~= all);
        }
        effects
    }

    fn aacp_event(&mut self, mac: String, event: AACPEvent)
        requires
            old(self).parts_wf(),
        ensures
            final(self).parts_wf(),
            final(self)@ == old(self)@.with_event(mac@, event),
    {
        match event {
            AACPEvent::BatteryInfo(battery) => self.battery_reported(mac, battery),
            AACPEvent::ControlCommand(status) => self.control_reported(mac, status),
            AACPEvent::CustomEq(eq) => self.eq_reported(mac, eq),
            AACPEvent::Other => {},
        }
    }

    fn battery_reported(&mut self, mac: String, battery: Vec<BatteryInfo>)
        requires
            old(self).parts_wf(),
        ensures
            final(self).parts_wf(),
            final(self)@ == old(self)@.with_event(mac@, AACPEvent::BatteryInfo(battery)),
    {
        self.remember_case(mac.as_str(), battery.as_slice());
        let ghost before = self@.airpods;
        match self.airpods.remove(mac.as_str()) {
            Some(airpods) => {
                let mut airpods = airpods;
                airpods.battery = battery;
                self.airpods.insert(mac, airpods);
                proof {
                    assert(self@.airpods =~= before.insert(mac@, airpods@));
                }
            },
            None => {
                proof {
                    assert(self@.airpods =~= before);
                }
            },
        }
    }

    fn control_reported(&mut self, mac: String, status: ControlCommandStatus)
        requires
            old(self).parts_wf(),
        ensures
            final(self).parts_wf(),
            final(self)@ == old(self)@.with_event(mac@, AACPEvent::ControlCommand(status)),
    {
        match self.airpods.remove(mac.as_str()) {
            Some(airpods) => {
                let mut airpods = airpods;
                airpods.apply_control(&status);
                self.airpods.insert(mac, airpods);
                proof {
                    assert(self@.airpods =~= old(self)@.airpods.insert(mac@, airpods@));
                }
            },
            None => {
                proof {
                    assert(self@.airpods =~= old(self)@.airpods);
                }
            },
        }
    }

    fn eq_reported(&mut self, mac: String, eq: CustomEq)
        requires
            old(self).parts_wf(),
        ensures
            final(self).parts_wf(),
            final(self)@ == old(self)@.with_event(mac@, AACPEvent::CustomEq(eq)),
    {
        match self.airpods.remove(mac.as_str()) {
            Some(airpods) => {
                let mut airpods = airpods;
                airpods.custom_eq = Some(eq);
                self.airpods.insert(mac, airpods);
                proof {
                    assert(self@.airpods =~= old(self)@.airpods.insert(mac@, airpods@));
                }
            },
            None => {
                proof {
                    assert(self@.airpods =~= old(self)@.airpods);
                }
            },
        }
    }

    fn remember_case(&mut self, mac: &str, battery: &[BatteryInfo])
        requires
            old(self).parts_wf(),
        ensures
            final(self).parts_wf(),
            final(self)@ == old(self)@.remembering(mac@, battery@),
    {
        match live_case_level(battery) {
            Some(level) => {
                self.last_case_level.insert(mac.to_string(), level);
            },
            None => {},
        }
    }

    fn snapshot(&mut self, mac: String, snapshot: Option<DeviceSnapshot>)
        requires
            old(self).parts_wf(),
        ensures
            final(self).parts_wf(),
            final(self)@ == old(self)@.with_snapshot(mac@, snapshot),
    {
        // The device may have gone away while its state was being read.
        if !self.connected.contains_key(mac.as_str()) {
            return;
        }
        match snapshot {
            Some(DeviceSnapshot::AirPods(snapshot)) => {
                self.remember_case(mac.as_str(), snapshot.battery.as_slice());
                let name = match self.devices.get(mac.as_str()) {
                    Some(device) => device.name.clone(),
                    None => "AirPods".to_string(),
                };
                self.airpods.insert(mac, AirPods::from_snapshot(name, snapshot));
            },
            Some(DeviceSnapshot::Nothing) => {
                self.nothing.insert(mac, Nothing { anc_mode: NothingAncMode::Off });
            },
            None => {},
        }
    }

    fn set_devices(&mut self, devices: AddressMap<DeviceData>)
        requires
            old(self).parts_wf(),
            devices.wf(),
        ensures
            final(self).parts_wf(),
            final(self)@ == old(self)@.with_devices(devices@),
    {
        self.devices = devices;
        let unselected = match &self.selection {
            Selection::Empty => true,
            _ => false,
        };
        if unselected {
            match first_listed_airpods(&self.devices) {
                Some(mac) => {
                    self.selection = Selection::Device(mac);
                },
                None => {},
            }
        }
    }

    fn start_connect(&mut self, mac: String) -> (effect: Option<Effect>)
        requires
            old(self).parts_wf(),
            old(self)@.connects.last_attempt < u64::MAX,
        ensures
            final(self).parts_wf(),
            final(self)@ == old(self)@.with_request(mac@),
            match effect {
                Some(e) => old(self)@.connectable(mac@) && old(self)@.request_effects(mac@) == seq![
                    e@,
                ],
                None => !old(self)@.connectable(mac@),
            },
    {
        if self.connects.in_progress(mac.as_str()) {
            return None;
        }
        match crate::bluetooth::address::parse_address(mac.as_str()) {
            None => None,
            Some(address) => {
                let attempt: u64 = self.connects.start(mac.clone());
                Some(Effect::Connect { mac, address, attempt })
            },
        }
    }

    fn connect_finished(&mut self, mac: String, attempt: u64, result: Result<(), String>) -> (
        effects: Vec<Effect>)
        requires
            old(self).parts_wf(),
        ensures
            final(self).parts_wf(),
            final(self)@ == old(self)@.after((Input::ConnectFinished { mac, attempt, result })),
            effects_view(effects@) == old(self)@.effects_after(
                (Input::ConnectFinished { mac, attempt, result }),
            ),
    {
        if self.connects.finished(mac.as_str(), attempt, result) {
            return one_effect(Effect::SetupTimeout { mac, attempt });
        }
        self.connect_failure_toast(mac.as_str())
    }

    fn connect_failure_toast(&self, mac: &str) -> (effects: Vec<Effect>)
        requires
            self.parts_wf(),
        ensures
            effects_view(effects@) == self@.failure_toast(mac@),
    {
        match self.connects.get(mac) {
            Some(ConnectStatus::Failed(_)) => one_effect(
                Effect::Toast(joined("Could not connect ", self.device_name(mac))),
            ),
            _ => no_effects(),
        }
    }

    /// Update the AirPods state at once so the UI does not jump back while the
    /// command is on its way, and send the command.
    fn change_airpods(&mut self, mac: String, change: PageChange) -> (effects: Vec<Effect>)
        requires
            old(self).parts_wf(),
        ensures
            final(self).parts_wf(),
            final(self)@ == old(self)@.with_page_change(mac@, change),
            effects_view(effects@) == old(self)@.page_change_effects(mac@, change),
    {
        match self.airpods.remove(mac.as_str()) {
            None => {
                proof {
                    assert(self@.airpods =~= old(self)@.airpods);
                }
                no_effects()
            },
            Some(airpods) => {
                let mut airpods = airpods;
                let (identifier, value) = match change {
                    PageChange::ListeningMode(mode) => {
                        airpods.listening_mode = mode;
                        (ControlCommandIdentifiers::ListeningMode, vec![mode.to_byte()])
                    },
                    PageChange::PersonalizedVolume(on) => {
                        airpods.personalized_volume = on;
                        (ControlCommandIdentifiers::AdaptiveVolumeConfig, on_off(on))
                    },
                    PageChange::AllowOff(on) => {
                        airpods.allow_off = on;
                        (ControlCommandIdentifiers::AllowOffOption, on_off(on))
                    },
                };
                proof {
                    assert(value@ =~= change.value());
                }
                airpods.control_values.insert(identifier.to_byte(), copied(value.as_slice()));
                proof {
                    assert(airpods@ =~= change.applied(old(self)@.airpods[mac@]));
                }
                self.airpods.insert(mac.clone(), airpods);
                proof {
                    assert(self@.airpods =~= old(self)@.airpods.insert(mac@, airpods@));
                }
                one_effect(Effect::SendControl { mac, identifier, value })
            },
        }
    }

    fn set_awareness(&mut self, mac: String, enabled: bool) -> (effects: Vec<Effect>)
        requires
            old(self).parts_wf(),
        ensures
            final(self).parts_wf(),
            final(self)@ == old(self)@.after(Input::SetConversationAwareness(mac, enabled)),
            effects_view(effects@) == old(self)@.effects_after(
                Input::SetConversationAwareness(mac, enabled),
            ),
    {
        if self.conversation_awareness_locked(mac.as_str()) {
            return no_effects();
        }
        match self.airpods.remove(mac.as_str()) {
            None => {
                proof {
                    assert(self@.airpods =~= old(self)@.airpods);
                }
                no_effects()
            },
            Some(airpods) => {
                let mut airpods = airpods;
                airpods.conversation_awareness = enabled;
                self.airpods.insert(mac.clone(), airpods);
                proof {
                    assert(self@.airpods =~= old(self)@.airpods.insert(mac@, airpods@));
                }
                one_effect(Effect::SetConversationDetection { mac, enabled })
            },
        }
    }

    fn change_control(&mut self, mac: String, change: ControlChange) -> (effects: Vec<Effect>)
        requires
            old(self).parts_wf(),
        ensures
            final(self).parts_wf(),
            final(self)@ == old(self)@.with_control_change(mac@, change),
            effects_view(effects@) == old(self)@.effects_after(
                Input::AirPodsControl(mac, change),
            ),
    {
        match self.airpods.remove(mac.as_str()) {
            None => {
                proof {
                    assert(self@.airpods =~= old(self)@.airpods);
                }
                no_effects()
            },
            Some(airpods) => {
                let mut airpods = airpods;
                let effects = crate::ui::gtk::controls::apply(
                    mac.clone(),
                    &mut airpods,
                    &mut self.settling,
                    change,
                );
                self.airpods.insert(mac, airpods);
                proof {
                    assert(self@.airpods =~= old(self)@.airpods.insert(mac@, airpods@));
                }
                effects
            },
        }
    }

    fn name_edited(&mut self, mac: String, text: &str)
        requires
            old(self).parts_wf(),
        ensures
            final(self).parts_wf(),
            final(self)@ == old(self)@.with_name_draft(mac@, text@),
    {
        let unchanged = match self.airpods.get(mac.as_str()) {
            Some(airpods) => same_text(airpods.name.as_str(), text),
            None => false,
        };
        if unchanged {
            self.name_hint = None;
        } else {
            let hint = match validate_device_name(text) {
                Ok(_) => NameHint::PressEnter,
                Err(e) => NameHint::Invalid(e),
            };
            self.name_hint = Some((mac, hint));
        }
    }

    /// Rename the AirPods. An invalid name is not sent and its hint stays.
    fn rename(&mut self, mac: String, text: &str) -> (effects: Vec<Effect>)
        requires
            old(self).parts_wf(),
        ensures
            final(self).parts_wf(),
            final(self)@ == old(self)@.with_rename(mac@, text@),
            effects_view(effects@) == old(self)@.rename_effects(mac@, text@),
    {
        if !self.airpods.contains_key(mac.as_str()) {
            return no_effects();
        }
        let name = match validate_device_name(text) {
            Ok(name) => name.to_string(),
            Err(e) => {
                self.name_hint = Some((mac, NameHint::Invalid(e)));
                return no_effects();
            },
        };
        self.name_hint = None;
        match self.airpods.remove(mac.as_str()) {
            None => no_effects(),
            Some(airpods) => {
                let mut airpods = airpods;
                let same = same_text(airpods.name.as_str(), name.as_str());
                airpods.name = name.clone();
                self.airpods.insert(mac.clone(), airpods);
                proof {
                    assert(self@.airpods =~= old(self)@.airpods.insert(mac@, airpods@));
                }
                if same {
                    no_effects()
                } else {
                    one_effect(Effect::Rename { mac, name })
                }
            },
        }
    }

    fn change_setting(&mut self, change: SettingChange) -> (effects: Vec<Effect>)
        requires
            old(self).parts_wf(),
        ensures
            final(self).parts_wf(),
            final(self)@ == old(self)@.after(Input::Setting(change)),
            effects_view(effects@) == setting_effects(change),
    {
        self.settings = self.settings.changed(change);
        match change {
            SettingChange::Theme(theme) => two_effects(
                Effect::ApplyTheme(theme),
                Effect::SaveSettings,
            ),
            _ => one_effect(Effect::SaveSettings),
        }
    }

    fn device_name<'a>(&'a self, mac: &'a str) -> (name: &'a str)
        requires
            self.parts_wf(),
        ensures
            name@ == self@.saved_name(mac@),
    {
        match self.devices.get(mac) {
            Some(device) => device.name.as_str(),
            None => mac,
        }
    }

    // Read access for the view.

    /// The sidebar entry that is selected.
    pub fn selection(&self) -> (selection: &Selection)
        ensures
            selection@ == self@.selection,
    {
        &self.selection
    }

    /// The settings.
    pub fn settings(&self) -> (settings: &WindowSettings)
        ensures
            *settings == self@.settings,
    {
        &self.settings
    }

    /// The chosen color scheme.
    pub fn theme(&self) -> (theme: ThemePreference)
        ensures
            theme == self@.settings.theme,
    {
        self.settings.theme
    }

    /// The state of connected AirPods.
    pub fn airpods(&self, mac: &str) -> (airpods: Option<&AirPods>)
        requires
            self.parts_wf(),
        ensures
            match airpods {
                Some(a) => self@.airpods.contains_key(mac@) && a@ == self@.airpods[mac@],
                None => !self@.airpods.contains_key(mac@),
            },
    {
        self.airpods.get(mac)
    }

    /// The state of a connected Nothing device.
    pub fn nothing(&self, mac: &str) -> (nothing: Option<&Nothing>)
        requires
            self.parts_wf(),
        ensures
            match nothing {
                Some(n) => self@.nothing.contains_key(mac@) && n@ == self@.nothing[mac@],
                None => !self@.nothing.contains_key(mac@),
            },
    {
        self.nothing.get(mac)
    }

    /// The hint for the name field of a device.
    pub fn name_hint(&self, mac: &str) -> (hint: Option<NameHint>)
        ensures
            self@.hint_for(mac@) == (match hint {
                Some(h) => Some(h@),
                None => None,
            }),
    {
        match &self.name_hint {
            Some((of, hint)) => if same_text(of.as_str(), mac) {
                Some(*hint)
            } else {
                None
            },
            None => None,
        }
    }

    /// The name shown in headers: the live name for connected AirPods, else
    /// the saved one.
    pub fn title<'a>(&'a self, mac: &'a str) -> (title: &'a str)
        requires
            self.parts_wf(),
        ensures
            title@ == self@.shown_title(mac@),
    {
        match self.airpods.get(mac) {
            Some(airpods) => airpods.name.as_str(),
            None => self.device_name(mac),
        }
    }

    /// The saved information of AirPods.
    pub fn information(&self, mac: &str) -> (info: Option<&AirPodsInformation>)
        requires
            self.parts_wf(),
        ensures
            match info {
                Some(i) => self@.airpods_information(mac@) == Some(i@),
                None => self@.airpods_information(mac@) is None,
            },
    {
        match self.devices.get(mac) {
            Some(device) => device.airpods_information(),
            None => None,
        }
    }

    /// The batteries of connected AirPods.
    pub fn batteries(&self, mac: &str) -> (shown: Option<Batteries>)
        requires
            self.parts_wf(),
        ensures
            shown == self@.shown_batteries(mac@),
    {
        match self.airpods.get(mac) {
            None => None,
            Some(airpods) => {
                let last: Option<u8> = match self.last_case_level.get(mac) {
                    Some(level) => Some(*level),
                    None => None,
                };
                Some(batteries(airpods.battery.as_slice(), last))
            },
        }
    }

    /// The sidebar: one line per device, in order.
    pub fn sidebar(&self) -> (entries: Vec<SidebarEntry>)
        requires
            self.parts_wf(),
        ensures
            entries@.map_values(|e: SidebarEntry| e@) == self@.sidebar_shown(),
    {
        let macs = sorted_macs(&self.devices);
        let ghost all = crate::ui::gtk::model::listing::listing(self@.devices);
        let mut entries: Vec<SidebarEntry> = Vec::new();
        let mut i: usize = 0;
        while i < macs.len()
            invariant
                i <= macs@.len(),
                self.parts_wf(),
                all == crate::text::texts(macs@),
                crate::ui::gtk::model::listing::is_listing(self@.devices, all),
                entries@.len() == i,
                forall|j: int|
                    0 <= j < i ==> (#[trigger] entries@[j])@ == self@.sidebar_entry(all[j]),
            decreases macs@.len() - i,
        {
            proof {
                assert(all[i as int] == macs@[i as int]@);
                assert(all.contains(all[i as int]));
            }
            let mac = macs[i].as_str();
            let connected = self.connected.contains_key(mac);
            let status = match self.batteries(mac) {
                Some(shown) => SidebarStatus::Batteries(shown),
                None => if connected {
                    SidebarStatus::Text("Connected")
                } else {
                    SidebarStatus::Text(sidebar_status(self.connects.get(mac)))
                },
            };
            let entry = SidebarEntry {
                mac: macs[i].clone(),
                name: self.device_name(mac).to_string(),
                connected,
                status,
            };
            proof {
                assert(entry@ =~= self@.sidebar_entry(all[i as int]));
            }
            entries.push(entry);
            i = i + 1;
        }
        proof {
            assert(entries@.map_values(|e: SidebarEntry| e@) =~= self@.sidebar_shown());
        }
        entries
    }

    /// What the content pane shows.
    pub fn content(&self) -> (content: Content)
        requires
            self.parts_wf(),
        ensures
            content@ == self@.shown_content(),
    {
        let mac = match &self.selection {
            Selection::Empty => {
                return Content::Empty;
            },
            Selection::Settings => {
                return Content::Settings;
            },
            Selection::Device(mac) => mac.clone(),
        };
        if self.airpods.contains_key(mac.as_str()) {
            Content::AirPods(mac)
        } else if self.nothing.contains_key(mac.as_str()) {
            Content::Nothing(mac)
        } else if self.connected.contains_key(mac.as_str()) {
            Content::Waiting(mac)
        } else {
            match self.devices.get(mac.as_str()) {
                Some(device) => match device.type_ {
                    DeviceType::AirPods => Content::Disconnected(mac),
                    DeviceType::Nothing => Content::Unavailable(mac),
                },
                // Forgotten from devices.json while selected.
                None => Content::Empty,
            }
        }
    }

    /// What the disconnected page of a device shows.
    pub fn disconnected(&self, mac: &str) -> (shown: DisconnectedView)
        requires
            self.parts_wf(),
        ensures
            shown.status@ == self@.disconnected_status(mac@),
            shown.connecting == self@.connects.running(mac@),
    {
        match self.connects.get(mac) {
            Some(ConnectStatus::Connecting(_)) | Some(ConnectStatus::SettingUp(_)) => {
                DisconnectedView { status: "Connecting…".to_string(), connecting: true }
            },
            Some(ConnectStatus::Failed(e)) => DisconnectedView {
                status: e.clone(),
                connecting: false,
            },
            None => DisconnectedView {
                status: NOT_CONNECTED_HINT.to_string(),
                connecting: false,
            },
        }
    }
}

fn on_off(enabled: bool) -> (value: Vec<u8>)
    ensures
        value@ == seq![crate::bluetooth::settings::switch_byte(enabled)],
{
    let byte: u8 = if enabled {
        0x01
    } else {
        0x02
    };
    let value: Vec<u8> = vec![byte];
    proof {
        assert(value@ =~= seq![crate::bluetooth::settings::switch_byte(enabled)]);
    }
    value
}

} // verus!
