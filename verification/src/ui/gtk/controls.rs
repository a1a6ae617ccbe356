//! The AirPods settings driven by AACP control commands (press and hold,
//! calls, microphone, accessibility, Adaptive Audio, sleep detection): what
//! the page shows and what a change sends, with no GTK in it.
//!
//! A setting shows only once the AirPods reported a value for it, which keeps
//! controls for features a model lacks off the page. A change is stored in
//! `AirPods::control_values` at once, so the page shows it before the AirPods
//! confirm. Slider changes are held until the slider rests for the settle
//! delay, so a drag sends one command instead of one per step.

use crate::address_map::AddressMap;
use crate::bluetooth::aacp::ControlCommandIdentifiers;
use crate::bluetooth::settings::{
    AdaptiveStrength, CallControls, ChimeVolume, ClickHoldAction, ClickHoldMode, ControlValue,
    CycleMode, ListeningModeCycle, MicMode, PressInterval, SwipeInterval, Toggle, PERCENT_MAX,
};
use crate::bytes::copied;
use crate::time::{Duration, NANOS_PER_MILLI};
use crate::ui::gtk::model::{
    no_effects, one_effect, AirPods, AirPodsView, Effect, EffectView,
};
use std::collections::HashMap;
use vstd::prelude::*;

verus! {

/// How long a slider must rest before its value is sent, in milliseconds.
pub const SETTLE_DELAY_MILLIS: u64 = 300;

/// Slider positions snap to this step.
pub const SLIDER_STEP: u8 = 5;

/// Tone volume shown when the AirPods report a value that does not decode;
/// the Android app uses the same fallback.
pub const DEFAULT_TONE_VOLUME: u8 = 75;

/// Adaptive Audio strength shown when the reported value does not decode.
pub const DEFAULT_ADAPTIVE_STRENGTH: u8 = 50;

/// How long a slider must rest before its value is sent.
pub fn settle_delay() -> (d: Duration)
    ensures
        d@ == SETTLE_DELAY_MILLIS * NANOS_PER_MILLI,
{
    Duration::from_millis(SETTLE_DELAY_MILLIS)
}

/// The long press action of both buds out of the box. A change to one bud
/// keeps this for the other when the current value does not decode.
pub open spec fn default_click_hold() -> ClickHoldMode {
    ClickHoldMode { right: ClickHoldAction::NoiseControl, left: ClickHoldAction::NoiseControl }
}

/// One of two earbuds.
#[derive(Debug, Clone, Copy, PartialEq, Eq, Structural)]
pub enum Bud {
    Left,
    Right,
}

/// A change made in the settings sections of the AirPods page.
#[derive(Debug, Clone, Copy, PartialEq, Eq, Structural)]
pub enum ControlChange {
    LongPress(Bud, ClickHoldAction),
    /// Add (true) or remove (false) a mode of the press and hold cycle.
    CycleMode(CycleMode, bool),
    /// Which press mutes during a call; the other one hangs up.
    MuteControl(CallControls),
    MicMode(MicMode),
    PressSpeed(PressInterval),
    HoldDuration(PressInterval),
    OneBudAnc(bool),
    /// Tone volume slider position, 0 to 100.
    ToneVolume(u8),
    VolumeSwipe(bool),
    SwipeSpeed(SwipeInterval),
    /// Adaptive Audio slider position, from 0 (less noise) to 100 (more
    /// noise), the inverse of the strength the AirPods store.
    AdaptiveNoise(u8),
    SleepDetection(bool),
}

impl AirPodsView {
    /// Whether the AirPods reported a value for a setting.
    pub open spec fn has(self, id: ControlCommandIdentifiers) -> bool {
        self.control_values.contains_key(id.number())
    }

    /// The decoded value of a setting.
    pub open spec fn decoded<T: ControlValue>(self, id: ControlCommandIdentifiers) -> Option<T> {
        if self.has(id) {
            T::decoded(self.control_values[id.number()])
        } else {
            None
        }
    }

    /// A reported on/off setting; an undecodable value shows as off.
    pub open spec fn switched(self, id: ControlCommandIdentifiers) -> Option<bool> {
        if self.has(id) {
            Some(self.decoded::<Toggle>(id) == Some(Toggle(true)))
        } else {
            None
        }
    }

    /// The press that hangs up a call, empty where the reported value does
    /// not decode.
    pub open spec fn hang_up(self) -> Option<Seq<char>> {
        let id = ControlCommandIdentifiers::CallManagementConfig;
        if self.has(id) {
            match self.decoded::<CallControls>(id) {
                Some(controls) => Some(controls.hang_up_text()),
                None => Some(""@),
            }
        } else {
            None
        }
    }

    /// The state with another value of a setting.
    pub open spec fn with_control(
        self,
        id: ControlCommandIdentifiers,
        value: Seq<u8>,
    ) -> AirPodsView {
        AirPodsView { control_values: self.control_values.insert(id.number(), value), ..self }
    }
}

/// The long press actions after a change to one bud.
pub open spec fn long_press(
    mode: Option<ClickHoldMode>,
    bud: Bud,
    action: ClickHoldAction,
) -> ClickHoldMode {
    let mode = match mode {
        Some(m) => m,
        None => default_click_hold(),
    };
    match bud {
        Bud::Left => ClickHoldMode { left: action, ..mode },
        Bud::Right => ClickHoldMode { right: action, ..mode },
    }
}

/// The strength of a position on the Adaptive Audio slider.
pub open spec fn strength_at(position: u8) -> AdaptiveStrength {
    AdaptiveStrength {
        level: if position > PERCENT_MAX {
            0
        } else {
            (PERCENT_MAX - position) as u8
        },
    }
}

/// The bytes of a change to the cycle, or None when it is not allowed: the
/// cycle does not decode or has the mode as asked already, Off is not
/// allowed, or fewer than two modes would be left.
pub open spec fn cycle_change(airpods: AirPodsView, mode: CycleMode, on: bool) -> Option<Seq<u8>> {
    match airpods.decoded::<ListeningModeCycle>(ControlCommandIdentifiers::ListeningModeConfigs) {
        None => None,
        Some(cycle) => if cycle.includes(mode) == on || (mode == CycleMode::Off && on
            && !airpods.allow_off) {
            None
        } else {
            match cycle.flipped(mode) {
                Some(next) => Some(next.bytes()),
                None => None,
            }
        },
    }
}

impl ControlChange {
    /// The setting a change is for.
    pub open spec fn identifier(self) -> ControlCommandIdentifiers {
        match self {
            ControlChange::LongPress(_, _) => ControlCommandIdentifiers::ClickHoldMode,
            ControlChange::CycleMode(_, _) => ControlCommandIdentifiers::ListeningModeConfigs,
            ControlChange::MuteControl(_) => ControlCommandIdentifiers::CallManagementConfig,
            ControlChange::MicMode(_) => ControlCommandIdentifiers::MicMode,
            ControlChange::PressSpeed(_) => ControlCommandIdentifiers::DoubleClickInterval,
            ControlChange::HoldDuration(_) => ControlCommandIdentifiers::ClickHoldInterval,
            ControlChange::OneBudAnc(_) => ControlCommandIdentifiers::OneBudAncMode,
            ControlChange::ToneVolume(_) => ControlCommandIdentifiers::ChimeVolume,
            ControlChange::VolumeSwipe(_) => ControlCommandIdentifiers::VolumeSwipeMode,
            ControlChange::SwipeSpeed(_) => ControlCommandIdentifiers::VolumeSwipeInterval,
            ControlChange::AdaptiveNoise(_) => ControlCommandIdentifiers::AutoAncStrength,
            ControlChange::SleepDetection(_) => ControlCommandIdentifiers::SleepDetectionConfig,
        }
    }

    /// The bytes to send for a change, or None when it is not allowed.
    pub open spec fn value(self, airpods: AirPodsView) -> Option<Seq<u8>> {
        match self {
            ControlChange::LongPress(bud, action) => Some(
                long_press(
                    airpods.decoded::<ClickHoldMode>(ControlCommandIdentifiers::ClickHoldMode),
                    bud,
                    action,
                ).bytes(),
            ),
            ControlChange::CycleMode(mode, on) => cycle_change(airpods, mode, on),
            ControlChange::MuteControl(controls) => Some(controls.bytes()),
            ControlChange::MicMode(mode) => Some(mode.bytes()),
            ControlChange::PressSpeed(interval) => Some(interval.bytes()),
            ControlChange::HoldDuration(interval) => Some(interval.bytes()),
            ControlChange::OneBudAnc(on) => Some(Toggle(on).bytes()),
            ControlChange::ToneVolume(position) => Some(
                (ChimeVolume {
                    volume: crate::bluetooth::settings::capped_percent(position),
                }).bytes(),
            ),
            ControlChange::VolumeSwipe(on) => Some(Toggle(on).bytes()),
            ControlChange::SwipeSpeed(interval) => Some(interval.bytes()),
            ControlChange::AdaptiveNoise(position) => Some(strength_at(position).bytes()),
            ControlChange::SleepDetection(on) => Some(Toggle(on).bytes()),
        }
    }

    /// Slider changes wait for the slider to rest before they are sent.
    pub open spec fn waits(self) -> bool {
        self is ToneVolume || self is AdaptiveNoise
    }

    /// The command and value to send, or None when the change is not
    /// allowed.
    pub fn command(self, airpods: &AirPods) -> (command: Option<
        (ControlCommandIdentifiers, Vec<u8>),
    >)
        ensures
            match command {
                Some((id, value)) => id == self.identifier() && self.value(airpods@) == Some(
                    value@,
                ),
                None => self.value(airpods@) is None,
            },
    {
        let value = match self {
            ControlChange::LongPress(bud, action) => {
                let mut mode = match airpods.control::<ClickHoldMode>(
                    ControlCommandIdentifiers::ClickHoldMode,
                ) {
                    Some(mode) => mode,
                    None => ClickHoldMode {
                        right: ClickHoldAction::NoiseControl,
                        left: ClickHoldAction::NoiseControl,
                    },
                };
                match bud {
                    Bud::Left => {
                        mode.left = action;
                    },
                    Bud::Right => {
                        mode.right = action;
                    },
                }
                mode.to_value()
            },
            ControlChange::CycleMode(mode, on) => {
                match airpods.control::<ListeningModeCycle>(
                    ControlCommandIdentifiers::ListeningModeConfigs,
                ) {
                    None => {
                        return None;
                    },
                    Some(cycle) => {
                        if cycle.contains(mode) == on || (mode == CycleMode::Off && on
                            && !airpods.allow_off) {
                            return None;
                        }
                        match cycle.toggled(mode) {
                            Some(next) => next.to_value(),
                            None => {
                                return None;
                            },
                        }
                    },
                }
            },
            ControlChange::MuteControl(controls) => controls.to_value(),
            ControlChange::MicMode(mode) => mode.to_value(),
            ControlChange::PressSpeed(interval) => interval.to_value(),
            ControlChange::HoldDuration(interval) => interval.to_value(),
            ControlChange::OneBudAnc(on) => Toggle(on).to_value(),
            ControlChange::ToneVolume(position) => ChimeVolume::new(position).to_value(),
            ControlChange::VolumeSwipe(on) => Toggle(on).to_value(),
            ControlChange::SwipeSpeed(interval) => interval.to_value(),
            ControlChange::AdaptiveNoise(position) => {
                let strength: u8 = if position > PERCENT_MAX {
                    0
                } else {
                    PERCENT_MAX - position
                };
                AdaptiveStrength::new(strength).to_value()
            },
            ControlChange::SleepDetection(on) => Toggle(on).to_value(),
        };
        let id = match self {
            ControlChange::LongPress(_, _) => ControlCommandIdentifiers::ClickHoldMode,
            ControlChange::CycleMode(_, _) => ControlCommandIdentifiers::ListeningModeConfigs,
            ControlChange::MuteControl(_) => ControlCommandIdentifiers::CallManagementConfig,
            ControlChange::MicMode(_) => ControlCommandIdentifiers::MicMode,
            ControlChange::PressSpeed(_) => ControlCommandIdentifiers::DoubleClickInterval,
            ControlChange::HoldDuration(_) => ControlCommandIdentifiers::ClickHoldInterval,
            ControlChange::OneBudAnc(_) => ControlCommandIdentifiers::OneBudAncMode,
            ControlChange::ToneVolume(_) => ControlCommandIdentifiers::ChimeVolume,
            ControlChange::VolumeSwipe(_) => ControlCommandIdentifiers::VolumeSwipeMode,
            ControlChange::SwipeSpeed(_) => ControlCommandIdentifiers::VolumeSwipeInterval,
            ControlChange::AdaptiveNoise(_) => ControlCommandIdentifiers::AutoAncStrength,
            ControlChange::SleepDetection(_) => ControlCommandIdentifiers::SleepDetectionConfig,
        };
        Some((id, value))
    }

    /// Slider changes wait for the slider to rest before they are sent.
    pub fn settles(self) -> (yes: bool)
        ensures
            yes == self.waits(),
    {
        match self {
            ControlChange::ToneVolume(_) | ControlChange::AdaptiveNoise(_) => true,
            _ => false,
        }
    }
}

/// The held values of one device, by command number.
#[derive(Debug)]
pub struct Holds {
    values: HashMap<u8, (u64, Vec<u8>)>,
}

impl View for Holds {
    type V = Map<u8, (u64, Seq<u8>)>;

    closed spec fn view(&self) -> Map<u8, (u64, Seq<u8>)> {
        self.values@.map_values(|held: (u64, Vec<u8>)| (held.0, held.1@))
    }
}

impl Holds {
    fn new() -> (holds: Holds)
        ensures
            holds@ == Map::<u8, (u64, Seq<u8>)>::empty(),
    {
        broadcast use vstd::std_specs::hash::group_hash_axioms;

        let holds = Holds { values: HashMap::new() };
        proof {
            assert(holds@ =~= Map::<u8, (u64, Seq<u8>)>::empty());
        }
        holds
    }

    fn insert(&mut self, number: u8, generation: u64, value: Vec<u8>)
        ensures
            final(self)@ == old(self)@.insert(number, (generation, value@)),
    {
        broadcast use vstd::std_specs::hash::group_hash_axioms;

        let _ = self.values.insert(number, (generation, value));
        proof {
            assert(self@ =~= old(self)@.insert(number, (generation, value@)));
        }
    }

    fn newest(&self, number: u8) -> (generation: Option<u64>)
        ensures
            generation == (if self@.contains_key(number) {
                Some(self@[number].0)
            } else {
                None
            }),
    {
        broadcast use vstd::std_specs::hash::group_hash_axioms;

        match self.values.get(&number) {
            Some(held) => Some(held.0),
            None => None,
        }
    }

    fn remove(&mut self, number: u8) -> (value: Option<Vec<u8>>)
        ensures
            final(self)@ == old(self)@.remove(number),
            match value {
                Some(v) => old(self)@.contains_key(number) && v@ == old(self)@[number].1,
                None => !old(self)@.contains_key(number),
            },
    {
        broadcast use vstd::std_specs::hash::group_hash_axioms;

        let held = self.values.remove(&number);
        proof {
            assert(self@ =~= old(self)@.remove(number));
        }
        match held {
            Some((_, value)) => Some(value),
            None => None,
        }
    }
}

/// Slider values waiting for their slider to rest, per device and command.
/// Each hold gets a new generation; only the newest one is sent.
#[derive(Debug)]
pub struct Settling {
    next: u64,
    pending: AddressMap<Holds>,
}

/// The mathematical content of `Settling`: the newest generation, and the
/// generation and value held per device and command number.
#[verifier::ext_equal]
pub struct SettlingView {
    pub next: u64,
    pub pending: Map<(Seq<char>, u8), (u64, Seq<u8>)>,
}

impl View for Settling {
    type V = SettlingView;

    closed spec fn view(&self) -> SettlingView {
        let pending = self.pending@;
        SettlingView {
            next: self.next,
            pending: Map::new(
                |key: (Seq<char>, u8)|
                    pending.contains_key(key.0) && pending[key.0].contains_key(key.1),
                |key: (Seq<char>, u8)| pending[key.0][key.1],
            ),
        }
    }
}

/// The generation after another, starting over at 0 after the last one.
pub open spec fn next_generation(generation: u64) -> u64 {
    if generation == u64::MAX {
        0
    } else {
        (generation + 1) as u64
    }
}

impl SettlingView {
    /// Nothing held.
    pub open spec fn none() -> SettlingView {
        SettlingView { next: 0, pending: Map::empty() }
    }

    /// The holds with a new one.
    pub open spec fn held(
        self,
        mac: Seq<char>,
        id: ControlCommandIdentifiers,
        value: Seq<u8>,
    ) -> SettlingView {
        let generation = next_generation(self.next);
        SettlingView {
            next: generation,
            pending: self.pending.insert((mac, id.number()), (generation, value)),
        }
    }

    /// Whether this is the newest hold of a setting.
    pub open spec fn is_newest(
        self,
        mac: Seq<char>,
        id: ControlCommandIdentifiers,
        generation: u64,
    ) -> bool {
        self.pending.contains_key((mac, id.number())) && self.pending[(mac, id.number())].0
            == generation
    }

    /// The holds after the delay of one ran out.
    pub open spec fn released(
        self,
        mac: Seq<char>,
        id: ControlCommandIdentifiers,
        generation: u64,
    ) -> SettlingView {
        if self.is_newest(mac, id, generation) {
            SettlingView { pending: self.pending.remove((mac, id.number())), ..self }
        } else {
            self
        }
    }

    /// The value to send when the delay of a hold runs out.
    pub open spec fn due(
        self,
        mac: Seq<char>,
        id: ControlCommandIdentifiers,
        generation: u64,
    ) -> Option<Seq<u8>> {
        if self.is_newest(mac, id, generation) {
            Some(self.pending[(mac, id.number())].1)
        } else {
            None
        }
    }
}

impl Default for Settling {
    fn default() -> (settling: Settling)
        ensures
            settling.wf(),
            settling@ == SettlingView::none(),
    {
        Settling { next: 0, pending: AddressMap::new() }
    }
}

impl Settling {
    /// What every list of holds satisfies.
    pub closed spec fn wf(&self) -> bool {
        self.pending.wf()
    }

    /// Holds a value and returns its generation.
    pub fn hold(&mut self, mac: &str, id: ControlCommandIdentifiers, value: Vec<u8>) -> (
        generation: u64)
        requires
            old(self).wf(),
        ensures
            final(self).wf(),
            final(self)@ == old(self)@.held(mac@, id, value@),
            generation == next_generation(old(self)@.next),
    {
        self.next =
        if self.next == u64::MAX {
            0
        } else {
            self.next + 1
        };
        let mut holds = match self.pending.remove(mac) {
            Some(holds) => holds,
            None => Holds::new(),
        };
        holds.insert(id.to_byte(), self.next, value);
        self.pending.insert(mac.to_string(), holds);
        proof {
            assert(self@.pending =~= old(self)@.held(mac@, id, value@).pending);
        }
        self.next
    }

    /// The value to send when `generation` is still the newest hold.
    pub fn release(&mut self, mac: &str, id: ControlCommandIdentifiers, generation: u64) -> (
        value: Option<Vec<u8>>)
        requires
            old(self).wf(),
        ensures
            final(self).wf(),
            final(self)@ == old(self)@.released(mac@, id, generation),
            match value {
                Some(v) => old(self)@.due(mac@, id, generation) == Some(v@),
                None => old(self)@.due(mac@, id, generation) is None,
            },
    {
        let newest = match self.pending.get(mac) {
            Some(holds) => holds.newest(id.to_byte()),
            None => None,
        };
        match newest {
            Some(n) => if n != generation {
                return None;
            },
            None => {
                return None;
            },
        }
        match self.pending.remove(mac) {
            Some(holds) => {
                let mut holds = holds;
                let value = holds.remove(id.to_byte());
                self.pending.insert(mac.to_string(), holds);
                proof {
                    assert(self@.pending =~= old(self)@.released(mac@, id, generation).pending);
                }
                value
            },
            None => None,
        }
    }
}

/// The AirPods after a change.
pub open spec fn changed_airpods(airpods: AirPodsView, change: ControlChange) -> AirPodsView {
    match change.value(airpods) {
        Some(value) => airpods.with_control(change.identifier(), value),
        None => airpods,
    }
}

/// The holds after a change.
pub open spec fn changed_holds(
    settling: SettlingView,
    mac: Seq<char>,
    airpods: AirPodsView,
    change: ControlChange,
) -> SettlingView {
    match change.value(airpods) {
        Some(value) => if change.waits() {
            settling.held(mac, change.identifier(), value)
        } else {
            settling
        },
        None => settling,
    }
}

/// What to do after a change.
pub open spec fn change_effects(
    settling: SettlingView,
    mac: Seq<char>,
    airpods: AirPodsView,
    change: ControlChange,
) -> Seq<EffectView> {
    match change.value(airpods) {
        Some(value) => if change.waits() {
            seq![
                EffectView::SettleControl {
                    mac,
                    identifier: change.identifier(),
                    generation: next_generation(settling.next),
                },
            ]
        } else {
            seq![EffectView::SendControl { mac, identifier: change.identifier(), value }]
        },
        None => crate::ui::gtk::model::nothing_to_do(),
    }
}

/// Apply `change` to the AirPods at `mac` and return what to send.
pub fn apply(
    mac: String,
    airpods: &mut AirPods,
    settling: &mut Settling,
    change: ControlChange,
) -> (effects: Vec<Effect>)
    requires
        old(settling).wf(),
    ensures
        final(settling).wf(),
        final(airpods)@ == changed_airpods(old(airpods)@, change),
        final(settling)@ == changed_holds(old(settling)@, mac@, old(airpods)@, change),
        crate::ui::gtk::model::effects_view(effects@) == change_effects(
            old(settling)@,
            mac@,
            old(airpods)@,
            change,
        ),
{
    match change.command(airpods) {
        None => no_effects(),
        Some((identifier, value)) => {
            airpods.control_values.insert(identifier.to_byte(), copied(value.as_slice()));
            if change.settles() {
                let generation: u64 = settling.hold(mac.as_str(), identifier, value);
                one_effect(Effect::SettleControl { mac, identifier, generation })
            } else {
                one_effect(Effect::SendControl { mac, identifier, value })
            }
        },
    }
}

/// What to do when the settle delay of a slider change ran out.
pub open spec fn settled_effects(
    settling: SettlingView,
    mac: Seq<char>,
    connected: bool,
    identifier: ControlCommandIdentifiers,
    generation: u64,
) -> Seq<EffectView> {
    match settling.due(mac, identifier, generation) {
        Some(value) => if connected {
            seq![EffectView::SendControl { mac, identifier, value }]
        } else {
            crate::ui::gtk::model::nothing_to_do()
        },
        None => crate::ui::gtk::model::nothing_to_do(),
    }
}

/// The settle delay of a slider change ran out: send its value unless a
/// newer change replaced it or the AirPods went away.
pub fn settled(
    mac: String,
    connected: bool,
    settling: &mut Settling,
    identifier: ControlCommandIdentifiers,
    generation: u64,
) -> (effects: Vec<Effect>)
    requires
        old(settling).wf(),
    ensures
        final(settling).wf(),
        final(settling)@ == old(settling)@.released(mac@, identifier, generation),
        crate::ui::gtk::model::effects_view(effects@) == settled_effects(
            old(settling)@,
            mac@,
            connected,
            identifier,
            generation,
        ),
{
    match settling.release(mac.as_str(), identifier, generation) {
        Some(value) => if connected {
            one_effect(Effect::SendControl { mac, identifier, value })
        } else {
            no_effects()
        },
        None => no_effects(),
    }
}

impl AirPods {
    /// The AirPods reported a value for this setting, so it is shown.
    pub fn reported(&self, id: ControlCommandIdentifiers) -> (yes: bool)
        ensures
            yes == self@.has(id),
    {
        self.control_values.contains_key(id.to_byte())
    }

    /// The decoded value of a setting; None when it was not reported or does
    /// not decode.
    pub fn control<T: ControlValue>(&self, id: ControlCommandIdentifiers) -> (value: Option<T>)
        ensures
            value == self@.decoded::<T>(id),
    {
        match self.control_values.get(id.to_byte()) {
            Some(value) => T::from_value(value.as_slice()),
            None => None,
        }
    }

    /// A reported on/off setting; an undecodable value shows as off.
    pub fn toggle(&self, id: ControlCommandIdentifiers) -> (on: Option<bool>)
        ensures
            on == (if self@.has(id) {
                Some(self@.decoded::<Toggle>(id) == Some(Toggle(true)))
            } else {
                None
            }),
            on == self@.switched(id),
    {
        if !self.reported(id) {
            return None;
        }
        match self.control::<Toggle>(id) {
            Some(toggle) => Some(toggle.0),
            None => Some(false),
        }
    }
}

/// One listening mode of the press and hold cycle.
#[derive(Debug, Clone, Copy, PartialEq, Eq, Structural)]
pub struct CycleRow {
    pub mode: CycleMode,
    /// Off is only offered while the AirPods allow the Off mode.
    pub shown: bool,
    pub on: bool,
    /// The switch cannot change: removing the mode would leave fewer than two
    /// in the cycle, or the reported cycle does not decode.
    pub locked: bool,
}

/// The row of a mode of the press and hold cycle.
pub open spec fn cycle_row_of(airpods: AirPodsView, mode: CycleMode) -> CycleRow {
    let on = match airpods.decoded::<ListeningModeCycle>(
        ControlCommandIdentifiers::ListeningModeConfigs,
    ) {
        Some(cycle) => cycle.includes(mode),
        None => false,
    };
    CycleRow {
        mode,
        shown: mode != CycleMode::Off || airpods.allow_off,
        on,
        locked: cycle_change(airpods, mode, !on) is None,
    }
}

fn cycle_row(airpods: &AirPods, mode: CycleMode) -> (row: CycleRow)
    ensures
        row == cycle_row_of(airpods@, mode),
{
    let on = match airpods.control::<ListeningModeCycle>(
        ControlCommandIdentifiers::ListeningModeConfigs,
    ) {
        Some(cycle) => cycle.contains(mode),
        None => false,
    };
    CycleRow {
        mode,
        shown: mode != CycleMode::Off || airpods.allow_off,
        on,
        locked: ControlChange::CycleMode(mode, !on).command(airpods).is_none(),
    }
}

/// The rows of the press and hold cycle in `CycleMode::all` order, or None
/// when the AirPods did not report the cycle.
pub fn cycle_rows(airpods: &AirPods) -> (rows: Option<[CycleRow; 4]>)
    ensures
        match rows {
            Some(r) => airpods@.has(ControlCommandIdentifiers::ListeningModeConfigs) && r@ == seq![
                cycle_row_of(airpods@, CycleMode::Off),
                cycle_row_of(airpods@, CycleMode::NoiseCancellation),
                cycle_row_of(airpods@, CycleMode::Transparency),
                cycle_row_of(airpods@, CycleMode::Adaptive),
            ],
            None => !airpods@.has(ControlCommandIdentifiers::ListeningModeConfigs),
        },
{
    if !airpods.reported(ControlCommandIdentifiers::ListeningModeConfigs) {
        return None;
    }
    Some(
        [
            cycle_row(airpods, CycleMode::Off),
            cycle_row(airpods, CycleMode::NoiseCancellation),
            cycle_row(airpods, CycleMode::Transparency),
            cycle_row(airpods, CycleMode::Adaptive),
        ],
    )
}

/// The press that hangs up a call, shown next to the mute choice.
pub fn hang_up_press(airpods: &AirPods) -> (text: Option<&'static str>)
    ensures
        match text {
            Some(t) => airpods@.has(ControlCommandIdentifiers::CallManagementConfig) && t@ == (
            match airpods@.decoded::<CallControls>(
                ControlCommandIdentifiers::CallManagementConfig,
            ) {
                Some(controls) => controls.hang_up_text(),
                None => ""@,
            }),
            None => !airpods@.has(ControlCommandIdentifiers::CallManagementConfig),
        },
        text is Some <==> airpods@.hang_up() is Some,
        text matches Some(t) ==> airpods@.hang_up() == Some(t@),
{
    if !airpods.reported(ControlCommandIdentifiers::CallManagementConfig) {
        return None;
    }
    match airpods.control::<CallControls>(ControlCommandIdentifiers::CallManagementConfig) {
        Some(controls) => Some(controls.hang_up_press()),
        None => Some(""),
    }
}

/// The tone volume slider position.
pub open spec fn tone_volume_of(airpods: AirPodsView) -> Option<u8> {
    if airpods.has(ControlCommandIdentifiers::ChimeVolume) {
        Some(
            match airpods.decoded::<ChimeVolume>(ControlCommandIdentifiers::ChimeVolume) {
                Some(v) => v.volume,
                None => DEFAULT_TONE_VOLUME,
            },
        )
    } else {
        None
    }
}

/// Tone volume slider position, or None when not reported.
pub fn tone_volume(airpods: &AirPods) -> (position: Option<u8>)
    ensures
        position == tone_volume_of(airpods@),
{
    if !airpods.reported(ControlCommandIdentifiers::ChimeVolume) {
        return None;
    }
    match airpods.control::<ChimeVolume>(ControlCommandIdentifiers::ChimeVolume) {
        Some(volume) => Some(volume.percent()),
        None => Some(DEFAULT_TONE_VOLUME),
    }
}

/// The Adaptive Audio slider position.
pub open spec fn adaptive_noise_of(airpods: AirPodsView) -> Option<u8> {
    if airpods.has(ControlCommandIdentifiers::AutoAncStrength) {
        Some(
            (PERCENT_MAX - match airpods.decoded::<AdaptiveStrength>(
                ControlCommandIdentifiers::AutoAncStrength,
            ) {
                Some(s) => s.level,
                None => DEFAULT_ADAPTIVE_STRENGTH,
            }) as u8,
        )
    } else {
        None
    }
}

/// Adaptive Audio slider position, or None when not reported. The slider runs
/// from less to more outside noise, the inverse of the stored strength.
pub fn adaptive_noise(airpods: &AirPods) -> (position: Option<u8>)
    ensures
        position == adaptive_noise_of(airpods@),
{
    if !airpods.reported(ControlCommandIdentifiers::AutoAncStrength) {
        return None;
    }
    let strength: u8 = match airpods.control::<AdaptiveStrength>(
        ControlCommandIdentifiers::AutoAncStrength,
    ) {
        Some(strength) => strength.strength(),
        None => DEFAULT_ADAPTIVE_STRENGTH,
    };
    Some(PERCENT_MAX - strength)
}

/// Only the newest value of a slider is sent, and only once: after a new
/// hold no older generation releases anything, the new one releases the
/// value held, and after that nothing is left to release.
pub proof fn only_the_newest_hold_is_sent_once(
    settling: SettlingView,
    mac: Seq<char>,
    id: ControlCommandIdentifiers,
    value: Seq<u8>,
    older: u64,
)
    requires
        older != next_generation(settling.next),
    ensures
        ({
            let held = settling.held(mac, id, value);
            let newest = next_generation(settling.next);
            &&& held.due(mac, id, older) is None
            &&& held.released(mac, id, older) == held
            &&& held.due(mac, id, newest) == Some(value)
            &&& held.released(mac, id, newest).due(mac, id, newest) is None
        }),
{
}

/// Sliders settle on their own: a hold of one setting changes nothing for
/// any other setting or device.
pub proof fn sliders_settle_per_setting(
    settling: SettlingView,
    mac: Seq<char>,
    id: ControlCommandIdentifiers,
    value: Seq<u8>,
    other_mac: Seq<char>,
    other_id: ControlCommandIdentifiers,
    generation: u64,
)
    requires
        mac != other_mac || id != other_id,
    ensures
        settling.held(mac, id, value).due(other_mac, other_id, generation) == settling.due(
            other_mac,
            other_id,
            generation,
        ),
        settling.released(mac, id, generation).due(other_mac, other_id, generation)
            == settling.due(other_mac, other_id, generation),
{
    if id.number() == other_id.number() {
        crate::bluetooth::aacp::numbers_tell_commands_apart(id, other_id);
    }
}

/// What can happen to the held values: a change in the settings sections of
/// some AirPods, in whatever state they are by then, or a settle delay that
/// ran out.
pub enum SettleStep {
    Changed { mac: Seq<char>, airpods: AirPodsView, change: ControlChange },
    Settled { mac: Seq<char>, identifier: ControlCommandIdentifiers, generation: u64 },
}

impl SettleStep {
    /// Whether a value is held for some setting.
    pub open spec fn holds(self) -> bool {
        self matches SettleStep::Changed { airpods, change, .. } && change.waits() && change.value(
            airpods,
        ) is Some
    }

    /// Whether a value is held for this setting of this device.
    pub open spec fn replaces(self, mac: Seq<char>, id: ControlCommandIdentifiers) -> bool {
        self.holds() && self->Changed_mac == mac && self->change.identifier() == id
    }

    /// Whether the delay of this hold ran out.
    pub open spec fn settles(
        self,
        mac: Seq<char>,
        id: ControlCommandIdentifiers,
        generation: u64,
    ) -> bool {
        self == (SettleStep::Settled { mac, identifier: id, generation })
    }
}

/// The holds after a step: those that `apply` and `settled` leave.
pub open spec fn stepped(settling: SettlingView, step: SettleStep) -> SettlingView {
    match step {
        SettleStep::Changed { mac, airpods, change } => changed_holds(
            settling,
            mac,
            airpods,
            change,
        ),
        SettleStep::Settled { mac, identifier, generation } => settling.released(
            mac,
            identifier,
            generation,
        ),
    }
}

/// The holds after some steps, one after the other.
pub open spec fn after_steps(settling: SettlingView, steps: Seq<SettleStep>) -> SettlingView
    decreases steps.len(),
{
    if steps.len() == 0 {
        settling
    } else {
        stepped(after_steps(settling, steps.drop_last()), steps.last())
    }
}

/// How many of some steps hold a value.
pub open spec fn hold_count(steps: Seq<SettleStep>) -> nat
    decreases steps.len(),
{
    if steps.len() == 0 {
        0
    } else {
        hold_count(steps.drop_last()) + if steps.last().holds() {
            1nat
        } else {
            0nat
        }
    }
}

/// Whether any of some steps holds a value for this setting of this device.
pub open spec fn replaced(
    steps: Seq<SettleStep>,
    mac: Seq<char>,
    id: ControlCommandIdentifiers,
) -> bool {
    exists|i: int| 0 <= i < steps.len() && (#[trigger] steps[i]).replaces(mac, id)
}

/// Whether in any of some steps the delay of this hold ran out.
pub open spec fn settled_before(
    steps: Seq<SettleStep>,
    mac: Seq<char>,
    id: ControlCommandIdentifiers,
    generation: u64,
) -> bool {
    exists|i: int| 0 <= i < steps.len() && (#[trigger] steps[i]).settles(mac, id, generation)
}

proof fn lemma_last_step(
    steps: Seq<SettleStep>,
    mac: Seq<char>,
    id: ControlCommandIdentifiers,
    generation: u64,
)
    requires
        steps.len() > 0,
    ensures
        replaced(steps, mac, id) == (replaced(steps.drop_last(), mac, id)
            || steps.last().replaces(mac, id)),
        settled_before(steps, mac, id, generation) == (settled_before(
            steps.drop_last(),
            mac,
            id,
            generation,
        ) || steps.last().settles(mac, id, generation)),
{
    let rest = steps.drop_last();
    if replaced(rest, mac, id) {
        let i = choose|i: int| 0 <= i < rest.len() && (#[trigger] rest[i]).replaces(mac, id);
        assert(steps[i] == rest[i]);
    }
    if settled_before(rest, mac, id, generation) {
        let i = choose|i: int|
            0 <= i < rest.len() && (#[trigger] rest[i]).settles(mac, id, generation);
        assert(steps[i] == rest[i]);
    }
    if replaced(steps, mac, id) {
        let i = choose|i: int| 0 <= i < steps.len() && (#[trigger] steps[i]).replaces(mac, id);
        if i < rest.len() {
            assert(rest[i] == steps[i]);
        }
    }
    if settled_before(steps, mac, id, generation) {
        let i = choose|i: int|
            0 <= i < steps.len() && (#[trigger] steps[i]).settles(mac, id, generation);
        if i < rest.len() {
            assert(rest[i] == steps[i]);
        }
    }
    assert(steps[steps.len() - 1] == steps.last());
}

/// What is left of a hold after later steps: it is the newest of its setting
/// unless it was replaced or settled, and generations go on counting.
proof fn lemma_later_steps(
    held: SettlingView,
    mac: Seq<char>,
    id: ControlCommandIdentifiers,
    value: Seq<u8>,
    steps: Seq<SettleStep>,
)
    requires
        held.pending.contains_key((mac, id.number())),
        held.pending[(mac, id.number())] == (held.next, value),
        hold_count(steps) < 0x1_0000_0000_0000_0000,
    ensures
        ({
            let after = after_steps(held, steps);
            &&& after.next as int == if held.next + hold_count(steps) > u64::MAX {
                held.next + hold_count(steps) - 0x1_0000_0000_0000_0000
            } else {
                held.next + hold_count(steps)
            }
            &&& after.is_newest(mac, id, held.next) == !(replaced(steps, mac, id)
                || settled_before(steps, mac, id, held.next))
            &&& after.is_newest(mac, id, held.next) ==> after.pending[(mac, id.number())].1 == value
        }),
    decreases steps.len(),
{
    if steps.len() > 0 {
        let rest = steps.drop_last();
        lemma_later_steps(held, mac, id, value, rest);
        lemma_last_step(steps, mac, id, held.next);
        match steps.last() {
            SettleStep::Changed { mac: of, change, .. } => {
                if change.identifier().number() == id.number() {
                    crate::bluetooth::aacp::numbers_tell_commands_apart(change.identifier(), id);
                }
            },
            SettleStep::Settled { mac: of, identifier, generation } => {
                if identifier.number() == id.number() {
                    crate::bluetooth::aacp::numbers_tell_commands_apart(identifier, id);
                }
            },
        }
    }
}

/// Whatever changes and delays follow a slider change, its value is sent when
/// its own delay runs out exactly if the AirPods are connected, no newer value
/// was held for the same setting of the same device, and its delay did not run
/// out before, so it is sent once. Holds of other settings and devices do not
/// matter and stay held. Generations start over after 2^64 holds, so fewer than
/// that many may follow.
pub proof fn a_held_value_is_sent_once_unless_replaced(
    settling: SettlingView,
    mac: Seq<char>,
    airpods: AirPodsView,
    change: ControlChange,
    steps: Seq<SettleStep>,
    connected: bool,
)
    requires
        change.waits(),
        hold_count(steps) < 0x1_0000_0000_0000_0000,
    ensures
        ({
            let id = change.identifier();
            let generation = next_generation(settling.next);
            let after = after_steps(changed_holds(settling, mac, airpods, change), steps);
            &&& change_effects(settling, mac, airpods, change) == seq![
                EffectView::SettleControl { mac, identifier: id, generation },
            ]
            &&& settled_effects(after, mac, connected, id, generation) == (if connected
                && !replaced(steps, mac, id) && !settled_before(steps, mac, id, generation) {
                seq![
                    EffectView::SendControl {
                        mac,
                        identifier: id,
                        value: change.value(airpods)->0,
                    },
                ]
            } else {
                crate::ui::gtk::model::nothing_to_do()
            })
            &&& forall|other: Seq<char>, other_id: ControlCommandIdentifiers, g: u64|
                other != mac || other_id != id ==> #[trigger] after.released(
                    mac,
                    id,
                    generation,
                ).due(other, other_id, g) == after.due(other, other_id, g)
        }),
{
    let id = change.identifier();
    let generation = next_generation(settling.next);
    let held = changed_holds(settling, mac, airpods, change);
    let after = after_steps(held, steps);
    lemma_later_steps(held, mac, id, change.value(airpods)->0, steps);
    assert forall|other: Seq<char>, other_id: ControlCommandIdentifiers, g: u64|
        other != mac || other_id != id implies #[trigger] after.released(
        mac,
        id,
        generation,
    ).due(other, other_id, g) == after.due(other, other_id, g) by {
        if id.number() == other_id.number() {
            crate::bluetooth::aacp::numbers_tell_commands_apart(id, other_id);
        }
    }
}

/// The page shows a slider where it was put before anything is sent.
pub proof fn sliders_show_at_once(airpods: AirPodsView, position: u8)
    requires
        position <= PERCENT_MAX,
    ensures
        tone_volume_of(changed_airpods(airpods, ControlChange::ToneVolume(position))) == Some(
            position,
        ),
        adaptive_noise_of(changed_airpods(airpods, ControlChange::AdaptiveNoise(position)))
            == Some(position),
{
}

/// No change leaves the press and hold cycle with fewer than two modes, and
/// Off never joins it while the AirPods do not allow it.
pub proof fn the_cycle_keeps_two_modes(airpods: AirPodsView, mode: CycleMode, on: bool)
    requires
        airpods.decoded::<ListeningModeCycle>(
            ControlCommandIdentifiers::ListeningModeConfigs,
        ) matches Some(cycle) && cycle.size() >= 2,
    ensures
        ({
            let change = ControlChange::CycleMode(mode, on);
            let after = changed_airpods(airpods, change).decoded::<ListeningModeCycle>(
                ControlCommandIdentifiers::ListeningModeConfigs,
            );
            &&& after matches Some(cycle) && cycle.size() >= 2
            &&& change.value(airpods) is Some ==> after->0.includes(mode) == on
            &&& mode == CycleMode::Off && on && !airpods.allow_off ==> change.value(
                airpods,
            ) is None
        }),
{
    let id = ControlCommandIdentifiers::ListeningModeConfigs;
    let cycle = airpods.decoded::<ListeningModeCycle>(id)->0;
    let change = ControlChange::CycleMode(mode, on);
    if change.value(airpods) is Some {
        let next = cycle.flipped(mode)->0;
        crate::bluetooth::settings::settings_read_back(
            Toggle(true),
            default_click_hold(),
            next,
            CallControls::PressOnceToMute,
            MicMode::Automatic,
            PressInterval::Default,
            SwipeInterval::Default,
        );
        assert(changed_airpods(airpods, change).control_values[id.number()] == next.bytes());
    }
}

/// A cycle that does not decode is shown with every switch off and locked,
/// and no change of it is sent.
pub proof fn an_unknown_cycle_is_locked(airpods: AirPodsView, mode: CycleMode, on: bool)
    requires
        airpods.decoded::<ListeningModeCycle>(
            ControlCommandIdentifiers::ListeningModeConfigs,
        ) is None,
    ensures
        !cycle_row_of(airpods, mode).on,
        cycle_row_of(airpods, mode).locked,
        ControlChange::CycleMode(mode, on).value(airpods) is None,
{
}

/// A long press change keeps the action of the other bud.
pub proof fn a_long_press_keeps_the_other_bud(
    airpods: AirPodsView,
    bud: Bud,
    action: ClickHoldAction,
)
    ensures
        ({
            let id = ControlCommandIdentifiers::ClickHoldMode;
            let before = match airpods.decoded::<ClickHoldMode>(id) {
                Some(mode) => mode,
                None => default_click_hold(),
            };
            let after = changed_airpods(
                airpods,
                ControlChange::LongPress(bud, action),
            ).decoded::<ClickHoldMode>(id);
            after == Some(
                match bud {
                    Bud::Left => ClickHoldMode { left: action, right: before.right },
                    Bud::Right => ClickHoldMode { left: before.left, right: action },
                },
            )
        }),
{
    let id = ControlCommandIdentifiers::ClickHoldMode;
    let mode = long_press(airpods.decoded::<ClickHoldMode>(id), bud, action);
    let change = ControlChange::LongPress(bud, action);
    assert(changed_airpods(airpods, change).control_values[id.number()] == mode.bytes());
    assert(ClickHoldMode::decoded(mode.bytes()) == Some(mode));
}

} // verus!
