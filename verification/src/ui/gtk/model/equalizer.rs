//! The custom EQ of connected AirPods: which models offer it and when a
//! change is sent.
//!
//! The switch and Reset send at once. A slider drag reports every step it
//! passes and the AirPods only need where it settles, so band changes are
//! sent once they stayed still for the send delay; every newer change, delayed
//! or not, cancels the delayed send before it.

use crate::address_map::AddressMap;
use crate::bluetooth::eq::{model_supports_custom_eq, CustomEq, BAND_MAX};
use crate::time::{Duration, NANOS_PER_MILLI};
use crate::ui::gtk::model::{
    no_effects, one_effect, AirPodsView, Effect, EffectView, Model, ModelView,
};
use vstd::prelude::*;

verus! {

/// How long the bands must stay still before they are sent, in milliseconds.
pub const EQ_SEND_DELAY_MILLIS: u64 = 150;

/// How long the bands must stay still before they are sent.
pub fn eq_send_delay() -> (d: Duration)
    ensures
        d@ == EQ_SEND_DELAY_MILLIS * NANOS_PER_MILLI,
{
    Duration::from_millis(EQ_SEND_DELAY_MILLIS)
}

/// The bands of the equalizer.
#[derive(Debug, Clone, Copy, PartialEq, Eq, Structural)]
pub enum EqBand {
    Low,
    Mid,
    High,
}

impl EqBand {
    /// The bands in display order.
    pub fn all() -> (all: [EqBand; 3])
        ensures
            all@ == seq![EqBand::Low, EqBand::Mid, EqBand::High],
    {
        [EqBand::Low, EqBand::Mid, EqBand::High]
    }

    /// The name of the band.
    pub fn label(self) -> (label: &'static str)
        ensures
            label@ == match self {
                EqBand::Low => "Low"@,
                EqBand::Mid => "Mid"@,
                EqBand::High => "High"@,
            },
    {
        match self {
            EqBand::Low => "Low",
            EqBand::Mid => "Mid",
            EqBand::High => "High",
        }
    }

    /// The value of the band.
    pub open spec fn of(self, eq: CustomEq) -> u8 {
        match self {
            EqBand::Low => eq.low,
            EqBand::Mid => eq.mid,
            EqBand::High => eq.high,
        }
    }

    /// The equalizer with another value of the band.
    pub open spec fn with(self, eq: CustomEq, value: u8) -> CustomEq {
        match self {
            EqBand::Low => CustomEq { low: value, ..eq },
            EqBand::Mid => CustomEq { mid: value, ..eq },
            EqBand::High => CustomEq { high: value, ..eq },
        }
    }

    /// The value of the band.
    pub fn get(self, eq: CustomEq) -> (value: u8)
        ensures
            value == self.of(eq),
    {
        match self {
            EqBand::Low => eq.low,
            EqBand::Mid => eq.mid,
            EqBand::High => eq.high,
        }
    }

    /// Sets the value of the band.
    pub fn set(self, eq: &mut CustomEq, value: u8)
        ensures
            *final(eq) == self.with(*old(eq), value),
    {
        match self {
            EqBand::Low => {
                eq.low = value;
            },
            EqBand::Mid => {
                eq.mid = value;
            },
            EqBand::High => {
                eq.high = value;
            },
        }
    }
}

/// A user action on the equalizer, or a timer of it.
#[derive(Debug)]
pub enum EqInput {
    SetEnabled(String, bool),
    SetBand(String, EqBand, u8),
    /// Back to flat bands, keeping the custom EQ on.
    Reset(String),
    /// The send delay passed since the band change `generation` was made.
    SendDue { mac: String, generation: u64 },
}

/// Work for the app on the equalizer.
#[derive(Debug, Clone, PartialEq)]
pub enum EqEffect {
    /// Send to the AirPods after every EQ sent before it.
    Send { mac: String, eq: CustomEq },
    /// Come back with `EqInput::SendDue` after the send delay.
    SendLater { mac: String, generation: u64 },
}

/// The mathematical content of an `EqEffect`.
#[verifier::ext_equal]
pub enum EqEffectView {
    Send { mac: Seq<char>, eq: CustomEq },
    SendLater { mac: Seq<char>, generation: u64 },
}

impl View for EqEffect {
    type V = EqEffectView;

    open spec fn view(&self) -> EqEffectView {
        match *self {
            EqEffect::Send { mac, eq } => EqEffectView::Send { mac: mac@, eq },
            EqEffect::SendLater { mac, generation } => EqEffectView::SendLater {
                mac: mac@,
                generation,
            },
        }
    }
}

/// Bookkeeping for delayed sends.
#[derive(Debug)]
pub struct EqSends {
    /// Bumped on every change.
    pub generation: u64,
    /// The change whose delayed send may still go out, per device.
    pub pending: AddressMap<u64>,
}

/// The mathematical content of `EqSends`.
#[verifier::ext_equal]
pub struct EqSendsView {
    pub generation: u64,
    pub pending: Map<Seq<char>, u64>,
}

impl View for EqSends {
    type V = EqSendsView;

    open spec fn view(&self) -> EqSendsView {
        EqSendsView { generation: self.generation, pending: self.pending@ }
    }
}

impl Default for EqSends {
    fn default() -> (sends: EqSends)
        ensures
            sends.pending.wf(),
            sends@ == (EqSendsView { generation: 0, pending: Map::empty() }),
    {
        EqSends { generation: 0, pending: AddressMap::new() }
    }
}

/// Flat bands with the custom EQ on, what Reset sets.
pub open spec fn flat_eq() -> CustomEq {
    CustomEq { enabled: true, low: 50, mid: 50, high: 50 }
}

/// Flat bands with the custom EQ on, what Reset sets.
pub fn flat() -> (eq: CustomEq)
    ensures
        eq == flat_eq(),
{
    CustomEq { enabled: true, low: 50, mid: 50, high: 50 }
}

/// A band value, at most the highest one.
pub open spec fn capped_band(value: u8) -> u8 {
    if value > BAND_MAX {
        BAND_MAX
    } else {
        value
    }
}

impl ModelView {
    /// Whether to offer the custom EQ for the AirPods at `mac`.
    pub open spec fn eq_supported(self, mac: Seq<char>) -> bool {
        crate::bluetooth::eq::eq_offered(
            match self.airpods_information(mac) {
                Some(info) => Some(info.model_number),
                None => None,
            },
        )
    }

    /// The EQ to show.
    pub open spec fn eq_shown(self, mac: Seq<char>) -> CustomEq {
        if self.airpods.contains_key(mac) {
            match self.airpods[mac].custom_eq {
                Some(eq) => eq,
                None => crate::bluetooth::eq::eq_off(),
            }
        } else {
            crate::bluetooth::eq::eq_off()
        }
    }

    /// Whether setting the EQ of `mac` to `eq` does anything.
    pub open spec fn eq_changes(self, mac: Seq<char>, eq: CustomEq) -> bool {
        self.eq_supported(mac) && self.airpods.contains_key(mac) && eq != self.eq_shown(mac)
    }

    /// The model after the EQ of `mac` was set to `eq`, to be sent at once
    /// or after the delay.
    pub open spec fn eq_set(self, mac: Seq<char>, eq: CustomEq, at_once: bool) -> ModelView {
        if !self.eq_changes(mac, eq) {
            self
        } else {
            let generation = (self.eq_sends.generation + 1) as u64;
            ModelView {
                airpods: self.airpods.insert(
                    mac,
                    AirPodsView { custom_eq: Some(eq), ..self.airpods[mac] },
                ),
                eq_sends: EqSendsView {
                    generation,
                    pending: if at_once {
                        self.eq_sends.pending.remove(mac)
                    } else {
                        self.eq_sends.pending.insert(mac, generation)
                    },
                },
                ..self
            }
        }
    }

    /// What to do after the EQ of `mac` was set to `eq`.
    pub open spec fn eq_set_effects(self, mac: Seq<char>, eq: CustomEq, at_once: bool) -> Seq<
        EffectView,
    > {
        if !self.eq_changes(mac, eq) {
            crate::ui::gtk::model::nothing_to_do()
        } else if at_once {
            seq![EffectView::Equalizer(EqEffectView::Send { mac, eq })]
        } else {
            seq![
                EffectView::Equalizer(
                    EqEffectView::SendLater {
                        mac,
                        generation: (self.eq_sends.generation + 1) as u64,
                    },
                ),
            ]
        }
    }

    /// Reset does something: the custom EQ is on and not flat.
    pub open spec fn eq_resettable(self, mac: Seq<char>) -> bool {
        self.eq_shown(mac).enabled && self.eq_shown(mac) != flat_eq()
    }

    /// The EQ of `mac` with another value of a band. The bands only show
    /// while the custom EQ is on.
    pub open spec fn eq_with_band(self, mac: Seq<char>, band: EqBand, value: u8) -> CustomEq {
        let eq = self.eq_shown(mac);
        if eq.enabled {
            band.with(eq, capped_band(value))
        } else {
            eq
        }
    }

    /// Whether this delayed send may still go out.
    pub open spec fn eq_due(self, mac: Seq<char>, generation: u64) -> bool {
        self.eq_sends.pending.contains_key(mac) && self.eq_sends.pending[mac] == generation
    }

    /// The model after an input of the equalizer.
    pub open spec fn equalized(self, input: EqInput) -> ModelView {
        match input {
            EqInput::SetEnabled(mac, enabled) => self.eq_set(
                mac@,
                CustomEq { enabled, ..self.eq_shown(mac@) },
                true,
            ),
            EqInput::Reset(mac) => self.eq_set(mac@, flat_eq(), true),
            EqInput::SetBand(mac, band, value) => self.eq_set(
                mac@,
                self.eq_with_band(mac@, band, value),
                false,
            ),
            EqInput::SendDue { mac, generation } => if self.eq_due(mac@, generation) {
                self.without_eq_send(mac@)
            } else {
                self
            },
        }
    }

    /// What to do after an input of the equalizer.
    pub open spec fn equalized_effects(self, input: EqInput) -> Seq<EffectView> {
        match input {
            EqInput::SetEnabled(mac, enabled) => self.eq_set_effects(
                mac@,
                CustomEq { enabled, ..self.eq_shown(mac@) },
                true,
            ),
            EqInput::Reset(mac) => self.eq_set_effects(mac@, flat_eq(), true),
            EqInput::SetBand(mac, band, value) => self.eq_set_effects(
                mac@,
                self.eq_with_band(mac@, band, value),
                false,
            ),
            EqInput::SendDue { mac, generation } => if self.eq_due(mac@, generation)
                && self.airpods.contains_key(mac@) && self.airpods[mac@].custom_eq is Some {
                seq![
                    EffectView::Equalizer(
                        EqEffectView::Send { mac: mac@, eq: self.eq_shown(mac@) },
                    ),
                ]
            } else {
                crate::ui::gtk::model::nothing_to_do()
            },
        }
    }

    /// The model without a delayed send for `mac`.
    pub open spec fn without_eq_send(self, mac: Seq<char>) -> ModelView {
        ModelView {
            eq_sends: EqSendsView {
                pending: self.eq_sends.pending.remove(mac),
                ..self.eq_sends
            },
            ..self
        }
    }
}

impl Model {
    /// Takes an input of the equalizer.
    pub(crate) fn equalizer(&mut self, input: EqInput) -> (effects: Vec<Effect>)
        requires
            old(self).parts_wf(),
            old(self)@.eq_sends.generation < u64::MAX,
        ensures
            final(self).parts_wf(),
            final(self)@ == old(self)@.equalized(input),
            crate::ui::gtk::model::effects_view(effects@) == old(self)@.equalized_effects(input),
    {
        match input {
            EqInput::SetEnabled(mac, enabled) => {
                let mut eq = self.custom_eq(mac.as_str());
                eq.enabled = enabled;
                self.change_eq(mac, eq, true)
            },
            EqInput::Reset(mac) => self.change_eq(mac, flat(), true),
            EqInput::SetBand(mac, band, value) => {
                let mut eq = self.custom_eq(mac.as_str());
                if eq.enabled {
                    let capped: u8 = if value > BAND_MAX {
                        BAND_MAX
                    } else {
                        value
                    };
                    band.set(&mut eq, capped);
                }
                self.change_eq(mac, eq, false)
            },
            EqInput::SendDue { mac, generation } => {
                let due = match self.eq_sends.pending.get(mac.as_str()) {
                    Some(newest) => *newest == generation,
                    None => false,
                };
                if !due {
                    return no_effects();
                }
                let _ = self.eq_sends.pending.remove(mac.as_str());
                let eq = match self.airpods.get(mac.as_str()) {
                    Some(airpods) => airpods.custom_eq,
                    None => None,
                };
                match eq {
                    Some(eq) => one_effect(Effect::Equalizer(EqEffect::Send { mac, eq })),
                    None => no_effects(),
                }
            },
        }
    }

    /// Sets the EQ of the AirPods at `mac`, to be sent now or after the send
    /// delay. Nothing is sent when the EQ did not change or the model does
    /// not offer it.
    fn change_eq(&mut self, mac: String, eq: CustomEq, at_once: bool) -> (effects: Vec<Effect>)
        requires
            old(self).parts_wf(),
            old(self)@.eq_sends.generation < u64::MAX,
        ensures
            final(self).parts_wf(),
            final(self)@ == old(self)@.eq_set(mac@, eq, at_once),
            crate::ui::gtk::model::effects_view(effects@) == old(self)@.eq_set_effects(
                mac@,
                eq,
                at_once,
            ),
    {
        if !self.equalizer_supported(mac.as_str()) || eq == self.custom_eq(mac.as_str()) {
            return no_effects();
        }
        match self.airpods.remove(mac.as_str()) {
            None => {
                proof {
                    assert(self@.airpods =~= old(self)@.airpods);
                }
                no_effects()
            },
            Some(airpods) => {
                let mut airpods = airpods;
                airpods.custom_eq = Some(eq);
                self.airpods.insert(mac.clone(), airpods);
                proof {
                    assert(self@.airpods =~= old(self)@.airpods.insert(mac@, airpods@));
                }
                self.eq_sends.generation = self.eq_sends.generation + 1;
                if at_once {
                    let _ = self.eq_sends.pending.remove(mac.as_str());
                    one_effect(Effect::Equalizer(EqEffect::Send { mac, eq }))
                } else {
                    let generation: u64 = self.eq_sends.generation;
                    self.eq_sends.pending.insert(mac.clone(), generation);
                    one_effect(Effect::Equalizer(EqEffect::SendLater { mac, generation }))
                }
            },
        }
    }

    /// The AirPods at `mac` went away: no delayed send goes out any more.
    pub(crate) fn eq_disconnected(&mut self, mac: &str)
        requires
            old(self).parts_wf(),
        ensures
            final(self).parts_wf(),
            final(self)@ == old(self)@.without_eq_send(mac@),
    {
        let _ = self.eq_sends.pending.remove(mac);
    }

    /// Whether to offer the custom EQ for the AirPods at `mac`, from the
    /// model number in devices.json.
    pub fn equalizer_supported(&self, mac: &str) -> (yes: bool)
        requires
            self.parts_wf(),
        ensures
            yes == self@.eq_supported(mac@),
    {
        match self.information(mac) {
            Some(info) => model_supports_custom_eq(Some(info.model_number.as_str())),
            None => model_supports_custom_eq(None),
        }
    }

    /// The EQ to show: the last one reported or set, off and flat before the
    /// AirPods reported any.
    pub fn custom_eq(&self, mac: &str) -> (eq: CustomEq)
        requires
            self.parts_wf(),
        ensures
            eq == self@.eq_shown(mac@),
    {
        match self.airpods.get(mac) {
            Some(airpods) => match airpods.custom_eq {
                Some(eq) => eq,
                None => CustomEq::default(),
            },
            None => CustomEq::default(),
        }
    }

    /// Reset does something: the custom EQ is on and not flat.
    pub fn eq_can_reset(&self, mac: &str) -> (yes: bool)
        requires
            self.parts_wf(),
        ensures
            yes == (self@.eq_shown(mac@).enabled && self@.eq_shown(mac@) != flat_eq()),
            yes == self@.eq_resettable(mac@),
    {
        let eq = self.custom_eq(mac);
        eq.enabled && eq != flat()
    }
}

} // verus!
