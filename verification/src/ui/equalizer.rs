//! The equalizer card of the AirPods page, and when its changes are sent.

use crate::bluetooth::eq::{model_supports_custom_eq, CustomEq, BAND_MAX};
use crate::time::{Duration, NANOS_PER_MILLI};
use crate::ui::page::{
    add_row, add_section, add_switch, no_rows, no_sections, Control, ControlView, Heading, Item,
    RowView, Section, SectionView,
};
use vstd::prelude::*;

verus! {

/// How long the bands must stay still before they are sent, in milliseconds.
/// A slider drag reports every step it passes; the AirPods only need where it
/// settles.
pub const SEND_DELAY_MILLIS: u64 = 150;

/// How long the bands must stay still before they are sent.
pub fn send_delay() -> (d: Duration)
    ensures
        d@ == SEND_DELAY_MILLIS * NANOS_PER_MILLI,
{
    Duration::from_millis(SEND_DELAY_MILLIS)
}

/// The custom EQ shown for one device and the bookkeeping that paces sends.
#[derive(Clone, Copy, Debug, PartialEq, Eq, Structural)]
pub struct EqualizerState {
    pub eq: CustomEq,
    /// Bumped on every change. A delayed send only goes out if no newer
    /// change happened while it waited.
    pub generation: u64,
}

impl EqualizerState {
    /// A device that shows this EQ, before any change.
    pub fn new(eq: CustomEq) -> (state: EqualizerState)
        ensures
            state == (EqualizerState { eq, generation: 0 }),
    {
        EqualizerState { eq, generation: 0 }
    }

    /// The state after a change to this EQ.
    pub open spec fn changed(self, eq: CustomEq) -> EqualizerState {
        EqualizerState {
            eq,
            generation: crate::ui::gtk::controls::next_generation(self.generation),
        }
    }

    /// Takes a change and returns its generation, for a send that waits.
    pub fn change(&mut self, eq: CustomEq) -> (generation: u64)
        ensures
            *final(self) == old(self).changed(eq),
            generation == final(self).generation,
    {
        self.eq = eq;
        self.generation =
        if self.generation == u64::MAX {
            0
        } else {
            self.generation + 1
        };
        self.generation
    }

    /// Whether the delayed send of a change still goes out.
    pub fn is_due(&self, generation: u64) -> (due: bool)
        ensures
            due == (self.generation == generation),
    {
        self.generation == generation
    }
}

/// A newer change, sent at once or later, cancels the delayed send of the
/// change before it.
pub proof fn newer_changes_cancel_older_sends(state: EqualizerState, older: CustomEq, newer: CustomEq)
    ensures
        state.changed(older).changed(newer).generation != state.changed(older).generation,
{
}

/// The rows of the equalizer card: the switch, and while it is on the bands
/// and a reset that works unless they are flat.
pub open spec fn equalizer_rows(eq: CustomEq) -> Seq<RowView> {
    let switch = Seq::empty().push(crate::ui::page::switch_row(Item::CustomEq, eq.enabled));
    if eq.enabled {
        switch.push(
            crate::ui::page::row_of(
                Item::LowBand,
                ControlView::Slider { value: eq.low, max: BAND_MAX, step: 1 },
            ),
        ).push(
            crate::ui::page::row_of(
                Item::MidBand,
                ControlView::Slider { value: eq.mid, max: BAND_MAX, step: 1 },
            ),
        ).push(
            crate::ui::page::row_of(
                Item::HighBand,
                ControlView::Slider { value: eq.high, max: BAND_MAX, step: 1 },
            ),
        ).push(
            crate::ui::page::row_of(
                Item::ResetEq,
                ControlView::Button {
                    enabled: eq != crate::ui::gtk::model::equalizer::flat_eq(),
                },
            ),
        )
    } else {
        switch
    }
}

/// The equalizer card. Empty for models that do not take a custom EQ.
pub open spec fn equalizer_card(model_number: Option<Seq<char>>, eq: CustomEq) -> Seq<SectionView> {
    if crate::bluetooth::eq::eq_offered(model_number) {
        crate::ui::page::with_section(Seq::empty(), Heading::Equalizer, equalizer_rows(eq))
    } else {
        Seq::empty()
    }
}

/// The equalizer card for the AirPods page. Empty for models that do not
/// take a custom EQ.
pub fn equalizer_section(model_number: Option<&str>, eq: CustomEq) -> (card: Vec<Section>)
    ensures
        crate::ui::page::sections_view(card@) == equalizer_card(
            match model_number {
                Some(n) => Some(n@),
                None => None,
            },
            eq,
        ),
{
    let mut card = no_sections();
    if !model_supports_custom_eq(model_number) {
        return card;
    }
    let mut rows = no_rows();
    add_switch(&mut rows, Item::CustomEq, eq.enabled);
    if eq.enabled {
        let flat = CustomEq { enabled: true, low: 50, mid: 50, high: 50 };
        add_row(
            &mut rows,
            Item::LowBand,
            Control::Slider { value: eq.low, max: BAND_MAX, step: 1 },
        );
        add_row(
            &mut rows,
            Item::MidBand,
            Control::Slider { value: eq.mid, max: BAND_MAX, step: 1 },
        );
        add_row(
            &mut rows,
            Item::HighBand,
            Control::Slider { value: eq.high, max: BAND_MAX, step: 1 },
        );
        add_row(&mut rows, Item::ResetEq, Control::Button { enabled: eq != flat });
    }
    add_section(&mut card, Heading::Equalizer, rows);
    card
}

} // verus!
