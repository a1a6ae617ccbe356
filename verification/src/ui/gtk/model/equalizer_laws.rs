//! What the inputs of the equalizer do to what is shown and sent.

use crate::bluetooth::eq::CustomEq;
use crate::ui::gtk::model::equalizer::{EqBand, EqEffectView, EqInput};
use crate::ui::gtk::model::{EffectView, Input, ModelView};
use vstd::prelude::*;

verus! {

/// Connected AirPods show the equalizer that they reported last or that was set
/// last; those that reported none show it off, with every band in the middle.
pub proof fn the_known_equalizer_is_shown(model: ModelView, mac: Seq<char>)
    requires
        model.airpods.contains_key(mac),
    ensures
        model.airpods[mac].custom_eq matches Some(eq) ==> model.eq_shown(mac) == eq,
        model.airpods[mac].custom_eq is None ==> !model.eq_shown(mac).enabled && model.eq_shown(
            mac,
        ).low == 50 && model.eq_shown(mac).mid == 50 && model.eq_shown(mac).high == 50,
{
}

/// The switch turns the equalizer of AirPods that offer it on or off and keeps
/// the three bands that were shown. What is sent at once is what is shown;
/// nothing is where the switch was there already.
pub proof fn the_switch_keeps_the_bands(model: ModelView, mac: String, on: bool)
    requires
        model.airpods.contains_key(mac@),
        model.eq_supported(mac@),
    ensures
        ({
            let input = Input::Equalizer(EqInput::SetEnabled(mac, on));
            let before = model.eq_shown(mac@);
            let after = model.after(input).eq_shown(mac@);
            &&& after.enabled == on
            &&& after.low == before.low
            &&& after.mid == before.mid
            &&& after.high == before.high
            &&& before.enabled != on ==> model.after(input).airpods[mac@].custom_eq == Some(after)
            &&& before.enabled != on ==> model.effects_after(input) == seq![
                EffectView::Equalizer(EqEffectView::Send { mac: mac@, eq: after }),
            ]
            &&& before.enabled == on ==> model.effects_after(input).len() == 0
        }),
{
}

/// Off and on again gives back the equalizer that was shown, and sends it.
pub proof fn off_and_on_restores_the_equalizer(model: ModelView, mac: String)
    requires
        model.airpods.contains_key(mac@),
        model.eq_supported(mac@),
        model.eq_shown(mac@).enabled,
    ensures
        ({
            let off = model.after(Input::Equalizer(EqInput::SetEnabled(mac, false)));
            let on = Input::Equalizer(EqInput::SetEnabled(mac, true));
            &&& !off.eq_shown(mac@).enabled
            &&& off.after(on).eq_shown(mac@) == model.eq_shown(mac@)
            &&& off.effects_after(on) == seq![
                EffectView::Equalizer(
                    EqEffectView::Send { mac: mac@, eq: model.eq_shown(mac@) },
                ),
            ]
        }),
{
}

/// A band moves to the value given, at most to 100, and no other band moves; the
/// equalizer stays on. While it is off no band moves.
pub proof fn one_band_moves(model: ModelView, mac: String, band: EqBand, value: u8)
    requires
        model.airpods.contains_key(mac@),
        model.eq_supported(mac@),
    ensures
        ({
            let input = Input::Equalizer(EqInput::SetBand(mac, band, value));
            let before = model.eq_shown(mac@);
            let after = model.after(input).eq_shown(mac@);
            let settled = if value > 100 {
                100u8
            } else {
                value
            };
            &&& !before.enabled ==> after == before && model.effects_after(input).len() == 0
            &&& before.enabled ==> {
                &&& after.enabled
                &&& band is Low ==> after.low == settled && after.mid == before.mid && after.high
                    == before.high
                &&& band is Mid ==> after.low == before.low && after.mid == settled && after.high
                    == before.high
                &&& band is High ==> after.low == before.low && after.mid == before.mid
                    && after.high == settled
            }
        }),
{
}

/// A band is read where it is set, and the bands are three.
pub proof fn bands_read_back(band: EqBand, other: EqBand, eq: CustomEq, value: u8)
    ensures
        band.of(band.with(eq, value)) == value,
        other != band ==> other.of(band.with(eq, value)) == other.of(eq),
        band.with(eq, value).enabled == eq.enabled,
        EqBand::Low.of(eq) == eq.low,
        EqBand::Mid.of(eq) == eq.mid,
        EqBand::High.of(eq) == eq.high,
{
}

/// A band change is held back under a new number, and what goes out when that
/// is due is what is shown then.
pub proof fn a_band_change_is_held_back(model: ModelView, mac: String, band: EqBand, value: u8)
    requires
        model.airpods.contains_key(mac@),
        model.eq_supported(mac@),
        model.eq_shown(mac@).enabled,
        band.of(model.eq_shown(mac@)) != value,
        value <= 100,
        model.eq_sends.generation < u64::MAX,
    ensures
        ({
            let input = Input::Equalizer(EqInput::SetBand(mac, band, value));
            let after = model.after(input);
            let number = (model.eq_sends.generation + 1) as u64;
            let due = Input::Equalizer(EqInput::SendDue { mac, generation: number });
            &&& model.effects_after(input) == seq![
                EffectView::Equalizer(
                    EqEffectView::SendLater { mac: mac@, generation: number },
                ),
            ]
            &&& after.effects_after(due) == seq![
                EffectView::Equalizer(
                    EqEffectView::Send { mac: mac@, eq: after.eq_shown(mac@) },
                ),
            ]
            &&& after.after(due).eq_shown(mac@) == after.eq_shown(mac@)
        }),
{
}

/// Reset puts every band in the middle and turns the equalizer on.
pub proof fn reset_is_flat_and_on(model: ModelView, mac: String)
    requires
        model.airpods.contains_key(mac@),
        model.eq_supported(mac@),
    ensures
        ({
            let input = Input::Equalizer(EqInput::Reset(mac));
            let before = model.eq_shown(mac@);
            let after = model.after(input).eq_shown(mac@);
            &&& after.enabled
            &&& after.low == 50
            &&& after.mid == 50
            &&& after.high == 50
            &&& after != before ==> model.effects_after(input) == seq![
                EffectView::Equalizer(EqEffectView::Send { mac: mac@, eq: after }),
            ]
            &&& after == before ==> model.effects_after(input).len() == 0
        }),
{
}

/// Only connected AirPods that offer an equalizer have one set, and no input of
/// it touches other AirPods or anything else of these.
pub proof fn the_equalizer_touches_nothing_else(
    model: ModelView,
    mac: String,
    other: Seq<char>,
    input: EqInput,
)
    requires
        input matches EqInput::SetEnabled(of, _) ==> of@ == mac@,
        input matches EqInput::SetBand(of, _, _) ==> of@ == mac@,
        input matches EqInput::Reset(of) ==> of@ == mac@,
        !(input is SendDue),
    ensures
        ({
            let after = model.after(Input::Equalizer(input));
            let offered = model.airpods.contains_key(mac@) && model.eq_supported(mac@);
            &&& !offered ==> after == model
            &&& other != mac@ ==> after.airpods[other] == model.airpods[other]
            &&& after.airpods[mac@].control_values == model.airpods[mac@].control_values
            &&& after.airpods[mac@].listening_mode == model.airpods[mac@].listening_mode
            &&& after.airpods[mac@].battery == model.airpods[mac@].battery
            &&& after.airpods[mac@].name == model.airpods[mac@].name
            &&& after.mic == model.mic
            &&& after.settings == model.settings
        }),
{
}

/// Reset is offered exactly while the equalizer is on and Reset sends something:
/// some band is out of the middle.
pub proof fn reset_is_offered_where_it_does_something(model: ModelView, mac: String)
    requires
        model.airpods.contains_key(mac@),
        model.eq_supported(mac@),
    ensures
        ({
            let reset = Input::Equalizer(EqInput::Reset(mac));
            let eq = model.eq_shown(mac@);
            &&& model.eq_resettable(mac@) <==> eq.enabled && model.effects_after(reset).len() > 0
            &&& model.eq_resettable(mac@) <==> eq.enabled && (eq.low != 50 || eq.mid != 50
                || eq.high != 50)
            &&& !model.after(reset).eq_resettable(mac@)
        }),
{
}

} // verus!
