//! What the settings sections show and send, byte for byte.

use crate::bluetooth::aacp::ControlCommandIdentifiers;
use crate::bluetooth::settings::{ClickHoldAction, ControlValue, CycleMode, ListeningModeCycle};
use crate::ui::gtk::controls::{Bud, ControlChange, SettlingView};
use crate::ui::gtk::model::{AirPodsView, EffectView};
use vstd::prelude::*;

verus! {

/// The choices are sent under the number of their setting, as these bytes.
pub proof fn choices_are_sent_as_their_bytes(airpods: AirPodsView, change: ControlChange)
    ensures
        ({
            let id = change.identifier();
            let value = change.value(airpods);
            &&& change matches ControlChange::MuteControl(c) ==> id
                == ControlCommandIdentifiers::CallManagementConfig && (c is PressOnceToMute ==> value
                == Some(seq![0u8, 3u8])) && (c is PressTwiceToMute ==> value == Some(
                seq![0u8, 2u8],
            ))
            &&& change matches ControlChange::MicMode(m) ==> id
                == ControlCommandIdentifiers::MicMode && (m is Automatic ==> value == Some(
                seq![0u8],
            )) && (m is AlwaysRight ==> value == Some(seq![1u8])) && (m is AlwaysLeft ==> value
                == Some(seq![2u8]))
            &&& change matches ControlChange::PressSpeed(p) ==> id
                == ControlCommandIdentifiers::DoubleClickInterval && (p is Default ==> value == Some(
                seq![0u8],
            )) && (p is Slower ==> value == Some(seq![1u8])) && (p is Slowest ==> value == Some(
                seq![2u8],
            ))
            &&& change matches ControlChange::HoldDuration(p) ==> id
                == ControlCommandIdentifiers::ClickHoldInterval && (p is Default ==> value == Some(
                seq![0u8],
            )) && (p is Slower ==> value == Some(seq![1u8])) && (p is Slowest ==> value == Some(
                seq![2u8],
            ))
            &&& change matches ControlChange::SwipeSpeed(s) ==> id
                == ControlCommandIdentifiers::VolumeSwipeInterval && (s is Default ==> value == Some(
                seq![1u8],
            )) && (s is Longer ==> value == Some(seq![2u8])) && (s is Longest ==> value == Some(
                seq![3u8],
            ))
        }),
{
}

/// The switches are sent under the number of their setting, as 1 for on and 2
/// for off.
pub proof fn switches_are_sent_as_one_or_two(airpods: AirPodsView, on: bool)
    ensures
        ({
            let byte = if on {
                1u8
            } else {
                2u8
            };
            let one_bud = ControlChange::OneBudAnc(on);
            let swipe = ControlChange::VolumeSwipe(on);
            let sleep = ControlChange::SleepDetection(on);
            &&& one_bud.identifier() == ControlCommandIdentifiers::OneBudAncMode
            &&& swipe.identifier() == ControlCommandIdentifiers::VolumeSwipeMode
            &&& sleep.identifier() == ControlCommandIdentifiers::SleepDetectionConfig
            &&& one_bud.value(airpods) == Some(seq![byte])
            &&& swipe.value(airpods) == Some(seq![byte])
            &&& sleep.value(airpods) == Some(seq![byte])
        }),
{
}

/// The tone volume is sent as its position, at most 100, with a second byte of
/// 0x50; the Adaptive Audio slider as what its position is short of 100.
pub proof fn sliders_are_sent_as_their_position(airpods: AirPodsView, position: u8)
    ensures
        ({
            let tone = ControlChange::ToneVolume(position);
            let noise = ControlChange::AdaptiveNoise(position);
            &&& tone.identifier() == ControlCommandIdentifiers::ChimeVolume
            &&& noise.identifier() == ControlCommandIdentifiers::AutoAncStrength
            &&& position <= 100 ==> tone.value(airpods) == Some(seq![position, 0x50u8])
            &&& position > 100 ==> tone.value(airpods) == Some(seq![100u8, 0x50u8])
            &&& noise.value(airpods) is Some
            &&& noise.value(airpods)->0.len() == 1
            &&& position <= 100 ==> noise.value(airpods)->0[0] + position == 100
            &&& position > 100 ==> noise.value(airpods)->0[0] == 0
        }),
{
}

/// A long press is sent as two bytes, the right stem first: that of the stem
/// that was set is 1 for noise control and 5 for Siri, and the other one is what
/// it was, or 1 where the reported bytes mean nothing.
pub proof fn a_long_press_is_sent_for_both_stems(
    airpods: AirPodsView,
    bud: Bud,
    action: ClickHoldAction,
)
    ensures
        ({
            let change = ControlChange::LongPress(bud, action);
            let id = ControlCommandIdentifiers::ClickHoldMode;
            let was = airpods.control_values[id.number()];
            let known = airpods.has(id) && was.len() == 2 && (was[0] == 1 || was[0] == 5) && (was[1]
                == 1 || was[1] == 5);
            let byte = if action is Siri {
                5u8
            } else {
                1u8
            };
            let sent = change.value(airpods)->0;
            &&& change.identifier() == id
            &&& change.value(airpods) is Some
            &&& sent.len() == 2
            &&& bud is Right ==> sent[0] == byte
            &&& bud is Left ==> sent[1] == byte
            &&& known && bud is Right ==> sent[1] == was[1]
            &&& known && bud is Left ==> sent[0] == was[0]
            &&& !known && bud is Right ==> sent[1] == 1
            &&& !known && bud is Left ==> sent[0] == 1
        }),
{
}

/// A change that is allowed is remembered under its number as it is sent, and
/// nothing else of the AirPods changes; one that is not allowed does nothing.
/// The two sliders are held back, under a new number, and everything else is
/// sent at once.
pub proof fn changes_are_remembered_and_sent(
    settling: SettlingView,
    mac: Seq<char>,
    airpods: AirPodsView,
    change: ControlChange,
)
    ensures
        ({
            let after = crate::ui::gtk::controls::changed_airpods(airpods, change);
            let holds = crate::ui::gtk::controls::changed_holds(settling, mac, airpods, change);
            let effects = crate::ui::gtk::controls::change_effects(settling, mac, airpods, change);
            let id = change.identifier();
            let slider = change is ToneVolume || change is AdaptiveNoise;
            &&& change.value(airpods) is None ==> after == airpods && holds == settling
                && effects.len() == 0
            &&& change.value(airpods) matches Some(value) ==> {
                &&& after == (AirPodsView {
                    control_values: airpods.control_values.insert(id.number(), value),
                    ..airpods
                })
                &&& !slider ==> holds == settling && effects == seq![
                    EffectView::SendControl { mac, identifier: id, value },
                ]
                &&& slider ==> effects.len() == 1 && effects[0] is SettleControl
                    && effects[0]->SettleControl_mac == mac
                    && effects[0]->SettleControl_identifier == id
                    && holds.pending.contains_key((mac, id.number()))
                    && holds.pending[(mac, id.number())] == (
                    effects[0]->SettleControl_generation,
                    value,
                ) && effects[0]->SettleControl_generation != settling.next
            }
        }),
{
}

/// What was held goes out under the setting it was held for, and not to AirPods
/// that went away.
pub proof fn a_held_value_goes_out_as_it_is(
    settling: SettlingView,
    mac: Seq<char>,
    connected: bool,
    id: ControlCommandIdentifiers,
    generation: u64,
)
    ensures
        ({
            let effects = crate::ui::gtk::controls::settled_effects(
                settling,
                mac,
                connected,
                id,
                generation,
            );
            let held = settling.pending.contains_key((mac, id.number())) && settling.pending[(
                mac,
                id.number(),
            )].0 == generation;
            &&& held && connected ==> effects == seq![
                EffectView::SendControl {
                    mac,
                    identifier: id,
                    value: settling.pending[(mac, id.number())].1,
                },
            ]
            &&& !held || !connected ==> effects.len() == 0
        }),
{
}

/// A switch is shown once it was reported, on for the single byte 1 and off for
/// anything else.
pub proof fn reported_switches_are_shown(airpods: AirPodsView, id: ControlCommandIdentifiers)
    ensures
        airpods.switched(id) is Some <==> airpods.control_values.contains_key(id.number()),
        airpods.control_values.contains_key(id.number()) ==> (airpods.switched(id) == Some(true)
            <==> airpods.control_values[id.number()] == seq![1u8]),
{
    crate::bluetooth::settings::bytes_have_their_meaning(airpods.control_values[id.number()]);
}

/// The sliders are shown once they were reported: the tone volume at its first
/// byte, or at 75 where that is no percentage, and Adaptive Audio at what its
/// byte is short of 100, or at 50.
pub proof fn reported_sliders_are_shown(airpods: AirPodsView)
    ensures
        ({
            let tone = airpods.control_values[ControlCommandIdentifiers::ChimeVolume.number()];
            let noise = airpods.control_values[ControlCommandIdentifiers::AutoAncStrength.number()];
            let tone_at = crate::ui::gtk::controls::tone_volume_of(airpods);
            let noise_at = crate::ui::gtk::controls::adaptive_noise_of(airpods);
            &&& tone_at is Some <==> airpods.has(ControlCommandIdentifiers::ChimeVolume)
            &&& noise_at is Some <==> airpods.has(ControlCommandIdentifiers::AutoAncStrength)
            &&& tone_at is Some && tone.len() > 0 && tone[0] <= 100 ==> tone_at == Some(tone[0])
            &&& tone_at is Some && (tone.len() == 0 || tone[0] > 100) ==> tone_at == Some(75u8)
            &&& noise_at is Some && noise.len() == 1 && noise[0] <= 100 ==> noise_at->0 + noise[0]
                == 100
            &&& noise_at is Some && (noise.len() != 1 || noise[0] > 100) ==> noise_at == Some(50u8)
        }),
{
}

/// The press that hangs up is the one that does not mute.
pub proof fn the_other_press_hangs_up(airpods: AirPodsView)
    ensures
        ({
            let id = ControlCommandIdentifiers::CallManagementConfig;
            let value = airpods.control_values[id.number()];
            &&& airpods.hang_up() is Some <==> airpods.has(id)
            &&& airpods.has(id) && value == seq![0u8, 3u8] ==> airpods.hang_up() == Some(
                "Press Twice"@,
            )
            &&& airpods.has(id) && value == seq![0u8, 2u8] ==> airpods.hang_up() == Some(
                "Press Once"@,
            )
            &&& airpods.has(id) && value != seq![0u8, 3u8] && value != seq![0u8, 2u8]
                ==> airpods.hang_up() == Some(""@)
        }),
{
    let id = ControlCommandIdentifiers::CallManagementConfig;
    crate::bluetooth::settings::bytes_have_their_meaning(airpods.control_values[id.number()]);
}

/// A row of the press and hold cycle shows whether its mode is in the reported
/// cycle. It is locked where the mode is one of the last two, where the cycle
/// means nothing, and for Off that would join while it is not allowed; Off shows
/// only while it is allowed.
pub proof fn the_rows_show_the_cycle(airpods: AirPodsView, mode: CycleMode)
    ensures
        ({
            let row = crate::ui::gtk::controls::cycle_row_of(airpods, mode);
            let cycle = airpods.decoded::<ListeningModeCycle>(
                ControlCommandIdentifiers::ListeningModeConfigs,
            );
            &&& row.mode == mode
            &&& row.shown <==> !(mode is Off) || airpods.allow_off
            &&& row.on <==> cycle is Some && cycle->0.includes(mode)
            &&& row.locked <==> cycle is None || (cycle->0.includes(mode) && cycle->0.size() <= 2)
                || (mode is Off && !cycle->0.includes(mode) && !airpods.allow_off)
        }),
{
}

/// A mode that is added to the cycle or taken out is sent as the reported byte
/// with the weight of the mode, 1 for Off, 2 for noise cancellation, 4 for
/// transparency and 8 for adaptive, added or taken off.
pub proof fn the_cycle_is_sent_with_one_bit_changed(airpods: AirPodsView, mode: CycleMode, on: bool)
    ensures
        ({
            let id = ControlCommandIdentifiers::ListeningModeConfigs;
            let change = ControlChange::CycleMode(mode, on);
            let weight: int = match mode {
                CycleMode::Off => 1,
                CycleMode::NoiseCancellation => 2,
                CycleMode::Transparency => 4,
                CycleMode::Adaptive => 8,
            };
            let cycle = airpods.decoded::<ListeningModeCycle>(id);
            &&& change.identifier() == id
            &&& change.value(airpods) matches Some(sent) ==> {
                &&& cycle is Some
                &&& sent.len() == 1
                &&& on ==> sent[0] == cycle->0.bytes()[0] + weight
                &&& !on ==> sent[0] + weight == cycle->0.bytes()[0]
            }
            &&& cycle is Some && cycle->0.includes(mode) != on && (on ==> !(mode is Off)
                || airpods.allow_off) && (!on ==> cycle->0.size() > 2) ==> change.value(
                airpods,
            ) is Some
        }),
{
}

/// The number of the next change is another one, one higher but for the last.
pub proof fn the_next_number_is_another(generation: u64)
    ensures
        crate::ui::gtk::controls::next_generation(generation) != generation,
        generation < 0xFFFF_FFFF_FFFF_FFFF ==> crate::ui::gtk::controls::next_generation(generation)
            == generation + 1,
        generation == 0xFFFF_FFFF_FFFF_FFFF ==> crate::ui::gtk::controls::next_generation(generation)
            == 0,
{
}

/// A slider rests for 300 milliseconds before it is sent, a band for 150.
pub proof fn changes_rest_before_they_are_sent()
    ensures
        crate::ui::gtk::controls::SETTLE_DELAY_MILLIS == 300,
        crate::ui::gtk::model::equalizer::EQ_SEND_DELAY_MILLIS == 150,
        crate::ui::equalizer::SEND_DELAY_MILLIS == 150,
        crate::time::NANOS_PER_MILLI == 1_000_000,
        crate::time::NANOS_PER_SEC == 1_000_000_000,
        crate::ui::gtk::controls::SLIDER_STEP == 5,
        crate::audio::mic_test::MAX_RECORDING_SECS == 300,
        crate::audio::mic_test::SKIP_SECS == 5,
{
}

} // verus!
