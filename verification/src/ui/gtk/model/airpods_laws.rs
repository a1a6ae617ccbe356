//! What the reports of the AirPods and the switches of their page do.

use crate::bluetooth::aacp::{
    AACPEvent, BatteryInfo, ControlCommandIdentifiers, ControlCommandStatus,
};
use crate::bluetooth::eq::CustomEq;
use crate::devices::enums::{AirPodsNoiseControlMode, NothingAncMode};
use crate::ui::gtk::model::{
    AirPodsSnapshot, AirPodsView, DeviceSnapshot, EffectView, Input, ModelView,
};
use crate::ui::messages::BluetoothUIMessage;
use vstd::prelude::*;

verus! {

/// The input that brings a report of one setting.
pub open spec fn report(mac: String, status: ControlCommandStatus) -> Input {
    Input::Backend(BluetoothUIMessage::AACPUIEvent(mac, AACPEvent::ControlCommand(status)))
}

/// What AirPods show after a report of one setting.
pub open spec fn shown_after(model: ModelView, mac: String, status: ControlCommandStatus) -> AirPodsView {
    model.after(report(mac, status)).airpods[mac@]
}

/// A report of a switch sets that switch to what its byte says, 1 for on and 2
/// for off, whatever it was before, and no other switch.
pub proof fn a_report_sets_its_switch(model: ModelView, mac: String, status: ControlCommandStatus)
    requires
        model.airpods.contains_key(mac@),
        status.value@.len() == 1,
        status.value@[0] == 1 || status.value@[0] == 2,
    ensures
        ({
            let before = model.airpods[mac@];
            let after = shown_after(model, mac, status);
            let on = status.value@[0] == 1;
            let volume = status.identifier == ControlCommandIdentifiers::AdaptiveVolumeConfig;
            let awareness = status.identifier
                == ControlCommandIdentifiers::ConversationDetectConfig;
            let off = status.identifier == ControlCommandIdentifiers::AllowOffOption;
            &&& volume ==> after.personalized_volume == on
            &&& awareness ==> after.conversation_awareness == on
            &&& off ==> after.allow_off == on
            &&& !volume ==> after.personalized_volume == before.personalized_volume
            &&& !awareness ==> after.conversation_awareness == before.conversation_awareness
            &&& !off ==> after.allow_off == before.allow_off
            &&& volume || awareness || off ==> after.listening_mode == before.listening_mode
        }),
{
    assert(status.value@[0] == 1 ==> status.value@ =~= seq![0x01u8]);
    assert(seq![0x01u8][0] == 0x01u8);
}

/// Bytes that are neither on nor off leave a switch off.
pub proof fn strange_reports_turn_a_switch_off(
    model: ModelView,
    mac: String,
    status: ControlCommandStatus,
)
    requires
        model.airpods.contains_key(mac@),
        status.value@.len() != 1 || status.value@[0] != 1,
    ensures
        ({
            let after = shown_after(model, mac, status);
            &&& status.identifier == ControlCommandIdentifiers::AdaptiveVolumeConfig
                ==> !after.personalized_volume
            &&& status.identifier == ControlCommandIdentifiers::ConversationDetectConfig
                ==> !after.conversation_awareness
            &&& status.identifier == ControlCommandIdentifiers::AllowOffOption ==> !after.allow_off
        }),
{
    assert(seq![0x01u8].len() == 1 && seq![0x01u8][0] == 0x01u8);
}

/// The same report shows the same switches and the same listening mode where
/// it speaks of them, in whatever states the AirPods were before.
pub proof fn what_was_shown_before_does_not_matter(
    one: ModelView,
    other: ModelView,
    mac: String,
    status: ControlCommandStatus,
)
    requires
        one.airpods.contains_key(mac@),
        other.airpods.contains_key(mac@),
    ensures
        ({
            let a = shown_after(one, mac, status);
            let b = shown_after(other, mac, status);
            &&& status.identifier == ControlCommandIdentifiers::AdaptiveVolumeConfig
                ==> a.personalized_volume == b.personalized_volume
            &&& status.identifier == ControlCommandIdentifiers::ConversationDetectConfig
                ==> a.conversation_awareness == b.conversation_awareness
            &&& status.identifier == ControlCommandIdentifiers::AllowOffOption ==> a.allow_off
                == b.allow_off
            &&& status.identifier == ControlCommandIdentifiers::ListeningMode ==> a.listening_mode
                == b.listening_mode
            &&& a.control_values[status.identifier.number()]
                == b.control_values[status.identifier.number()]
        }),
{
}

/// A report of the listening mode shows the mode of its first byte: 1 is off, 2
/// noise cancellation, 3 transparency and 4 adaptive. Any other byte counts as
/// off, and an empty report as transparency. No other report changes the mode.
pub proof fn a_report_sets_the_listening_mode(
    model: ModelView,
    mac: String,
    status: ControlCommandStatus,
)
    requires
        model.airpods.contains_key(mac@),
    ensures
        ({
            let before = model.airpods[mac@];
            let after = shown_after(model, mac, status);
            let mode = status.identifier == ControlCommandIdentifiers::ListeningMode;
            let given = status.value@.len() > 0;
            let first = status.value@[0];
            &&& mode && given && first == 1 ==> after.listening_mode is Off
            &&& mode && given && first == 2 ==> after.listening_mode is NoiseCancellation
            &&& mode && given && first == 3 ==> after.listening_mode is Transparency
            &&& mode && given && first == 4 ==> after.listening_mode is Adaptive
            &&& mode && given && (first == 0 || first > 4) ==> after.listening_mode is Off
            &&& mode && !given ==> after.listening_mode is Transparency
            &&& mode ==> after.conversation_awareness == before.conversation_awareness
                && after.personalized_volume == before.personalized_volume && after.allow_off
                == before.allow_off
            &&& !mode ==> after.listening_mode == before.listening_mode
        }),
{
}

/// Every report is remembered as it came, under the number of its setting and
/// under no other; what else is known of the AirPods stays.
pub proof fn reports_are_remembered(
    model: ModelView,
    mac: String,
    status: ControlCommandStatus,
    number: u8,
    other: Seq<char>,
)
    requires
        model.airpods.contains_key(mac@),
        other != mac@,
    ensures
        ({
            let before = model.airpods[mac@];
            let after = shown_after(model, mac, status);
            &&& model.after(report(mac, status)).airpods.contains_key(mac@)
            &&& after.control_values.contains_key(status.identifier.number())
            &&& after.control_values[status.identifier.number()] == status.value@
            &&& number != status.identifier.number() ==> (after.control_values.contains_key(number)
                <==> before.control_values.contains_key(number)) && after.control_values[number]
                == before.control_values[number]
            &&& after.name == before.name
            &&& after.battery == before.battery
            &&& after.custom_eq == before.custom_eq
            &&& model.after(report(mac, status)).airpods[other] == model.airpods[other]
            &&& model.effects_after(report(mac, status)) == seq![EffectView::LoadDevices]
        }),
{
}

/// A battery report replaces the battery levels and nothing else of the
/// AirPods. Its case level is remembered, and one without it keeps the last.
pub proof fn a_battery_report_replaces_the_levels(
    model: ModelView,
    mac: String,
    battery: Vec<BatteryInfo>,
)
    requires
        model.airpods.contains_key(mac@),
    ensures
        ({
            let after = model.after(
                Input::Backend(
                    BluetoothUIMessage::AACPUIEvent(mac, AACPEvent::BatteryInfo(battery)),
                ),
            );
            let case = crate::ui::format::case_level(battery@);
            &&& after.airpods[mac@].battery == battery@
            &&& after.airpods[mac@] == (AirPodsView { battery: battery@, ..model.airpods[mac@] })
            &&& after.airpods.dom() == model.airpods.dom()
            &&& case is Some ==> after.last_case_level.contains_key(mac@)
                && after.last_case_level[mac@] == case->0
            &&& case is None ==> after.last_case_level == model.last_case_level
            &&& after.connected == model.connected
            &&& after.selection == model.selection
        }),
{
    assert(model.airpods.insert(
        mac@,
        AirPodsView { battery: battery@, ..model.airpods[mac@] },
    ).dom() =~= model.airpods.dom());
}

/// A reported equalizer is the one that is known from then on, and nothing else
/// changes.
pub proof fn a_reported_equalizer_is_known(model: ModelView, mac: String, eq: CustomEq)
    requires
        model.airpods.contains_key(mac@),
    ensures
        ({
            let after = model.after(
                Input::Backend(BluetoothUIMessage::AACPUIEvent(mac, AACPEvent::CustomEq(eq))),
            );
            &&& after.airpods[mac@] == (AirPodsView {
                custom_eq: Some(eq),
                ..model.airpods[mac@]
            })
            &&& after.eq_sends == model.eq_sends
            &&& after.last_case_level == model.last_case_level
        }),
{
}

/// An event of AirPods that are not shown changes no live state; only a case
/// level is remembered.
pub proof fn events_of_strangers_show_nothing(model: ModelView, mac: String, event: AACPEvent)
    requires
        !model.airpods.contains_key(mac@),
    ensures
        ({
            let after = model.after(Input::Backend(BluetoothUIMessage::AACPUIEvent(mac, event)));
            &&& after.airpods == model.airpods
            &&& !(event is BatteryInfo) ==> after == model
            &&& event matches AACPEvent::BatteryInfo(battery) ==> {
                let case = crate::ui::format::case_level(battery@);
                &&& case is Some ==> after.last_case_level == model.last_case_level.insert(
                    mac@,
                    case->0,
                )
                &&& case is None ==> after == model
            }
        }),
{
}

proof fn lemma_all_reported(airpods: AirPodsView, controls: Seq<ControlCommandStatus>, at: int)
    requires
        0 <= at < controls.len(),
        forall|later: int|
            at < later < controls.len() ==> (#[trigger] controls[later]).identifier
                != controls[at].identifier,
    ensures
        ({
            let shown = airpods.all_reported(controls);
            let status = controls[at];
            let on = status.value@.len() == 1 && status.value@[0] == 1;
            &&& shown.control_values.contains_key(status.identifier.number())
            &&& shown.control_values[status.identifier.number()] == status.value@
            &&& status.identifier == ControlCommandIdentifiers::AdaptiveVolumeConfig
                ==> shown.personalized_volume == on
            &&& status.identifier == ControlCommandIdentifiers::ConversationDetectConfig
                ==> shown.conversation_awareness == on
            &&& status.identifier == ControlCommandIdentifiers::AllowOffOption ==> shown.allow_off
                == on
            &&& status.identifier == ControlCommandIdentifiers::ListeningMode
                ==> shown.listening_mode == crate::ui::gtk::model::reported_mode(status.value@)
        }),
    decreases controls.len(),
{
    let status = controls[at];
    let on = status.value@.len() == 1 && status.value@[0] == 1;
    assert(on ==> status.value@ =~= seq![0x01u8]);
    assert(seq![0x01u8].len() == 1 && seq![0x01u8][0] == 0x01u8);
    if at < controls.len() - 1 {
        let rest = controls.drop_last();
        assert forall|later: int| at < later < rest.len() implies (#[trigger] rest[later]).identifier
            != rest[at].identifier by {
            assert(rest[later] == controls[later]);
        }
        lemma_all_reported(airpods, rest, at);
        assert(controls[controls.len() - 1].identifier != status.identifier);
        if controls.last().identifier.number() == status.identifier.number() {
            crate::bluetooth::aacp::numbers_tell_commands_apart(
                controls.last().identifier,
                status.identifier,
            );
        }
    }
}

proof fn lemma_not_reported(
    airpods: AirPodsView,
    controls: Seq<ControlCommandStatus>,
    identifier: ControlCommandIdentifiers,
)
    requires
        forall|i: int| 0 <= i < controls.len() ==> (#[trigger] controls[i]).identifier != identifier,
    ensures
        ({
            let shown = airpods.all_reported(controls);
            &&& identifier == ControlCommandIdentifiers::AdaptiveVolumeConfig
                ==> shown.personalized_volume == airpods.personalized_volume
            &&& identifier == ControlCommandIdentifiers::ConversationDetectConfig
                ==> shown.conversation_awareness == airpods.conversation_awareness
            &&& identifier == ControlCommandIdentifiers::AllowOffOption ==> shown.allow_off
                == airpods.allow_off
            &&& identifier == ControlCommandIdentifiers::ListeningMode ==> shown.listening_mode
                == airpods.listening_mode
            &&& shown.control_values.contains_key(identifier.number())
                ==> airpods.control_values.contains_key(identifier.number())
        }),
    decreases controls.len(),
{
    if controls.len() > 0 {
        let rest = controls.drop_last();
        assert forall|i: int| 0 <= i < rest.len() implies (#[trigger] rest[i]).identifier
            != identifier by {
            assert(rest[i] == controls[i]);
        }
        lemma_not_reported(airpods, rest, identifier);
        assert(controls[controls.len() - 1].identifier != identifier);
        if controls.last().identifier.number() == identifier.number() {
            crate::bluetooth::aacp::numbers_tell_commands_apart(
                controls.last().identifier,
                identifier,
            );
        }
    }
}

proof fn lemma_kept(airpods: AirPodsView, controls: Seq<ControlCommandStatus>)
    ensures
        ({
            let shown = airpods.all_reported(controls);
            &&& shown.name == airpods.name
            &&& shown.battery == airpods.battery
            &&& shown.custom_eq == airpods.custom_eq
        }),
    decreases controls.len(),
{
    if controls.len() > 0 {
        lemma_kept(airpods, controls.drop_last());
    }
}

/// Connected AirPods whose state was read are shown under their saved name, with
/// the battery and the equalizer that were read, and each setting as its last
/// report says.
pub proof fn a_snapshot_is_shown(
    model: ModelView,
    mac: String,
    snapshot: AirPodsSnapshot,
    at: int,
)
    requires
        model.connected.contains(mac@),
        0 <= at < snapshot.controls@.len(),
        forall|later: int|
            at < later < snapshot.controls@.len() ==> (#[trigger] snapshot.controls@[later]).identifier
                != snapshot.controls@[at].identifier,
    ensures
        ({
            let after = model.after(
                Input::Snapshot(mac, Some(DeviceSnapshot::AirPods(snapshot))),
            );
            let shown = after.airpods[mac@];
            let status = snapshot.controls@[at];
            let on = status.value@.len() == 1 && status.value@[0] == 1;
            &&& after.airpods.contains_key(mac@)
            &&& shown.control_values.contains_key(status.identifier.number())
            &&& shown.control_values[status.identifier.number()] == status.value@
            &&& status.identifier == ControlCommandIdentifiers::AdaptiveVolumeConfig
                ==> shown.personalized_volume == on
            &&& status.identifier == ControlCommandIdentifiers::ConversationDetectConfig
                ==> shown.conversation_awareness == on
            &&& status.identifier == ControlCommandIdentifiers::AllowOffOption ==> shown.allow_off
                == on
            &&& status.identifier == ControlCommandIdentifiers::ListeningMode && status.value@
                == seq![1u8] ==> shown.listening_mode is Off
            &&& status.identifier == ControlCommandIdentifiers::ListeningMode && status.value@
                == seq![2u8] ==> shown.listening_mode is NoiseCancellation
            &&& status.identifier == ControlCommandIdentifiers::ListeningMode && status.value@
                == seq![4u8] ==> shown.listening_mode is Adaptive
        }),
{
    let start = AirPodsView::fresh(
        if model.devices.contains_key(mac@) {
            model.devices[mac@].name
        } else {
            "AirPods"@
        },
        snapshot.battery@,
        snapshot.custom_eq,
    );
    lemma_all_reported(start, snapshot.controls@, at);
    assert(seq![1u8][0] == 1 && seq![2u8][0] == 2 && seq![4u8][0] == 4);
}

/// What a snapshot shows whatever settings it holds: its battery and equalizer,
/// the saved name or else "AirPods", and for a setting that it does not hold a
/// switch that is off, or transparency. A device that went away meanwhile shows
/// nothing.
pub proof fn a_snapshot_starts_from_nothing(
    model: ModelView,
    mac: String,
    snapshot: AirPodsSnapshot,
    identifier: ControlCommandIdentifiers,
)
    requires
        forall|i: int|
            0 <= i < snapshot.controls@.len() ==> (#[trigger] snapshot.controls@[i]).identifier
                != identifier,
    ensures
        ({
            let after = model.after(
                Input::Snapshot(mac, Some(DeviceSnapshot::AirPods(snapshot))),
            );
            let shown = after.airpods[mac@];
            let case = crate::ui::format::case_level(snapshot.battery@);
            &&& !model.connected.contains(mac@) ==> after == model
            &&& model.connected.contains(mac@) ==> {
                &&& model.devices.contains_key(mac@) ==> shown.name == model.devices[mac@].name
                &&& !model.devices.contains_key(mac@) ==> shown.name == "AirPods"@
                &&& shown.battery == snapshot.battery@
                &&& shown.custom_eq == snapshot.custom_eq
                &&& case is Some ==> after.last_case_level == model.last_case_level.insert(
                    mac@,
                    case->0,
                )
                &&& case is None ==> after.last_case_level == model.last_case_level
                &&& identifier == ControlCommandIdentifiers::AdaptiveVolumeConfig
                    ==> !shown.personalized_volume
                &&& identifier == ControlCommandIdentifiers::ConversationDetectConfig
                    ==> !shown.conversation_awareness
                &&& identifier == ControlCommandIdentifiers::AllowOffOption ==> !shown.allow_off
                &&& identifier == ControlCommandIdentifiers::ListeningMode
                    ==> shown.listening_mode is Transparency
                &&& !shown.control_values.contains_key(identifier.number())
            }
        }),
{
    let start = AirPodsView::fresh(
        if model.devices.contains_key(mac@) {
            model.devices[mac@].name
        } else {
            "AirPods"@
        },
        snapshot.battery@,
        snapshot.custom_eq,
    );
    lemma_kept(start, snapshot.controls@);
    lemma_not_reported(start, snapshot.controls@, identifier);
}

/// A Nothing device whose state was read starts with noise control off, and is
/// set to the mode that is chosen, which is sent as its byte.
pub proof fn a_nothing_device_starts_off(model: ModelView, mac: String, mode: NothingAncMode)
    requires
        model.connected.contains(mac@),
    ensures
        ({
            let read = model.after(Input::Snapshot(mac, Some(DeviceSnapshot::Nothing)));
            let set = Input::SetNothingAnc(mac, mode);
            &&& read.nothing.contains_key(mac@)
            &&& read.nothing[mac@] is Off
            &&& read.airpods == model.airpods
            &&& read.after(set).nothing[mac@] == mode
            &&& read.effects_after(set).len() == 1
            &&& read.effects_after(set)[0] is SetNothingAnc
            &&& read.effects_after(set)[0]->SetNothingAnc_mac == mac@
            &&& mode is HighNoiseCancellation ==> read.effects_after(set)[0]->mode == 1
            &&& mode is MidNoiseCancellation ==> read.effects_after(set)[0]->mode == 2
            &&& mode is LowNoiseCancellation ==> read.effects_after(set)[0]->mode == 3
            &&& mode is AdaptiveNoiseCancellation ==> read.effects_after(set)[0]->mode == 4
            &&& mode is Off ==> read.effects_after(set)[0]->mode == 5
            &&& mode is Transparency ==> read.effects_after(set)[0]->mode == 7
            &&& !model.nothing.contains_key(mac@) ==> model.after(set) == model
                && model.effects_after(set).len() == 0
        }),
{
}

/// Choosing a listening mode of connected AirPods shows it and sends it; the
/// AirPods' own report of what was sent shows the same mode.
pub proof fn a_chosen_mode_is_shown_and_sent(
    model: ModelView,
    mac: String,
    mode: AirPodsNoiseControlMode,
    status: ControlCommandStatus,
)
    requires
        model.airpods.contains_key(mac@),
    ensures
        ({
            let set = Input::SetListeningMode(mac, mode);
            let after = model.after(set).airpods[mac@];
            let effects = model.effects_after(set);
            &&& after.listening_mode == mode
            &&& after.allow_off == model.airpods[mac@].allow_off
            &&& after.personalized_volume == model.airpods[mac@].personalized_volume
            &&& after.conversation_awareness == model.airpods[mac@].conversation_awareness
            &&& after.battery == model.airpods[mac@].battery
            &&& after.custom_eq == model.airpods[mac@].custom_eq
            &&& effects.len() == 1
            &&& effects[0] is SendControl
            &&& effects[0]->SendControl_mac == mac@
            &&& effects[0]->SendControl_identifier == ControlCommandIdentifiers::ListeningMode
            &&& effects[0]->SendControl_value == after.control_values[0x0D]
            &&& status.identifier == ControlCommandIdentifiers::ListeningMode && status.value@
                == effects[0]->SendControl_value ==> shown_after(model, mac, status).listening_mode
                == mode
            &&& mode is Off ==> effects[0]->SendControl_value == seq![1u8]
            &&& mode is NoiseCancellation ==> effects[0]->SendControl_value == seq![2u8]
            &&& mode is Transparency ==> effects[0]->SendControl_value == seq![3u8]
            &&& mode is Adaptive ==> effects[0]->SendControl_value == seq![4u8]
        }),
{
    assert(seq![crate::devices::enums::listening_byte(mode)][0]
        == crate::devices::enums::listening_byte(mode));
}

/// The two switches that go out as control commands show what was chosen, send
/// 1 for on and 2 for off under their own number and touch nothing else.
pub proof fn switches_are_shown_and_sent(model: ModelView, mac: String, on: bool)
    requires
        model.airpods.contains_key(mac@),
    ensures
        ({
            let before = model.airpods[mac@];
            let byte = if on {
                1u8
            } else {
                2u8
            };
            let volume = Input::SetPersonalizedVolume(mac, on);
            let off = Input::SetAllowOff(mac, on);
            &&& model.after(volume).airpods[mac@] == (AirPodsView {
                personalized_volume: on,
                control_values: before.control_values.insert(0x26, seq![byte]),
                ..before
            })
            &&& model.after(off).airpods[mac@] == (AirPodsView {
                allow_off: on,
                control_values: before.control_values.insert(0x34, seq![byte]),
                ..before
            })
            &&& model.effects_after(volume) == seq![
                EffectView::SendControl {
                    mac: mac@,
                    identifier: ControlCommandIdentifiers::AdaptiveVolumeConfig,
                    value: seq![byte],
                },
            ]
            &&& model.effects_after(off) == seq![
                EffectView::SendControl {
                    mac: mac@,
                    identifier: ControlCommandIdentifiers::AllowOffOption,
                    value: seq![byte],
                },
            ]
        }),
{
}

/// Conversation awareness shows what was chosen and hands the choice on, while
/// no capture locks it.
pub proof fn conversation_awareness_is_shown_and_sent(model: ModelView, mac: String, on: bool)
    requires
        model.airpods.contains_key(mac@),
        !model.settings.hires_mic_pause_convo || !model.mic.capture.contains_key(mac@)
            || !model.mic.capture[mac@].active,
    ensures
        ({
            let set = Input::SetConversationAwareness(mac, on);
            &&& model.after(set).airpods[mac@] == (AirPodsView {
                conversation_awareness: on,
                ..model.airpods[mac@]
            })
            &&& model.effects_after(set) == seq![
                EffectView::SetConversationDetection { mac: mac@, enabled: on },
            ]
        }),
{
}

/// Off is offered exactly where it is allowed, and first; the three other modes
/// always are, in this order.
pub proof fn off_is_offered_where_it_is_allowed(airpods: AirPodsView)
    ensures
        ({
            let modes = airpods.offered_modes();
            let skipped: int = if airpods.allow_off {
                1
            } else {
                0
            };
            &&& modes.len() == 3 + skipped
            &&& airpods.allow_off ==> modes[0] is Off
            &&& modes[skipped] is Transparency
            &&& modes[skipped + 1] is NoiseCancellation
            &&& modes[skipped + 2] is Adaptive
        }),
{
}

} // verus!
