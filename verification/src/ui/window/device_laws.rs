//! What the window keeps of its devices, and what changing them does.

use crate::bluetooth::aacp::{
    AACPEvent, BatteryInfo, ControlCommandIdentifiers, ControlCommandStatus,
};
use crate::bluetooth::eq::CustomEq;
use crate::devices::enums::{
    AirPodsNoiseControlMode, DeviceDataView, DeviceType, NothingAncMode,
};
use crate::devices::state::{AirPodsStateView, DeviceStateView};
use crate::ui::gtk::controls::ControlChange;
use crate::ui::gtk::model::equalizer::EqBand;
use crate::ui::gtk::model::AirPodsView;
use crate::ui::messages::BluetoothUIMessage;
use crate::ui::window::{
    AirPodsChange, AirPodsReport, AppTaskView, AppView, ConnectProgressView, Message, Reading,
    TabView,
};
use crate::utils::AppSettings;
use vstd::prelude::*;

verus! {

/// The AirPods of a window.
pub open spec fn pods(app: AppView, mac: Seq<char>) -> AirPodsStateView {
    app.states[mac]->AirPods_0
}

/// Whether a window has live state of AirPods.
pub open spec fn has_pods(app: AppView, mac: Seq<char>) -> bool {
    app.states.contains_key(mac) && app.states[mac] is AirPods
}

/// A report of a switch sets that switch to what its byte says, 1 for on and
/// anything else for off, whatever it was before, and no other switch. The
/// equalizer and the microphone switch stay.
pub proof fn a_report_sets_its_switch(
    app: AppView,
    mac: String,
    status: ControlCommandStatus,
    reading: Reading,
)
    requires
        has_pods(app, mac@),
    ensures
        ({
            let after = app.after(
                Message::BluetoothMessage(
                    BluetoothUIMessage::AACPUIEvent(mac, AACPEvent::ControlCommand(status)),
                    reading,
                ),
            );
            let was = pods(app, mac@).pods;
            let is = pods(after, mac@).pods;
            let on = status.value@.len() == 1 && status.value@[0] == 1;
            let volume = status.identifier == ControlCommandIdentifiers::AdaptiveVolumeConfig;
            let awareness = status.identifier
                == ControlCommandIdentifiers::ConversationDetectConfig;
            let off = status.identifier == ControlCommandIdentifiers::AllowOffOption;
            let mode = status.identifier == ControlCommandIdentifiers::ListeningMode;
            &&& has_pods(after, mac@)
            &&& volume ==> is.personalized_volume == on
            &&& awareness ==> is.conversation_awareness == on
            &&& off ==> is.allow_off == on
            &&& mode && status.value@ == seq![1u8] ==> is.listening_mode is Off
            &&& mode && status.value@ == seq![2u8] ==> is.listening_mode is NoiseCancellation
            &&& mode && status.value@ == seq![3u8] ==> is.listening_mode is Transparency
            &&& mode && status.value@ == seq![4u8] ==> is.listening_mode is Adaptive
            &&& !volume ==> is.personalized_volume == was.personalized_volume
            &&& !awareness ==> is.conversation_awareness == was.conversation_awareness
            &&& !off ==> is.allow_off == was.allow_off
            &&& !mode ==> is.listening_mode == was.listening_mode
            &&& is.control_values == was.control_values.insert(
                status.identifier.number(),
                status.value@,
            )
            &&& is.battery == was.battery
            &&& is.name == was.name
            &&& pods(after, mac@).custom_eq == pods(app, mac@).custom_eq
            &&& pods(after, mac@).hires_mic_enabled == pods(app, mac@).hires_mic_enabled
        }),
{
    assert(status.value@.len() == 1 && status.value@[0] == 1 ==> status.value@ =~= seq![0x01u8]);
    assert(seq![0x01u8].len() == 1 && seq![0x01u8][0] == 0x01u8);
    assert(seq![2u8][0] == 2 && seq![3u8][0] == 3 && seq![4u8][0] == 4);
}

/// A battery report replaces the battery levels and nothing else of the AirPods;
/// its case level is remembered. An equalizer that the AirPods report does not
/// replace the one that is shown.
pub proof fn other_events_touch_the_battery_only(
    app: AppView,
    mac: String,
    battery: Vec<BatteryInfo>,
    eq: CustomEq,
    reading: Reading,
)
    requires
        has_pods(app, mac@),
    ensures
        ({
            let levels = app.after(
                Message::BluetoothMessage(
                    BluetoothUIMessage::AACPUIEvent(mac, AACPEvent::BatteryInfo(battery)),
                    reading,
                ),
            );
            let told = app.after(
                Message::BluetoothMessage(
                    BluetoothUIMessage::AACPUIEvent(mac, AACPEvent::CustomEq(eq)),
                    reading,
                ),
            );
            let case = crate::ui::format::case_level(battery@);
            &&& has_pods(levels, mac@)
            &&& pods(levels, mac@).pods == (AirPodsView {
                battery: battery@,
                ..pods(app, mac@).pods
            })
            &&& pods(levels, mac@).custom_eq == pods(app, mac@).custom_eq
            &&& pods(levels, mac@).hires_mic_enabled == pods(app, mac@).hires_mic_enabled
            &&& case is Some ==> levels.last_case_level == app.last_case_level.insert(mac@, case->0)
            &&& case is None ==> levels.last_case_level == app.last_case_level
            &&& levels.devices == reading.devices@
            &&& told.states == app.states
            &&& told.devices == reading.devices@
        }),
{
}

proof fn lemma_values(controls: Seq<ControlCommandStatus>, at: int)
    requires
        0 <= at < controls.len(),
        forall|later: int|
            at < later < controls.len() ==> (#[trigger] controls[later]).identifier
                != controls[at].identifier,
    ensures
        ({
            let values = crate::ui::window::values_of(controls);
            &&& values.contains_key(controls[at].identifier.number())
            &&& values[controls[at].identifier.number()] == controls[at].value@
        }),
    decreases controls.len(),
{
    if at < controls.len() - 1 {
        let rest = controls.drop_last();
        assert forall|later: int| at < later < rest.len() implies (#[trigger] rest[later]).identifier
            != rest[at].identifier by {
            assert(rest[later] == controls[later]);
        }
        lemma_values(rest, at);
        assert(controls[controls.len() - 1].identifier != controls[at].identifier);
        if controls.last().identifier.number() == controls[at].identifier.number() {
            crate::bluetooth::aacp::numbers_tell_commands_apart(
                controls.last().identifier,
                controls[at].identifier,
            );
        }
    }
}

proof fn lemma_first_mode(controls: Seq<ControlCommandStatus>, at: int)
    requires
        0 <= at < controls.len(),
        controls[at].identifier == ControlCommandIdentifiers::ListeningMode,
        controls[at].value@.len() > 0,
        forall|i: int|
            0 <= i < at ==> (#[trigger] controls[i]).identifier
                != ControlCommandIdentifiers::ListeningMode || controls[i].value@.len() == 0,
    ensures
        crate::ui::window::first_mode(controls) == Some(
            crate::devices::enums::listening_of(controls[at].value@[0]),
        ),
    decreases controls.len(),
{
    if at > 0 {
        let rest = controls.skip(1);
        assert(rest[at - 1] == controls[at]);
        assert forall|i: int| 0 <= i < at - 1 implies (#[trigger] rest[i]).identifier
            != ControlCommandIdentifiers::ListeningMode || rest[i].value@.len() == 0 by {
            assert(rest[i] == controls[i + 1]);
        }
        assert(controls[0].identifier != ControlCommandIdentifiers::ListeningMode
            || controls[0].value@.len() == 0);
        lemma_first_mode(rest, at - 1);
    }
}

proof fn lemma_no_mode(controls: Seq<ControlCommandStatus>)
    requires
        forall|i: int|
            0 <= i < controls.len() ==> (#[trigger] controls[i]).identifier
                != ControlCommandIdentifiers::ListeningMode || controls[i].value@.len() == 0,
    ensures
        crate::ui::window::first_mode(controls) is None,
    decreases controls.len(),
{
    if controls.len() > 0 {
        let rest = controls.skip(1);
        assert forall|i: int| 0 <= i < rest.len() implies (#[trigger] rest[i]).identifier
            != ControlCommandIdentifiers::ListeningMode || rest[i].value@.len() == 0 by {
            assert(rest[i] == controls[i + 1]);
        }
        assert(controls[0].identifier != ControlCommandIdentifiers::ListeningMode
            || controls[0].value@.len() == 0);
        lemma_no_mode(rest);
    }
}

/// The message that says that a device connected.
pub open spec fn connecting(mac: String, reading: Reading) -> Message {
    Message::BluetoothMessage(BluetoothUIMessage::DeviceConnected(mac), reading)
}

/// AirPods that connect are shown under their saved name with the battery that
/// was read, the microphone switch as it is set, and an equalizer that is off
/// with every band in the middle.
pub proof fn connected_airpods_are_shown(
    app: AppView,
    mac: String,
    reading: Reading,
    report: AirPodsReport,
)
    requires
        reading.report == Some(report),
        reading.devices@.contains_key(mac@),
        reading.devices@[mac@].type_ == DeviceType::AirPods,
    ensures
        ({
            let after = app.after(connecting(mac, reading));
            let shown = pods(after, mac@);
            let case = crate::ui::format::case_level(report.battery@);
            &&& has_pods(after, mac@)
            &&& shown.pods.name == reading.devices@[mac@].name
            &&& shown.pods.battery == report.battery@
            &&& shown.hires_mic_enabled == app.settings.hires_mic_enabled
            &&& !shown.custom_eq.eq.enabled
            &&& shown.custom_eq.eq.low == 50
            &&& shown.custom_eq.eq.mid == 50
            &&& shown.custom_eq.eq.high == 50
            &&& case is Some ==> after.last_case_level == app.last_case_level.insert(mac@, case->0)
            &&& case is None ==> after.last_case_level == app.last_case_level
            &&& after.settings == app.settings
        }),
{
}

/// A switch of AirPods that connect is on exactly if one of the reports that were
/// read for it says so, with the single byte 1.
pub proof fn connected_switches_follow_the_reports(
    app: AppView,
    mac: String,
    reading: Reading,
    report: AirPodsReport,
)
    requires
        reading.report == Some(report),
        reading.devices@.contains_key(mac@),
        reading.devices@[mac@].type_ == DeviceType::AirPods,
    ensures
        ({
            let shown = pods(app.after(connecting(mac, reading)), mac@).pods;
            &&& shown.conversation_awareness <==> exists|i: int|
                0 <= i < report.controls@.len() && (#[trigger] report.controls@[i]).identifier
                    == ControlCommandIdentifiers::ConversationDetectConfig
                    && report.controls@[i].value@ == seq![1u8]
            &&& shown.personalized_volume <==> exists|i: int|
                0 <= i < report.controls@.len() && (#[trigger] report.controls@[i]).identifier
                    == ControlCommandIdentifiers::AdaptiveVolumeConfig
                    && report.controls@[i].value@ == seq![1u8]
            &&& shown.allow_off <==> exists|i: int|
                0 <= i < report.controls@.len() && (#[trigger] report.controls@[i]).identifier
                    == ControlCommandIdentifiers::AllowOffOption && report.controls@[i].value@
                    == seq![1u8]
        }),
{
}

/// AirPods that connect show the listening mode of the first report that has
/// one; without any they show transparency.
pub proof fn connected_airpods_show_the_first_mode(
    app: AppView,
    mac: String,
    reading: Reading,
    report: AirPodsReport,
    at: int,
)
    requires
        reading.report == Some(report),
        reading.devices@.contains_key(mac@),
        reading.devices@[mac@].type_ == DeviceType::AirPods,
        0 <= at <= report.controls@.len(),
        forall|i: int|
            0 <= i < at ==> (#[trigger] report.controls@[i]).identifier
                != ControlCommandIdentifiers::ListeningMode || report.controls@[i].value@.len()
                == 0,
        at < report.controls@.len() ==> report.controls@[at].identifier
            == ControlCommandIdentifiers::ListeningMode && report.controls@[at].value@.len() > 0,
    ensures
        ({
            let shown = pods(app.after(connecting(mac, reading)), mac@).pods.listening_mode;
            let first = report.controls@[at].value@[0];
            &&& at == report.controls@.len() ==> shown is Transparency
            &&& at < report.controls@.len() && first == 1 ==> shown is Off
            &&& at < report.controls@.len() && first == 2 ==> shown is NoiseCancellation
            &&& at < report.controls@.len() && first == 3 ==> shown is Transparency
            &&& at < report.controls@.len() && first == 4 ==> shown is Adaptive
        }),
{
    if at < report.controls@.len() {
        lemma_first_mode(report.controls@, at);
    } else {
        lemma_no_mode(report.controls@);
    }
}

/// AirPods that connect have the value of each setting as its last report says.
pub proof fn connected_airpods_have_the_last_values(
    app: AppView,
    mac: String,
    reading: Reading,
    report: AirPodsReport,
    at: int,
)
    requires
        reading.report == Some(report),
        reading.devices@.contains_key(mac@),
        reading.devices@[mac@].type_ == DeviceType::AirPods,
        0 <= at < report.controls@.len(),
        forall|later: int|
            at < later < report.controls@.len() ==> (#[trigger] report.controls@[later]).identifier
                != report.controls@[at].identifier,
    ensures
        ({
            let values = pods(app.after(connecting(mac, reading)), mac@).pods.control_values;
            &&& values.contains_key(report.controls@[at].identifier.number())
            &&& values[report.controls@[at].identifier.number()] == report.controls@[at].value@
        }),
{
    lemma_values(report.controls@, at);
}

/// A Nothing device that connects starts with noise control off; a mode that is
/// chosen for it is shown and sent as its byte.
pub proof fn nothing_devices_start_off(
    app: AppView,
    mac: String,
    reading: Reading,
    mode: NothingAncMode,
)
    requires
        reading.devices@.contains_key(mac@),
        reading.devices@[mac@].type_ == DeviceType::Nothing,
    ensures
        ({
            let after = app.after(connecting(mac, reading));
            let set = Message::NothingAncModeSelected(mac, mode);
            let sent = after.tasks_after(set);
            &&& after.states.contains_key(mac@)
            &&& after.states[mac@] == DeviceStateView::Nothing(NothingAncMode::Off)
            &&& after.after(set).states[mac@] == DeviceStateView::Nothing(mode)
            &&& sent.len() == 1
            &&& sent[0] is SetNothingAnc
            &&& sent[0]->SetNothingAnc_mac == mac@
            &&& mode is HighNoiseCancellation ==> sent[0]->mode == 1
            &&& mode is MidNoiseCancellation ==> sent[0]->mode == 2
            &&& mode is LowNoiseCancellation ==> sent[0]->mode == 3
            &&& mode is AdaptiveNoiseCancellation ==> sent[0]->mode == 4
            &&& mode is Off ==> sent[0]->mode == 5
            &&& mode is Transparency ==> sent[0]->mode == 7
        }),
{
}

/// The tab of a device that disconnects stays open where the system knows it as
/// AirPods, and is closed otherwise; other tabs stay.
pub proof fn the_tab_of_airpods_stays(app: AppView, mac: String, reading: Reading)
    ensures
        ({
            let after = app.after(
                Message::BluetoothMessage(BluetoothUIMessage::DeviceDisconnected(mac), reading),
            );
            let known = exists|i: int|
                0 <= i < reading.known_airpods@.len() && (#[trigger] reading.known_airpods@[i])@
                    == mac@;
            let shown = app.selected_tab == TabView::Device(mac@);
            &&& shown && !known ==> after.selected_tab == TabView::Device("none"@)
            &&& !shown || known ==> after.selected_tab == app.selected_tab
            &&& !after.states.contains_key(mac@)
            &&& after.devices == app.devices
            &&& after.last_case_level == app.last_case_level
        }),
{
    let names = crate::text::texts(reading.known_airpods@);
    if names.contains(mac@) {
        let i = choose|i: int| 0 <= i < names.len() && names[i] == mac@;
        assert(reading.known_airpods@[i]@ == mac@);
    }
    if exists|i: int|
        0 <= i < reading.known_airpods@.len() && (#[trigger] reading.known_airpods@[i])@ == mac@ {
        let i = choose|i: int|
            0 <= i < reading.known_airpods@.len() && (#[trigger] reading.known_airpods@[i])@
                == mac@;
        assert(names[i] == mac@);
    }
}

/// Each switch of the AirPods page sets its own state and sends it: the modes as
/// their byte, a switch as 1 or 2.
pub proof fn changes_are_shown_and_sent(
    app: AppView,
    mac: String,
    on: bool,
    mode: AirPodsNoiseControlMode,
)
    requires
        has_pods(app, mac@),
        pods(app, mac@).hires_mic_enabled == app.settings.hires_mic_enabled,
    ensures
        ({
            let was = pods(app, mac@);
            let byte = if on {
                1u8
            } else {
                2u8
            };
            let listen = Message::Changed(mac, AirPodsChange::ListeningMode(mode));
            let volume = Message::Changed(mac, AirPodsChange::PersonalizedVolume(on));
            let awareness = Message::Changed(mac, AirPodsChange::ConversationAwareness(on));
            let off = Message::Changed(mac, AirPodsChange::AllowOff(on));
            let sent = app.tasks_after(listen);
            &&& pods(app.after(listen), mac@) == (AirPodsStateView {
                pods: AirPodsView { listening_mode: mode, ..was.pods },
                ..was
            })
            &&& pods(app.after(volume), mac@) == (AirPodsStateView {
                pods: AirPodsView { personalized_volume: on, ..was.pods },
                ..was
            })
            &&& pods(app.after(awareness), mac@) == (AirPodsStateView {
                pods: AirPodsView { conversation_awareness: on, ..was.pods },
                ..was
            })
            &&& pods(app.after(off), mac@) == (AirPodsStateView {
                pods: AirPodsView { allow_off: on, ..was.pods },
                ..was
            })
            &&& sent.len() == 1
            &&& sent[0] is SendControl
            &&& sent[0]->SendControl_mac == mac@
            &&& sent[0]->SendControl_identifier == ControlCommandIdentifiers::ListeningMode
            &&& mode is Off ==> sent[0]->SendControl_value == seq![1u8]
            &&& mode is NoiseCancellation ==> sent[0]->SendControl_value == seq![2u8]
            &&& mode is Transparency ==> sent[0]->SendControl_value == seq![3u8]
            &&& mode is Adaptive ==> sent[0]->SendControl_value == seq![4u8]
            &&& app.tasks_after(volume) == seq![
                AppTaskView::SendControl {
                    mac: mac@,
                    identifier: ControlCommandIdentifiers::AdaptiveVolumeConfig,
                    value: seq![byte],
                },
            ]
            &&& app.tasks_after(awareness) == seq![
                AppTaskView::SetConversationDetection { mac: mac@, enabled: on },
            ]
            &&& app.tasks_after(off) == seq![
                AppTaskView::SendControl {
                    mac: mac@,
                    identifier: ControlCommandIdentifiers::AllowOffOption,
                    value: seq![byte],
                },
            ]
        }),
{
    let volume = Message::Changed(mac, AirPodsChange::PersonalizedVolume(on));
    let awareness = Message::Changed(mac, AirPodsChange::ConversationAwareness(on));
    let off = Message::Changed(mac, AirPodsChange::AllowOff(on));
    let byte = if on {
        1u8
    } else {
        2u8
    };
    assert(app.tasks_after(volume) =~= seq![
        AppTaskView::SendControl {
            mac: mac@,
            identifier: ControlCommandIdentifiers::AdaptiveVolumeConfig,
            value: seq![byte],
        },
    ]);
    assert(app.tasks_after(awareness) =~= seq![
        AppTaskView::SetConversationDetection { mac: mac@, enabled: on },
    ]);
    assert(app.tasks_after(off) =~= seq![
        AppTaskView::SendControl {
            mac: mac@,
            identifier: ControlCommandIdentifiers::AllowOffOption,
            value: seq![byte],
        },
    ]);
}

/// The microphone switch of the page is sent and is a setting too: it is saved
/// where it changed.
pub proof fn the_microphone_switch_is_a_setting(app: AppView, mac: String, on: bool)
    requires
        has_pods(app, mac@),
    ensures
        ({
            let switch = Message::Changed(mac, AirPodsChange::HiResMic(on));
            let after = app.after(switch);
            let tasks = app.tasks_after(switch);
            let sent = AppTaskView::SetHiResMic { mac: mac@, enabled: on };
            &&& pods(after, mac@) == (AirPodsStateView {
                hires_mic_enabled: on,
                ..pods(app, mac@)
            })
            &&& after.settings == (AppSettings { hires_mic_enabled: on, ..app.settings })
            &&& app.settings.hires_mic_enabled == on ==> tasks == seq![sent]
            &&& app.settings.hires_mic_enabled != on ==> tasks == seq![
                sent,
                AppTaskView::SaveSettings,
            ]
        }),
{
    let switch = Message::Changed(mac, AirPodsChange::HiResMic(on));
    let sent = AppTaskView::SetHiResMic { mac: mac@, enabled: on };
    assert(app.settings.hires_mic_enabled == on ==> app.tasks_after(switch) =~= seq![sent]);
    assert(app.settings.hires_mic_enabled != on ==> app.tasks_after(switch) =~= seq![
        sent,
        AppTaskView::SaveSettings,
    ]);
}

/// The equalizer switch keeps the bands and sends what is shown at once; a band
/// moves alone, at most to 100, and is held back under the number that the state
/// has then; Reset puts every band in the middle, turned on, and sends that.
pub proof fn the_equalizer_is_shown_and_sent(
    app: AppView,
    mac: String,
    on: bool,
    band: EqBand,
    value: u8,
)
    requires
        has_pods(app, mac@),
        pods(app, mac@).hires_mic_enabled == app.settings.hires_mic_enabled,
    ensures
        ({
            let was = pods(app, mac@).custom_eq.eq;
            let switch = Message::Changed(mac, AirPodsChange::EqEnabled(on));
            let slide = Message::Changed(mac, AirPodsChange::EqBand(band, value));
            let reset = Message::Changed(mac, AirPodsChange::EqReset);
            let switched = pods(app.after(switch), mac@).custom_eq.eq;
            let slid = pods(app.after(slide), mac@).custom_eq.eq;
            let flat = pods(app.after(reset), mac@).custom_eq.eq;
            let settled = if value > 100 {
                100u8
            } else {
                value
            };
            &&& switched.enabled == on
            &&& switched.low == was.low
            &&& switched.mid == was.mid
            &&& switched.high == was.high
            &&& app.tasks_after(switch) == seq![AppTaskView::SendEq { mac: mac@, eq: switched }]
            &&& slid.enabled == was.enabled
            &&& slid.low == if band is Low {
                settled
            } else {
                was.low
            }
            &&& slid.mid == if band is Mid {
                settled
            } else {
                was.mid
            }
            &&& slid.high == if band is High {
                settled
            } else {
                was.high
            }
            &&& app.tasks_after(slide) == seq![
                AppTaskView::SendEqLater {
                    mac: mac@,
                    generation: pods(app.after(slide), mac@).custom_eq.generation,
                },
            ]
            &&& flat.enabled
            &&& flat.low == 50
            &&& flat.mid == 50
            &&& flat.high == 50
            &&& app.tasks_after(reset) == seq![AppTaskView::SendEq { mac: mac@, eq: flat }]
            &&& pods(app.after(switch), mac@).pods == pods(app, mac@).pods
            &&& pods(app.after(slide), mac@).pods == pods(app, mac@).pods
            &&& pods(app.after(reset), mac@).pods == pods(app, mac@).pods
        }),
{
    let switch = Message::Changed(mac, AirPodsChange::EqEnabled(on));
    let slide = Message::Changed(mac, AirPodsChange::EqBand(band, value));
    let reset = Message::Changed(mac, AirPodsChange::EqReset);
    assert(app.tasks_after(switch) =~= seq![
        AppTaskView::SendEq { mac: mac@, eq: pods(app.after(switch), mac@).custom_eq.eq },
    ]);
    assert(app.tasks_after(slide) =~= seq![
        AppTaskView::SendEqLater {
            mac: mac@,
            generation: pods(app.after(slide), mac@).custom_eq.generation,
        },
    ]);
    assert(app.tasks_after(reset) =~= seq![
        AppTaskView::SendEq { mac: mac@, eq: pods(app.after(reset), mac@).custom_eq.eq },
    ]);
}

/// The equalizer that goes out after a band change is the one shown, if nothing
/// changed it since, and off and on again gives back the one shown before.
#[verifier::rlimit(30)]
pub proof fn the_shown_equalizer_goes_out(
    app: AppView,
    mac: String,
    band: EqBand,
    value: u8,
    on: bool,
)
    requires
        has_pods(app, mac@),
    ensures
        ({
            let slid = app.after(Message::Changed(mac, AirPodsChange::EqBand(band, value)));
            let due = Message::EqDue {
                mac,
                generation: pods(slid, mac@).custom_eq.generation,
            };
            let there = app.after(Message::Changed(mac, AirPodsChange::EqEnabled(!on)));
            let back = there.after(Message::Changed(mac, AirPodsChange::EqEnabled(on)));
            &&& slid.tasks_after(due) == seq![
                AppTaskView::SendEq { mac: mac@, eq: pods(slid, mac@).custom_eq.eq },
            ]
            &&& slid.after(due) == slid
            &&& pods(app, mac@).custom_eq.eq.enabled == on ==> pods(back, mac@).custom_eq.eq
                == pods(app, mac@).custom_eq.eq
        }),
{
    let slid = app.after(Message::Changed(mac, AirPodsChange::EqBand(band, value)));
    let due = Message::EqDue { mac, generation: pods(slid, mac@).custom_eq.generation };
    assert(slid.tasks_after(due) =~= seq![
        AppTaskView::SendEq { mac: mac@, eq: pods(slid, mac@).custom_eq.eq },
    ]);
}

/// A change of AirPods that the window has no state of does nothing, and one of
/// some AirPods leaves the state of every other device.
pub proof fn changes_stay_with_their_device(
    app: AppView,
    mac: String,
    change: AirPodsChange,
    other: Seq<char>,
)
    requires
        other != mac@,
    ensures
        ({
            let after = app.after(Message::Changed(mac, change));
            &&& !has_pods(app, mac@) ==> after == app && app.tasks_after(
                Message::Changed(mac, change),
            ).len() == 0
            &&& after.states.contains_key(other) <==> app.states.contains_key(other)
            &&& after.states[other] == app.states[other]
            &&& after.connected == app.connected
            &&& after.devices == app.devices
            &&& after.test == app.test
        }),
{
}

/// A request that failed shows its error, and one that succeeded is over.
pub proof fn a_request_ends_in_silence_or_an_error(
    app: AppView,
    mac: String,
    result: Result<(), String>,
)
    ensures
        ({
            let after = app.after(Message::ConnectFinished(mac, result));
            &&& result is Ok ==> !after.connects.contains_key(mac@)
            &&& result is Err ==> after.connects.contains_key(mac@) && after.connects[mac@]
                == ConnectProgressView::Failed(result->Err_0@)
            &&& after.connected == app.connected
            &&& after.states == app.states
        }),
{
}

/// The name that is sent is the draft of those AirPods without the blanks around
/// it, where it is allowed and new; they then show it. A refused draft stays and
/// sends nothing.
pub proof fn the_checked_draft_is_the_name(app: AppView, mac: String, text: String)
    requires
        has_pods(app, mac@),
    ensures
        ({
            let typed = app.after(Message::RenameInput(mac, text));
            let submit = Message::RenameSubmit(mac);
            let after = typed.after(submit);
            let tasks = typed.tasks_after(submit);
            let checked = crate::ui::format::checked_name(text@);
            &&& typed.draft == Some((mac@, text@))
            &&& typed.states == app.states
            &&& app.tasks_after(Message::RenameInput(mac, text)).len() == 0
            &&& checked is Err ==> after == typed && tasks.len() == 0
            &&& checked is Ok ==> {
                &&& after.draft is None
                &&& pods(after, mac@).pods == (AirPodsView {
                    name: checked->Ok_0,
                    ..pods(app, mac@).pods
                })
                &&& checked->Ok_0 == pods(app, mac@).pods.name ==> tasks.len() == 0
                &&& checked->Ok_0 != pods(app, mac@).pods.name ==> tasks == seq![
                    AppTaskView::Rename { mac: mac@, name: checked->Ok_0 },
                ]
            }
        }),
{
    let typed = app.after(Message::RenameInput(mac, text));
    let checked = crate::ui::format::checked_name(text@);
    if checked is Ok && checked->Ok_0 != pods(app, mac@).pods.name {
        assert(typed.tasks_after(Message::RenameSubmit(mac)) =~= seq![
            AppTaskView::Rename { mac: mac@, name: checked->Ok_0 },
        ]);
    }
}

/// Only the draft of the AirPods that are renamed counts.
pub proof fn drafts_of_others_are_not_sent(app: AppView, mac: String)
    requires
        app.draft matches Some((of, _)) ==> of != mac@,
    ensures
        app.after(Message::RenameSubmit(mac)) == app,
        app.tasks_after(Message::RenameSubmit(mac)).len() == 0,
{
}

/// One window is open at most: a second one is not opened but focused, and only
/// its own closing closes it.
pub proof fn one_window_is_open(app: AppView, reading: Reading, id: u64)
    ensures
        ({
            let open = Message::BluetoothMessage(BluetoothUIMessage::OpenWindow, reading);
            let tasks = app.tasks_after(open);
            &&& app.window matches Some(w) ==> app.after(open).window == Some(w) && tasks == seq![
                AppTaskView::FocusWindow(w),
                AppTaskView::Wait,
            ]
            &&& app.window is None ==> app.after(open).window == Some(reading.new_window)
                && tasks == seq![AppTaskView::OpenWindow(reading.new_window), AppTaskView::Wait]
            &&& app.after(open).devices == reading.devices@
            &&& app.window == Some(id) ==> app.after(Message::WindowClosed(id)).window is None
            &&& app.window != Some(id) ==> app.after(Message::WindowClosed(id)) == app
        }),
{
    let open = Message::BluetoothMessage(BluetoothUIMessage::OpenWindow, reading);
    if app.window is Some {
        assert(app.tasks_after(open) =~= seq![
            AppTaskView::FocusWindow(app.window->0),
            AppTaskView::Wait,
        ]);
    } else {
        assert(app.tasks_after(open) =~= seq![
            AppTaskView::OpenWindow(reading.new_window),
            AppTaskView::Wait,
        ]);
    }
}

proof fn lemma_without(macs: Seq<Seq<char>>, mac: Seq<char>, other: Seq<char>)
    ensures
        !crate::ui::window::without(macs, mac).contains(mac),
        other != mac ==> (crate::ui::window::without(macs, mac).contains(other)
            <==> macs.contains(other)),
    decreases macs.len(),
{
    let left = crate::ui::window::without(macs, mac);
    if macs.len() > 0 {
        let rest = crate::ui::window::without(macs.drop_last(), mac);
        lemma_without(macs.drop_last(), mac, other);
        assert(macs =~= macs.drop_last().push(macs.last()));
        if macs.contains(other) {
            let i = choose|i: int| 0 <= i < macs.len() && macs[i] == other;
            if i < macs.len() - 1 {
                assert(macs.drop_last()[i] == other);
            }
        }
        if macs.drop_last().contains(other) {
            let i = choose|i: int| 0 <= i < macs.drop_last().len() && macs.drop_last()[i] == other;
            assert(macs[i] == other);
        }
        if macs.last() != mac {
            assert(left =~= rest.push(macs.last()));
            if left.contains(mac) {
                let i = choose|i: int| 0 <= i < left.len() && left[i] == mac;
                assert(rest[i] == mac);
            }
            if rest.contains(other) {
                let i = choose|i: int| 0 <= i < rest.len() && rest[i] == other;
                assert(left[i] == other);
            }
            if left.contains(other) && other != macs.last() {
                let i = choose|i: int| 0 <= i < left.len() && left[i] == other;
                assert(rest[i] == other);
            }
            assert(left[left.len() - 1] == macs.last());
            assert(macs[macs.len() - 1] == macs.last());
        }
    }
}

/// A device that disconnects leaves the list, wherever it stood, and no other
/// does; one that connects is listed last, or stays where it is.
pub proof fn the_list_follows_the_connections(
    app: AppView,
    mac: String,
    other: Seq<char>,
    reading: Reading,
)
    requires
        other != mac@,
    ensures
        ({
            let left = app.after(
                Message::BluetoothMessage(BluetoothUIMessage::DeviceDisconnected(mac), reading),
            );
            let come = app.after(connecting(mac, reading));
            &&& !left.connected.contains(mac@)
            &&& left.connected.contains(other) <==> app.connected.contains(other)
            &&& app.connected.contains(mac@) ==> come.connected == app.connected
            &&& !app.connected.contains(mac@) ==> come.connected == app.connected.push(mac@)
            &&& !come.connects.contains_key(mac@)
            &&& come.devices == reading.devices@
        }),
{
    lemma_without(app.connected, mac@, other);
}

/// The messages that only bring something in, and what they do.
pub proof fn what_comes_in_is_kept(app: AppView, message: Message)
    ensures
        ({
            let after = app.after(message);
            let tasks = app.tasks_after(message);
            &&& message matches Message::SelectTab(tab) ==> after == (AppView {
                selected_tab: tab@,
                ..app
            })
            &&& message matches Message::DevicesLoaded(devices) ==> after == (AppView {
                devices: devices@,
                ..app
            })
            &&& message matches Message::WindowOpened(id, devices) ==> after == (AppView {
                window: Some(id),
                devices: devices@,
                ..app
            })
            &&& message matches Message::GotPairedDevices(paired) ==> after == (AppView {
                paired: paired@,
                ..app
            })
            &&& message matches Message::SelectDeviceType(type_) ==> after == (AppView {
                selected_type: Some(type_),
                ..app
            })
            &&& message matches Message::CopyToClipboard(text) ==> after == app && tasks.len() == 1
                && tasks[0] == AppTaskView::CopyToClipboard(text@)
            &&& message is BluetoothIdle ==> after == app && tasks.len() == 1 && tasks[0] is Wait
        }),
{
}

/// A setting of the AirPods page is remembered and sent as the GNOME window does
/// it, at once; one that is not allowed does nothing.
pub proof fn page_settings_are_remembered_and_sent(app: AppView, mac: String, change: ControlChange)
    requires
        has_pods(app, mac@),
        pods(app, mac@).hires_mic_enabled == app.settings.hires_mic_enabled,
    ensures
        ({
            let message = Message::Changed(mac, AirPodsChange::Setting(change));
            let was = pods(app, mac@);
            let is = pods(app.after(message), mac@);
            let id = change.identifier();
            &&& change.value(was.pods) is None ==> is == was && app.tasks_after(message).len() == 0
            &&& change.value(was.pods) matches Some(value) ==> {
                &&& is.pods == (AirPodsView {
                    control_values: was.pods.control_values.insert(id.number(), value),
                    ..was.pods
                })
                &&& is.custom_eq == was.custom_eq
                &&& app.tasks_after(message) == seq![
                    AppTaskView::SendControl { mac: mac@, identifier: id, value },
                ]
            }
        }),
{
    let message = Message::Changed(mac, AirPodsChange::Setting(change));
    match change.value(pods(app, mac@).pods) {
        Some(value) => {
            assert(app.tasks_after(message) =~= seq![
                AppTaskView::SendControl { mac: mac@, identifier: change.identifier(), value },
            ]);
        },
        None => {},
    }
}

/// A window starts with its settings and devices and nothing else, without a
/// device selected. It is opened unless it starts minimized, and then the next
/// message is awaited.
pub proof fn a_window_starts_with_nothing(
    window: Option<u64>,
    settings: AppSettings,
    devices: Map<Seq<char>, DeviceDataView>,
    id: u64,
    mac: Seq<char>,
)
    ensures
        ({
            let app = AppView::fresh(window, settings, devices);
            &&& app.window == window
            &&& app.settings == settings
            &&& app.devices == devices
            &&& app.selected_tab == TabView::Device("none"@)
            &&& app.connected.len() == 0
            &&& !app.states.contains_key(mac)
            &&& !app.connects.contains_key(mac)
            &&& !app.paired.contains_key(mac)
            &&& app.pending is None
            &&& app.selected_type is None
            &&& app.test is Idle
            &&& app.paused.len() == 0
            &&& app.draft is None
            &&& AppView::first_tasks(true, id) == seq![AppTaskView::Wait]
            &&& AppView::first_tasks(false, id) == seq![
                AppTaskView::OpenWindow(id),
                AppTaskView::Wait,
            ]
        }),
{
    assert(AppView::first_tasks(true, id) =~= seq![AppTaskView::Wait]);
    assert(AppView::first_tasks(false, id) =~= seq![
        AppTaskView::OpenWindow(id),
        AppTaskView::Wait,
    ]);
}

} // verus!
