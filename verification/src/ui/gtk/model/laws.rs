//! What holds of the window over several inputs.

use crate::bluetooth::eq::CustomEq;
use crate::devices::enums::{DeviceDataView, DeviceType};
use crate::ui::gtk::controls::ControlChange;
use crate::ui::gtk::model::equalizer::{EqBand, EqEffectView, EqInput};
use crate::ui::gtk::model::mic::{MicCapture, MicEffectView, MicInput, MicPhase, Recording};
use crate::ui::gtk::model::{
    AirPodsView, ContentView, DeviceSnapshot, EffectView, Input, ModelView,
    NameHintView, PageChange, SelectionView, WindowSettings,
};
use crate::ui::messages::BluetoothUIMessage;
use vstd::prelude::*;

verus! {

proof fn lemma_captures(read: Seq<(String, MicCapture)>, airpods: Set<Seq<char>>)
    ensures
        crate::ui::gtk::model::mic::captures(read, airpods).dom().subset_of(airpods),
    decreases read.len(),
{
    if read.len() > 0 {
        lemma_captures(read.drop_last(), airpods);
    }
}

proof fn lemma_heard(model: ModelView, input: MicInput)
    requires
        model.consistent(),
        model.mic.take < u64::MAX,
    ensures
        model.heard(input).consistent(),
{
    match input {
        MicInput::Tick(sample) => {
            match sample.capture {
                Some(read) => {
                    lemma_captures(read@, model.airpods.dom());
                },
                None => {},
            }
        },
        _ => {},
    }
}

proof fn lemma_requests(model: ModelView, macs: Seq<Seq<char>>)
    requires
        model.consistent(),
        model.connects.last_attempt + macs.len() <= u64::MAX,
    ensures
        model.with_requests(macs).consistent(),
        model.with_requests(macs).connects.last_attempt <= model.connects.last_attempt
            + macs.len(),
    decreases macs.len(),
{
    if macs.len() > 0 {
        lemma_requests(model, macs.drop_last());
    }
}

proof fn lemma_messages(model: ModelView, message: BluetoothUIMessage)
    requires
        model.consistent(),
        model.has_room(Input::Backend(message)),
    ensures
        model.after_message(message).consistent(),
{
    match message {
        BluetoothUIMessage::ConnectAirPods => {
            lemma_requests(model, crate::ui::gtk::model::listing::listing(model.devices));
        },
        _ => {},
    }
}

proof fn lemma_connects(model: ModelView, input: Input)
    requires
        model.consistent(),
        model.has_room(input),
        input is Connect || input is ConnectFinished || input is ConnectSetupTimedOut,
    ensures
        model.after(input).consistent(),
{
}

proof fn lemma_equalizer(model: ModelView, input: EqInput)
    requires
        model.consistent(),
        model.eq_sends.generation < u64::MAX,
    ensures
        model.equalized(input).consistent(),
{
}

proof fn lemma_page(model: ModelView, input: Input)
    requires
        model.consistent(),
        input is Snapshot || input is SetListeningMode || input is SetConversationAwareness
            || input is SetPersonalizedVolume || input is SetAllowOff || input is AirPodsControl,
    ensures
        model.after(input).consistent(),
{
}

proof fn lemma_rest(model: ModelView, input: Input)
    requires
        model.consistent(),
        crate::ui::gtk::model::input_wf(input),
        input is DevicesLoaded || input is Select || input is ControlSettled
            || input is WindowVisible || input is NameEdited || input is Rename
            || input is SetNothingAnc || input is Setting || input is Toast,
    ensures
        model.after(input).consistent(),
{
    match input {
        Input::DevicesLoaded(devices) => {
            devices.lemma_addresses();
        },
        _ => {},
    }
}

/// Every input keeps the model consistent: the list of devices ends, only
/// connected devices have live state, every number in use was given out, media
/// players stay paused only while a test runs, and the player is never past
/// the end of the take.
pub proof fn updates_keep_the_model_consistent(model: ModelView, input: Input)
    requires
        model.consistent(),
        crate::ui::gtk::model::input_wf(input),
        model.has_room(input),
    ensures
        model.after(input).consistent(),
{
    match input {
        Input::Backend(message) => {
            lemma_messages(model, message);
        },
        Input::Microphone(input) => {
            lemma_heard(model, input);
        },
        Input::Equalizer(input) => {
            lemma_equalizer(model, input);
        },
        Input::Connect(_) | Input::ConnectFinished { .. } | Input::ConnectSetupTimedOut {
            ..
        } => {
            lemma_connects(model, input);
        },
        Input::Snapshot(_, _) | Input::SetListeningMode(_, _) | Input::SetConversationAwareness(
            _,
            _,
        ) | Input::SetPersonalizedVolume(_, _) | Input::SetAllowOff(
            _,
            _,
        ) | Input::AirPodsControl(_, _) => {
            lemma_page(model, input);
        },
        _ => {
            lemma_rest(model, input);
        },
    }
}

// Devices

/// A device that disconnected leaves nothing behind: it is not connected and
/// has no live state, no name hint, no capture and no delayed send, and a
/// snapshot of its state that arrives late changes nothing.
pub proof fn a_disconnected_device_leaves_nothing(
    model: ModelView,
    mac: String,
    snapshot: Option<DeviceSnapshot>,
)
    requires
        model.mic.take < u64::MAX,
    ensures
        ({
            let gone = model.after(Input::Backend(BluetoothUIMessage::DeviceDisconnected(mac)));
            &&& !gone.connected.contains(mac@)
            &&& !gone.airpods.contains_key(mac@)
            &&& !gone.nothing.contains_key(mac@)
            &&& gone.hint_for(mac@) is None
            &&& !gone.capturing(mac@)
            &&& !gone.eq_sends.pending.contains_key(mac@)
            &&& gone.after(Input::Snapshot(mac, snapshot)) == gone
        }),
{
}

/// The address of the AirPods an input would send a command to.
pub open spec fn commands(input: Input) -> Option<Seq<char>> {
    match input {
        Input::SetListeningMode(mac, _) => Some(mac@),
        Input::SetConversationAwareness(mac, _) => Some(mac@),
        Input::SetPersonalizedVolume(mac, _) => Some(mac@),
        Input::SetAllowOff(mac, _) => Some(mac@),
        Input::AirPodsControl(mac, _) => Some(mac@),
        Input::ControlSettled { mac, .. } => Some(mac@),
        Input::Rename(mac, _) => Some(mac@),
        Input::Equalizer(EqInput::SetEnabled(mac, _)) => Some(mac@),
        Input::Equalizer(EqInput::SetBand(mac, _, _)) => Some(mac@),
        Input::Equalizer(EqInput::Reset(mac)) => Some(mac@),
        Input::Equalizer(EqInput::SendDue { mac, .. }) => Some(mac@),
        Input::Microphone(MicInput::SetHiRes(mac, _)) => Some(mac@),
        _ => None,
    }
}

/// Nothing is sent to AirPods that are not connected.
pub proof fn disconnected_airpods_get_no_command(model: ModelView, input: Input)
    requires
        commands(input) matches Some(mac) && !model.airpods.contains_key(mac),
    ensures
        model.effects_after(input) == crate::ui::gtk::model::nothing_to_do(),
{
}

/// When the AirPods confirm a change with the value that was sent, nothing
/// changes any more: the window showed the new state at once.
pub proof fn a_confirmed_change_changes_nothing(
    airpods: AirPodsView,
    page: PageChange,
    control: ControlChange,
)
    ensures
        page.applied(airpods).reported(page.identifier(), page.value()) == page.applied(airpods),
        control.value(airpods) matches Some(value) ==> {
            let changed = crate::ui::gtk::controls::changed_airpods(airpods, control);
            changed.reported(control.identifier(), value) == changed
        },
{
    let applied = page.applied(airpods);
    match page {
        PageChange::ListeningMode(mode) => {
            crate::devices::enums::listening_modes_read_back(mode);
        },
        PageChange::PersonalizedVolume(on) => {
            assert(seq![0x01u8][0] != seq![0x02u8][0]);
        },
        PageChange::AllowOff(on) => {
            assert(seq![0x01u8][0] != seq![0x02u8][0]);
        },
    }
    assert(applied.reported(page.identifier(), page.value()) =~= applied);
    if control.value(airpods) is Some {
        let value = control.value(airpods)->0;
        let changed = crate::ui::gtk::controls::changed_airpods(airpods, control);
        assert(changed.reported(control.identifier(), value) =~= changed);
    }
}

/// Reading devices.json again never moves a selection that was made.
pub proof fn loading_devices_keeps_the_selection(
    model: ModelView,
    devices: Map<Seq<char>, DeviceDataView>,
)
    requires
        !(model.selection is Empty),
    ensures
        model.with_devices(devices).selection == model.selection,
{
}

/// Where nothing is selected and AirPods are known, reading devices.json
/// selects AirPods, and no AirPods are listed before them.
pub proof fn the_first_airpods_are_selected(
    model: ModelView,
    devices: Map<Seq<char>, DeviceDataView>,
    other: Seq<char>,
)
    requires
        model.selection is Empty,
        devices.dom().finite(),
        devices.contains_key(other),
        devices[other].type_ == DeviceType::AirPods,
    ensures
        model.with_devices(devices).selection matches SelectionView::Device(first)
            && devices.contains_key(first) && devices[first].type_ == DeviceType::AirPods && (first
            == other || crate::ui::gtk::model::listing::listed_before(devices, first, other)),
{
    crate::ui::gtk::model::listing::devices_have_an_order(devices);
    crate::ui::gtk::model::listing::first_airpods_lead_the_list(devices, crate::ui::gtk::model::listing::listing(devices), other);
}

/// The sidebar has a line for every known device and for no other, in order.
pub proof fn the_sidebar_lists_every_device(model: ModelView, mac: Seq<char>)
    requires
        model.devices.dom().finite(),
    ensures
        model.devices.contains_key(mac) <==> exists|i: int|
            0 <= i < model.sidebar_shown().len() && #[trigger] model.sidebar_shown()[i].mac == mac,
        forall|i: int, j: int|
            0 <= i < j < model.sidebar_shown().len() ==> crate::ui::gtk::model::listing::listed_before(
                model.devices,
                #[trigger] model.sidebar_shown()[i].mac,
                #[trigger] model.sidebar_shown()[j].mac,
            ),
{
    crate::ui::gtk::model::listing::devices_have_an_order(model.devices);
    let macs = crate::ui::gtk::model::listing::listing(model.devices);
    let shown = model.sidebar_shown();
    assert(shown.len() == macs.len());
    assert forall|i: int| 0 <= i < shown.len() implies #[trigger] shown[i].mac == macs[i] by {}
    if model.devices.contains_key(mac) {
        assert(macs.contains(mac));
        let i = choose|i: int| 0 <= i < macs.len() && macs[i] == mac;
        assert(shown[i].mac == mac);
    }
    if exists|i: int| 0 <= i < shown.len() && #[trigger] shown[i].mac == mac {
        let i = choose|i: int| 0 <= i < shown.len() && #[trigger] shown[i].mac == mac;
        assert(macs[i] == mac);
        assert(macs.contains(mac));
    }
}

/// The page of AirPods shows only while they are connected.
pub proof fn live_pages_are_of_connected_devices(model: ModelView)
    requires
        model.consistent(),
    ensures
        model.shown_content() matches ContentView::AirPods(mac) ==> model.connected.contains(mac),
        model.shown_content() matches ContentView::Nothing(mac) ==> model.connected.contains(mac),
        model.shown_content() matches ContentView::Disconnected(mac) ==> !model.connected.contains(
            mac,
        ),
{
}

/// Changed settings read back as they were stored.
pub proof fn stored_settings_read_back(settings: WindowSettings)
    ensures
        crate::ui::gtk::model::window_settings(crate::ui::gtk::model::stored_settings(settings))
            == settings,
{
    crate::ui::gtk::theme::stored_preference_reads_back(settings.theme);
}

// Names

/// Only names that pass the check are sent, trimmed and within the limit,
/// and never the name the AirPods have already.
pub proof fn only_checked_names_are_sent(
    model: ModelView,
    mac: Seq<char>,
    text: Seq<char>,
    renamed: Seq<char>,
    name: Seq<char>,
)
    requires
        model.rename_effects(mac, text).contains(EffectView::Rename { mac: renamed, name }),
    ensures
        renamed == mac,
        crate::ui::format::checked_name(name) == Ok::<Seq<char>, Seq<char>>(name),
        model.airpods[mac].name != name,
        model.with_rename(mac, text).airpods[mac].name == name,
{
    crate::ui::format::a_checked_name_stays(text);
}

/// A name that does not pass leaves the AirPods as they are, and its hint
/// stays.
pub proof fn a_refused_name_keeps_its_hint(
    model: ModelView,
    mac: Seq<char>,
    text: Seq<char>,
    hint: Seq<char>,
)
    requires
        model.airpods.contains_key(mac),
        crate::ui::format::checked_name(text) == Err::<Seq<char>, Seq<char>>(hint),
    ensures
        model.with_rename(mac, text).airpods == model.airpods,
        model.with_rename(mac, text).hint_for(mac) == Some(NameHintView::Invalid(hint)),
        model.rename_effects(mac, text) == crate::ui::gtk::model::nothing_to_do(),
{
}

// Connecting

/// While a request runs, another one for the same device does nothing.
pub proof fn a_second_request_does_nothing(model: ModelView, mac: Seq<char>)
    requires
        model.connects.last_attempt < u64::MAX,
    ensures
        model.connectable(mac) ==> model.with_request(mac).connects.running(mac),
        model.with_request(mac).with_request(mac) == model.with_request(mac),
        model.with_request(mac).request_effects(mac) == crate::ui::gtk::model::nothing_to_do(),
{
}

/// A connect request is made exactly if none runs for the device and its
/// address can be read; otherwise nothing changes. A request that is made
/// carries the address and a number above every number given out before, runs
/// from then on, and a second one right after it is not made.
pub proof fn a_request_is_made_once(model: ModelView, mac: Seq<char>)
    requires
        model.consistent(),
        model.connects.last_attempt < u64::MAX,
    ensures
        ({
            let address = crate::bluetooth::address::address_of(mac);
            let refused = model.connects.running(mac) || address is None;
            let effects = model.request_effects(mac);
            let after = model.with_request(mac);
            let attempt = after.connects.last_attempt;
            &&& effects == crate::ui::gtk::model::nothing_to_do() <==> refused
            &&& refused ==> after == model
            &&& !refused ==> effects == seq![
                EffectView::Connect { mac, address: address->0, attempt },
            ]
            &&& !refused ==> attempt > model.connects.last_attempt
            &&& !refused ==> forall|other: Seq<char>|
                (#[trigger] model.connects.of(other)) matches Some(status) ==> (
                status.attempt() matches Some(n) ==> n < attempt)
            &&& !refused ==> after.connects.running(mac)
            &&& after.with_request(mac) == after
            &&& after.request_effects(mac) == crate::ui::gtk::model::nothing_to_do()
        }),
{
    a_second_request_does_nothing(model, mac);
    let effects = model.request_effects(mac);
    if model.connectable(mac) {
        assert(effects.len() == 1);
        assert forall|other: Seq<char>|
            (#[trigger] model.connects.of(other)) is Some implies (
        model.connects.of(other)->0.attempt() matches Some(n) ==> n < model.with_request(
            mac,
        ).connects.last_attempt) by {
            assert(model.connects.status.contains_key(other));
        }
    }
}

/// The number of the request that an effect asks for.
pub open spec fn requested_attempt(effect: EffectView) -> Option<u64> {
    match effect {
        EffectView::Connect { attempt, .. } => Some(attempt),
        _ => None,
    }
}

proof fn lemma_request_numbers(model: ModelView, macs: Seq<Seq<char>>)
    requires
        model.connects.last_attempt + macs.len() <= u64::MAX,
    ensures
        ({
            let after = model.with_requests(macs);
            let effects = model.requests_effects(macs);
            &&& model.connects.last_attempt <= after.connects.last_attempt
                <= model.connects.last_attempt + macs.len()
            &&& after.eq_sends == model.eq_sends
            &&& after.mic == model.mic
            &&& forall|i: int|
                0 <= i < effects.len() ==> (requested_attempt(#[trigger] effects[i]) matches Some(n)
                    && model.connects.last_attempt < n <= after.connects.last_attempt)
            &&& forall|i: int, j: int|
                0 <= i < j < effects.len() ==> requested_attempt(#[trigger] effects[i])->0
                    < requested_attempt(#[trigger] effects[j])->0
        }),
    decreases macs.len(),
{
    if macs.len() > 0 {
        lemma_request_numbers(model, macs.drop_last());
    }
}

/// Whether none of some effects asks for a connect request.
spec fn no_request(effects: Seq<EffectView>) -> bool {
    forall|i: int| 0 <= i < effects.len() ==> requested_attempt(#[trigger] effects[i]) is None
}

proof fn lemma_heard_numbers(model: ModelView, input: MicInput)
    requires
        model.mic.take < u64::MAX,
    ensures
        model.heard(input).connects == model.connects,
        model.heard(input).eq_sends == model.eq_sends,
        model.heard(input).mic.take >= model.mic.take,
        no_request(model.heard_effects(input)),
{
}

proof fn lemma_equalized_numbers(model: ModelView, input: EqInput)
    requires
        model.eq_sends.generation < u64::MAX,
    ensures
        model.equalized(input).connects == model.connects,
        model.equalized(input).eq_sends.generation >= model.eq_sends.generation,
        model.equalized(input).mic == model.mic,
        no_request(model.equalized_effects(input)),
{
}

proof fn lemma_message_numbers(model: ModelView, message: BluetoothUIMessage)
    requires
        !(message is ConnectAirPods),
        model.has_room(Input::Backend(message)),
    ensures
        model.after_message(message).connects.last_attempt == model.connects.last_attempt,
        model.after_message(message).eq_sends.generation == model.eq_sends.generation,
        model.after_message(message).mic.take >= model.mic.take,
        no_request(model.message_effects(message)),
{
}

proof fn lemma_other_numbers(model: ModelView, input: Input)
    requires
        !(input is Backend),
        !(input is Connect),
        !(input is Microphone),
        !(input is Equalizer),
    ensures
        model.after(input).connects.last_attempt == model.connects.last_attempt,
        model.after(input).eq_sends == model.eq_sends,
        model.after(input).mic.take == model.mic.take,
        no_request(model.effects_after(input)),
{
}

/// Numbers are only ever given out upwards. No input lowers the number of the
/// newest request, of the newest stop of a recorder or of the newest equalizer
/// change, and every request an input asks for has a number above all before,
/// the later of two a larger one.
pub proof fn numbers_are_given_out_upwards(model: ModelView, input: Input)
    requires
        model.has_room(input),
    ensures
        ({
            let after = model.after(input);
            let effects = model.effects_after(input);
            &&& model.connects.last_attempt <= after.connects.last_attempt
            &&& model.mic.take <= after.mic.take
            &&& model.eq_sends.generation <= after.eq_sends.generation
            &&& forall|i: int|
                0 <= i < effects.len() ==> (requested_attempt(#[trigger] effects[i]) matches Some(
                    n,
                ) ==> model.connects.last_attempt < n <= after.connects.last_attempt)
            &&& forall|i: int, j: int|
                0 <= i < j < effects.len() && requested_attempt(#[trigger] effects[i]) is Some
                    && requested_attempt(#[trigger] effects[j]) is Some ==> requested_attempt(
                    effects[i],
                )->0 < requested_attempt(effects[j])->0
        }),
{
    match input {
        Input::Connect(_) => {},
        Input::Backend(BluetoothUIMessage::ConnectAirPods) => {
            lemma_request_numbers(model, crate::ui::gtk::model::listing::listing(model.devices));
        },
        Input::Backend(message) => {
            lemma_message_numbers(model, message);
        },
        Input::Microphone(input) => {
            lemma_heard_numbers(model, input);
        },
        Input::Equalizer(input) => {
            lemma_equalized_numbers(model, input);
        },
        _ => {
            lemma_other_numbers(model, input);
        },
    }
}

proof fn lemma_all_requested(model: ModelView, macs: Seq<Seq<char>>, mac: Seq<char>)
    requires
        model.connects.last_attempt + macs.len() <= u64::MAX,
    ensures
        model.with_requests(macs).connects.last_attempt <= model.connects.last_attempt
            + macs.len(),
        model.connects.running(mac) || (macs.contains(mac) && model.away(mac)
            && crate::bluetooth::address::address_of(mac) is Some) ==> model.with_requests(
            macs,
        ).connects.running(mac),
        !macs.contains(mac) || !model.away(mac) ==> model.with_requests(macs).connects.of(mac)
            == model.connects.of(mac),
    decreases macs.len(),
{
    if macs.len() > 0 {
        let rest = macs.drop_last();
        lemma_all_requested(model, rest, mac);
        if macs.contains(mac) && mac != macs.last() {
            let i = choose|i: int| 0 <= i < macs.len() && macs[i] == mac;
            assert(rest[i] == mac);
        }
        if rest.contains(mac) {
            let i = choose|i: int| 0 <= i < rest.len() && rest[i] == mac;
            assert(macs[i] == mac);
        }
        assert(macs[macs.len() - 1] == macs.last());
        assert(macs.contains(macs.last()));
    }
}

/// The tray's connect entry requests every known AirPods that are away and
/// have an address, and touches no other request.
pub proof fn the_tray_requests_all_away_airpods(model: ModelView, mac: Seq<char>)
    requires
        model.devices.dom().finite(),
        model.has_room(Input::Backend(BluetoothUIMessage::ConnectAirPods)),
    ensures
        ({
            let after = model.after(Input::Backend(BluetoothUIMessage::ConnectAirPods));
            &&& model.away(mac) && crate::bluetooth::address::address_of(mac) is Some
                ==> after.connects.running(mac)
            &&& !model.away(mac) ==> after.connects.of(mac) == model.connects.of(mac)
        }),
{
    crate::ui::gtk::model::listing::devices_have_an_order(model.devices);
    let macs = crate::ui::gtk::model::listing::listing(model.devices);
    lemma_all_requested(model, macs, mac);
    if model.away(mac) {
        assert(macs.contains(mac));
    }
}

/// A connect that worked and was followed by the device connecting shows no
/// failure: the timeout of its setup does nothing then.
pub proof fn a_connected_device_never_times_out(model: ModelView, mac: String, attempt: u64)
    ensures
        ({
            let connected = model.after(Input::Backend(BluetoothUIMessage::DeviceConnected(mac)));
            let timeout = Input::ConnectSetupTimedOut { mac, attempt };
            &&& connected.after(timeout) == connected
            &&& connected.effects_after(timeout) == crate::ui::gtk::model::nothing_to_do()
        }),
{
}

// The microphone

/// Ending the test from any phase releases the recorder or the player that is
/// there, then resumes exactly the players that were paused for it, and leaves
/// none to resume: ending it again does nothing.
pub proof fn ending_the_test_resumes_the_media_once(model: ModelView)
    ensures
        ({
            let ended = model.after(Input::Microphone(MicInput::Done));
            let effects = model.effects_after(Input::Microphone(MicInput::Done));
            let release = if model.mic.test is Recording || model.mic.test is Ready {
                seq![crate::ui::gtk::model::mic::mic_effect(MicEffectView::Release)]
            } else {
                Seq::empty()
            };
            let resume = if model.mic.paused.len() > 0 {
                seq![
                    crate::ui::gtk::model::mic::mic_effect(
                        MicEffectView::ResumeMedia(model.mic.paused),
                    ),
                ]
            } else {
                Seq::empty()
            };
            &&& effects == release + resume
            &&& ended.mic.test is Idle
            &&& ended.mic.paused.len() == 0
            &&& ended.effects_after(Input::Microphone(MicInput::Done))
                == crate::ui::gtk::model::nothing_to_do()
        }),
{
}

/// The result of a recorder counts only while the recorder is being stopped,
/// and only for the take that stop had. A recording is then played from its
/// start and the players stay paused; an error is shown, the players are
/// resumed, and none is left to resume.
pub proof fn only_the_awaited_recording_counts(
    model: ModelView,
    take: u64,
    result: Result<Recording, String>,
)
    ensures
        ({
            let input = Input::Microphone(MicInput::Recorded { take, result });
            let heard = model.after(input);
            let effects = model.effects_after(input);
            if !(model.mic.test is Stopping) || take != model.mic.take {
                heard == model && effects == crate::ui::gtk::model::nothing_to_do()
            } else {
                match result {
                    Ok(recording) => {
                        &&& heard.mic.test == MicPhase::Ready(
                            crate::ui::gtk::model::mic::fresh_playback(),
                        )
                        &&& heard.mic.paused == model.mic.paused
                        &&& effects == seq![
                            crate::ui::gtk::model::mic::mic_effect(
                                MicEffectView::LoadPlayer(recording.0@),
                            ),
                        ]
                    },
                    Err(e) => {
                        &&& heard.mic.test == MicPhase::Failed(e@)
                        &&& effects == crate::ui::gtk::model::mic::resume_effects(model.mic.paused)
                        &&& heard.mic.paused.len() == 0
                        &&& heard.effects_after(Input::Microphone(MicInput::Done))
                            == crate::ui::gtk::model::nothing_to_do()
                    },
                }
            }
        }),
{
}

/// The stop that an effect asks for.
pub open spec fn stop_take(effect: EffectView) -> Option<u64> {
    match effect {
        EffectView::Microphone(MicEffectView::StopRecording { take }) => Some(take),
        _ => None,
    }
}

/// Whether none of some effects asks for a stop of the recorder.
pub open spec fn no_stop(effects: Seq<EffectView>) -> bool {
    forall|i: int| 0 <= i < effects.len() ==> stop_take(#[trigger] effects[i]) is None
}

proof fn lemma_heard_stops(model: ModelView, input: MicInput)
    requires
        model.mic.take < u64::MAX,
    ensures
        ({
            let after = model.heard(input);
            let effects = model.heard_effects(input);
            &&& model.mic.test is Stopping && after.mic.test is Stopping ==> after.mic.take
                == model.mic.take
            &&& model.mic.test is Stopping ==> no_stop(effects)
            &&& !(model.mic.test is Stopping) && after.mic.test is Stopping ==> effects == seq![
                crate::ui::gtk::model::mic::mic_effect(
                    MicEffectView::StopRecording { take: after.mic.take },
                ),
            ] && after.mic.take > model.mic.take
        }),
{
}

proof fn lemma_messages_stop_nothing(model: ModelView, message: BluetoothUIMessage)
    requires
        model.has_room(Input::Backend(message)),
    ensures
        ({
            let after = model.after_message(message);
            &&& after.mic.test is Stopping ==> after.mic.take == model.mic.take
            &&& after.mic.test is Stopping ==> model.mic.test is Stopping
            &&& no_stop(model.message_effects(message))
        }),
{
    match message {
        BluetoothUIMessage::ConnectAirPods => {
            lemma_requests_stop_nothing(
                model,
                crate::ui::gtk::model::listing::listing(model.devices),
            );
        },
        _ => {},
    }
}

proof fn lemma_others_stop_nothing(model: ModelView, input: Input)
    requires
        !(input is Backend),
        !(input is Microphone),
    ensures
        model.after(input).mic.test == model.mic.test,
        model.after(input).mic.take == model.mic.take,
        no_stop(model.effects_after(input)),
{
}

proof fn lemma_requests_stop_nothing(model: ModelView, macs: Seq<Seq<char>>)
    ensures
        no_stop(model.requests_effects(macs)),
        model.with_requests(macs).mic == model.mic,
    decreases macs.len(),
{
    if macs.len() > 0 {
        lemma_requests_stop_nothing(model, macs.drop_last());
    }
}

/// While the recorder is being stopped, the awaited take is that of the newest
/// stop: the number stays until the test leaves that phase, no input asks for
/// another stop meanwhile, and whatever input enters the phase asks for the
/// stop of the take that is then awaited.
pub proof fn the_newest_stop_is_awaited(model: ModelView, input: Input)
    requires
        model.has_room(input),
    ensures
        ({
            let after = model.after(input);
            let effects = model.effects_after(input);
            &&& model.mic.test is Stopping && after.mic.test is Stopping ==> after.mic.take
                == model.mic.take
            &&& model.mic.test is Stopping ==> no_stop(effects)
            &&& !(model.mic.test is Stopping) && after.mic.test is Stopping ==> effects == seq![
                crate::ui::gtk::model::mic::mic_effect(
                    MicEffectView::StopRecording { take: after.mic.take },
                ),
            ] && after.mic.take > model.mic.take
        }),
{
    match input {
        Input::Backend(message) => {
            lemma_messages_stop_nothing(model, message);
        },
        Input::Microphone(input) => {
            lemma_heard_stops(model, input);
        },
        _ => {
            lemma_others_stop_nothing(model, input);
        },
    }
}

proof fn lemma_ignored(model: ModelView, take: u64, result: Result<Recording, String>)
    requires
        !(model.mic.test is Stopping) || take != model.mic.take,
    ensures
        ({
            let late = Input::Microphone(MicInput::Recorded { take, result });
            &&& model.after(late) == model
            &&& model.effects_after(late) == crate::ui::gtk::model::nothing_to_do()
        }),
{
}

proof fn lemma_late_after_end(model: ModelView, take: u64, result: Result<Recording, String>)
    ensures
        ({
            let late = Input::Microphone(MicInput::Recorded { take, result });
            let ended = model.after(Input::Microphone(MicInput::Done));
            &&& ended.after(late) == ended
            &&& ended.effects_after(late) == crate::ui::gtk::model::nothing_to_do()
        }),
{
    lemma_ignored(model.after(Input::Microphone(MicInput::Done)), take, result);
}

proof fn lemma_late_after_stop(model: ModelView, take: u64, result: Result<Recording, String>)
    requires
        model.mic.test is Recording,
        model.mic.take < u64::MAX,
        take <= model.mic.take,
    ensures
        ({
            let late = Input::Microphone(MicInput::Recorded { take, result });
            let stopped = model.after(Input::Microphone(MicInput::Stop));
            &&& stopped.after(late) == stopped
            &&& stopped.effects_after(late) == crate::ui::gtk::model::nothing_to_do()
        }),
{
    lemma_ignored(model.after(Input::Microphone(MicInput::Stop)), take, result);
}

/// The result of a recorder that was stopped before the test ended, or
/// before a newer take was stopped, changes nothing.
pub proof fn late_recordings_are_ignored(
    model: ModelView,
    take: u64,
    result: Result<Recording, String>,
)
    requires
        model.mic.take < u64::MAX,
        take <= model.mic.take,
    ensures
        ({
            let late = Input::Microphone(MicInput::Recorded { take, result });
            let ended = model.after(Input::Microphone(MicInput::Done));
            let stopped = model.after(Input::Microphone(MicInput::Stop));
            &&& ended.after(late) == ended
            &&& ended.effects_after(late) == crate::ui::gtk::model::nothing_to_do()
            &&& model.mic.test is Recording ==> stopped.after(late) == stopped
                && stopped.effects_after(late) == crate::ui::gtk::model::nothing_to_do()
        }),
{
    lemma_late_after_end(model, take, result);
    if model.mic.test is Recording {
        lemma_late_after_stop(model, take, result);
    }
}

/// A take that was stopped and recorded is played from its start, and the
/// players stay paused meanwhile.
pub proof fn a_stopped_take_becomes_ready(model: ModelView, recording: Recording)
    requires
        model.mic.test is Recording,
        model.mic.take < u64::MAX,
    ensures
        ({
            let stopped = model.after(Input::Microphone(MicInput::Stop));
            let done = Input::Microphone(
                MicInput::Recorded { take: stopped.mic.take, result: Ok(recording) },
            );
            let ready = stopped.after(done);
            &&& ready.mic.test == MicPhase::Ready(crate::ui::gtk::model::mic::fresh_playback())
            &&& ready.mic.paused == model.mic.paused
            &&& stopped.effects_after(done) == seq![
                crate::ui::gtk::model::mic::mic_effect(MicEffectView::LoadPlayer(recording.0@)),
            ]
        }),
{
}

/// A recording is watched also with the window hidden, so its limit is
/// noticed; nothing else ticks then.
pub proof fn only_a_recording_ticks_behind_a_hidden_window(model: ModelView)
    requires
        !model.mic.window_visible,
    ensures
        model.tick_rate() is Some <==> model.mic.test is Recording,
{
}

/// While a capture turns conversation awareness off, its switch does nothing.
pub proof fn a_capture_locks_conversation_awareness(model: ModelView, mac: String, enabled: bool)
    requires
        model.capturing(mac@),
        model.settings.hires_mic_pause_convo,
    ensures
        model.after(Input::SetConversationAwareness(mac, enabled)) == model,
        model.effects_after(Input::SetConversationAwareness(mac, enabled)) == crate::ui::gtk::model::nothing_to_do(),
{
}

// The equalizer

/// A change of the equalizer counts only for connected AirPods whose model
/// takes one, and only where it changes something; otherwise nothing is sent
/// and no delayed send changes. One that counts is shown, is sent at once or
/// after the delay under a number above every number given out before, and
/// stops every older delayed send of the same AirPods. Other AirPods keep
/// their equalizer and their delayed send.
pub proof fn an_equalizer_change_is_sent_or_held(
    model: ModelView,
    mac: String,
    eq: CustomEq,
    at_once: bool,
    older: u64,
    other: Seq<char>,
)
    requires
        model.consistent(),
        model.eq_sends.generation < u64::MAX,
        older <= model.eq_sends.generation,
        other != mac@,
    ensures
        ({
            let set = model.eq_set(mac@, eq, at_once);
            let effects = model.eq_set_effects(mac@, eq, at_once);
            let late = EqInput::SendDue { mac, generation: older };
            if !model.eq_supported(mac@) || !model.airpods.contains_key(mac@) || eq
                == model.eq_shown(mac@) {
                set == model && effects == crate::ui::gtk::model::nothing_to_do()
            } else {
                &&& set.eq_shown(mac@) == eq
                &&& set.eq_sends.generation > model.eq_sends.generation
                &&& effects == seq![
                    EffectView::Equalizer(
                        if at_once {
                            EqEffectView::Send { mac: mac@, eq }
                        } else {
                            EqEffectView::SendLater {
                                mac: mac@,
                                generation: set.eq_sends.generation,
                            }
                        },
                    ),
                ]
                &&& set.equalized(late) == set
                &&& set.equalized_effects(late) == crate::ui::gtk::model::nothing_to_do()
                &&& set.eq_shown(other) == model.eq_shown(other)
                &&& forall|generation: u64|
                    set.eq_due(other, generation) == model.eq_due(other, generation)
            }
        }),
{
}

/// Band changes coalesce into the last one: a newer change cancels every
/// delayed send before it, its own send goes out once and carries what the
/// window shows.
pub proof fn only_the_last_band_change_is_sent(
    model: ModelView,
    mac: String,
    eq: CustomEq,
    older: u64,
)
    requires
        model.consistent(),
        model.eq_sends.generation < u64::MAX,
        model.eq_changes(mac@, eq),
        older <= model.eq_sends.generation,
    ensures
        ({
            let set = model.eq_set(mac@, eq, false);
            let newest = set.eq_sends.generation;
            let due = EqInput::SendDue { mac, generation: newest };
            let late = EqInput::SendDue { mac, generation: older };
            &&& set.equalized(late) == set
            &&& set.equalized_effects(late) == crate::ui::gtk::model::nothing_to_do()
            &&& set.equalized_effects(due) == seq![
                EffectView::Equalizer(EqEffectView::Send { mac: mac@, eq }),
            ]
            &&& set.equalized(due).equalized_effects(due) == crate::ui::gtk::model::nothing_to_do()
        }),
{
}

/// A change that is sent at once cancels the delayed one.
pub proof fn a_send_now_cancels_the_delayed_one(
    model: ModelView,
    mac: String,
    eq: CustomEq,
    generation: u64,
)
    requires
        model.eq_changes(mac@, eq),
    ensures
        ({
            let sent = model.eq_set(mac@, eq, true);
            let due = EqInput::SendDue { mac, generation };
            &&& sent.equalized(due) == sent
            &&& sent.equalized_effects(due) == crate::ui::gtk::model::nothing_to_do()
        }),
{
}

/// Setting the equalizer to what it is sends nothing, and after a reset
/// another one has nothing to do.
pub proof fn equalizer_changes_are_sent_once(model: ModelView, mac: String, enabled: bool)
    requires
        model.eq_sends.generation < u64::MAX,
    ensures
        ({
            let switch = EqInput::SetEnabled(mac, enabled);
            let reset = EqInput::Reset(mac);
            &&& model.equalized(switch).equalized_effects(switch) == crate::ui::gtk::model::nothing_to_do()
            &&& model.equalized(reset).equalized_effects(reset) == crate::ui::gtk::model::nothing_to_do()
        }),
{
}

/// A band never leaves its range, and changes only while the equalizer is on.
pub proof fn bands_stay_in_range(model: ModelView, mac: Seq<char>, band: EqBand, value: u8)
    ensures
        model.eq_shown(mac).enabled ==> band.of(model.eq_with_band(mac, band, value))
            <= crate::bluetooth::eq::BAND_MAX,
        !model.eq_shown(mac).enabled ==> model.eq_with_band(mac, band, value) == model.eq_shown(
            mac,
        ),
{
}

} // verus!
