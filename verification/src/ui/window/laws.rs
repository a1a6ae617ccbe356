//! What holds of the iced window whatever happens to it.

use crate::bluetooth::aacp::BatteryInfo;
use crate::ui::messages::BluetoothUIMessage;
use crate::ui::window::{AppTaskView, AppView, Message, Reading};
use vstd::prelude::*;

verus! {

/// A request to connect that runs is not repeated, wherever it comes from.
pub proof fn a_running_request_is_not_repeated(app: AppView, mac: String)
    requires
        app.connects.contains_key(mac@),
        app.connects[mac@] is Connecting,
    ensures
        app.after(Message::ConnectDevice(mac)) == app,
        app.tasks_after(Message::ConnectDevice(mac)) == crate::ui::window::idle(),
{
}

/// A request to connect a valid address asks for one connection, and the
/// device shows as connecting until it is answered.
pub proof fn a_request_connects_once(app: AppView, mac: String)
    requires
        app.connectable(mac@),
    ensures
        app.tasks_after(Message::ConnectDevice(mac)) == seq![
            AppTaskView::Connect {
                mac: mac@,
                address: crate::bluetooth::address::address_of(mac@)->0,
            },
        ],
        !app.after(Message::ConnectDevice(mac)).connectable(mac@),
        app.after(Message::ConnectDevice(mac)).after(Message::ConnectDevice(mac)) == app.after(
            Message::ConnectDevice(mac),
        ),
{
    assert(app.tasks_after(Message::ConnectDevice(mac)) =~= seq![
        AppTaskView::Connect {
            mac: mac@,
            address: crate::bluetooth::address::address_of(mac@)->0,
        },
    ]);
}

proof fn lemma_requested(app: AppView, macs: Seq<Seq<char>>, mac: Seq<char>)
    ensures
        app.all_requested(macs).connected == app.connected,
        !app.connectable(mac) ==> !app.all_requested(macs).connectable(mac),
        macs.contains(mac) && !app.connected.contains(mac) ==> !app.all_requested(
            macs,
        ).connectable(mac),
    decreases macs.len(),
{
    if macs.len() > 0 {
        lemma_requested(app, macs.drop_last(), mac);
        lemma_requested(app, macs.drop_last(), macs.last());
        if macs.contains(mac) && macs.last() != mac {
            let i = choose|i: int| 0 <= i < macs.len() && macs[i] == mac;
            assert(macs.drop_last()[i] == mac);
        }
    }
}

proof fn lemma_nothing_requested(app: AppView, macs: Seq<Seq<char>>)
    requires
        forall|mac: Seq<char>| #[trigger]
            macs.contains(mac) && !app.connected.contains(mac) ==> !app.connectable(mac),
    ensures
        app.all_requested(macs) == app,
        app.all_request_tasks(macs) == crate::ui::window::idle().push(AppTaskView::Wait),
    decreases macs.len(),
{
    if macs.len() > 0 {
        assert forall|mac: Seq<char>| #[trigger]
            macs.drop_last().contains(mac) && !app.connected.contains(
                mac,
            ) implies !app.connectable(mac) by {
            let i = choose|i: int| 0 <= i < macs.drop_last().len() && macs.drop_last()[i] == mac;
            assert(macs[i] == mac);
            assert(macs.contains(mac));
        }
        lemma_nothing_requested(app, macs.drop_last());
        assert(macs.contains(macs.last()));
    }
}

/// Asking for the known AirPods twice connects each of them once: the second
/// time nothing is left to ask for.
pub proof fn the_known_airpods_are_requested_once(app: AppView, first: Reading, second: Reading)
    requires
        crate::text::texts(first.known_airpods@) == crate::text::texts(second.known_airpods@),
    ensures
        ({
            let asked = app.after(Message::BluetoothMessage(BluetoothUIMessage::ConnectAirPods, first));
            let again = Message::BluetoothMessage(BluetoothUIMessage::ConnectAirPods, second);
            asked.after(again) == asked && asked.tasks_after(again) == seq![AppTaskView::Wait]
        }),
{
    let macs = crate::text::texts(first.known_airpods@);
    let asked = app.all_requested(macs);
    assert forall|mac: Seq<char>| #[trigger]
        macs.contains(mac) && !asked.connected.contains(mac) implies !asked.connectable(mac) by {
        lemma_requested(app, macs, mac);
    }
    lemma_nothing_requested(asked, macs);
    assert(crate::ui::window::idle().push(AppTaskView::Wait) =~= seq![AppTaskView::Wait]);
}

proof fn lemma_waits(app: AppView, macs: Seq<Seq<char>>)
    ensures
        app.all_request_tasks(macs).len() > 0,
        app.all_request_tasks(macs)[0] == AppTaskView::Wait,
    decreases macs.len(),
{
    if macs.len() > 0 {
        lemma_waits(app, macs.drop_last());
    }
}

/// Every message of the Bluetooth side is followed by a wait for the next one.
pub proof fn the_next_message_is_awaited(
    app: AppView,
    message: BluetoothUIMessage,
    reading: Reading,
)
    ensures
        app.tasks_after(Message::BluetoothMessage(message, reading)).contains(AppTaskView::Wait),
        app.tasks_after(Message::BluetoothIdle).contains(AppTaskView::Wait),
{
    lemma_waits(app, crate::text::texts(reading.known_airpods@));
    let tasks = app.tasks_after(Message::BluetoothMessage(message, reading));
    assert(tasks[0] == AppTaskView::Wait || tasks[1] == AppTaskView::Wait);
    assert(app.tasks_after(Message::BluetoothIdle)[0] == AppTaskView::Wait);
}

/// Settings are saved whenever a message changes them.
pub proof fn changed_settings_are_saved(app: AppView, message: Message)
    ensures
        app.after(message).settings != app.settings ==> app.tasks_after(message).contains(
            AppTaskView::SaveSettings,
        ),
{
    let tasks = app.tasks_after(message);
    match message {
        Message::BluetoothMessage(m, reading) => {
            match m {
                BluetoothUIMessage::ConnectAirPods => {
                    lemma_requests_keep(app, crate::text::texts(reading.known_airpods@));
                },
                _ => {},
            }
        },
        Message::Changed(_, _) => {
            assert(app.after(message).settings != app.settings ==> tasks.last()
                == AppTaskView::SaveSettings && tasks.len() > 0);
        },
        Message::StateChanged(_, _) => {
            assert(app.after(message).settings != app.settings ==> tasks[0]
                == AppTaskView::SaveSettings);
        },
        _ => {
            assert(app.after(message).settings != app.settings ==> tasks[0]
                == AppTaskView::SaveSettings);
        },
    }
}

proof fn lemma_requests_keep(app: AppView, macs: Seq<Seq<char>>)
    ensures
        app.all_requested(macs).settings == app.settings,
        app.all_requested(macs).connected == app.connected,
        app.all_requested(macs).last_case_level == app.last_case_level,
    decreases macs.len(),
{
    if macs.len() > 0 {
        lemma_requests_keep(app, macs.drop_last());
    }
}

/// The case level of a device is never forgotten: the sidebar can show the
/// last one it reported.
pub proof fn the_case_level_is_kept(app: AppView, message: Message, mac: Seq<char>)
    requires
        app.last_case_level.contains_key(mac),
    ensures
        app.after(message).last_case_level.contains_key(mac),
{
    match message {
        Message::BluetoothMessage(BluetoothUIMessage::ConnectAirPods, reading) => {
            lemma_requests_keep(app, crate::text::texts(reading.known_airpods@));
        },
        _ => {},
    }
}

proof fn lemma_without(macs: Seq<Seq<char>>, mac: Seq<char>)
    ensures
        !crate::ui::window::without(macs, mac).contains(mac),
        forall|k: Seq<char>| #[trigger]
            crate::ui::window::without(macs, mac).contains(k) ==> macs.contains(k),
        forall|k: Seq<char>| #[trigger]
            macs.contains(k) && k != mac ==> crate::ui::window::without(macs, mac).contains(k),
        macs.no_duplicates() ==> crate::ui::window::without(macs, mac).no_duplicates(),
    decreases macs.len(),
{
    let rest = crate::ui::window::without(macs, mac);
    if macs.len() > 0 {
        let front = macs.drop_last();
        lemma_without(front, mac);
        let kept = crate::ui::window::without(front, mac);
        assert forall|k: Seq<char>| #[trigger] rest.contains(k) implies macs.contains(k) && k
            != mac by {
            let i = choose|i: int| 0 <= i < rest.len() && rest[i] == k;
            if i < kept.len() {
                assert(kept[i] == k);
                assert(kept.contains(k));
                assert(front.contains(k));
                let j = choose|j: int| 0 <= j < front.len() && front[j] == k;
                assert(macs[j] == k);
            } else {
                assert(macs[macs.len() - 1] == k);
            }
        }
        assert forall|k: Seq<char>| #[trigger] macs.contains(k) && k != mac implies rest.contains(
            k,
        ) by {
            let i = choose|i: int| 0 <= i < macs.len() && macs[i] == k;
            if i < front.len() {
                assert(front[i] == k);
                assert(front.contains(k));
                let j = choose|j: int| 0 <= j < kept.len() && kept[j] == k;
                assert(rest[j] == k);
            } else {
                assert(rest[rest.len() - 1] == k);
            }
        }
        if macs.no_duplicates() {
            assert(front.no_duplicates());
            assert forall|i: int, j: int| 0 <= i < j < rest.len() implies rest[i] != rest[j] by {
                if j == kept.len() {
                    assert(kept.contains(kept[i]));
                    assert(front.contains(kept[i]));
                    let n = choose|n: int| 0 <= n < front.len() && front[n] == kept[i];
                    assert(macs[n] != macs[macs.len() - 1]);
                }
            }
        }
    }
}

/// No device is ever listed as connected twice.
pub proof fn a_device_connects_once(app: AppView, message: Message)
    requires
        app.connected.no_duplicates(),
    ensures
        app.after(message).connected.no_duplicates(),
{
    match message {
        Message::BluetoothMessage(BluetoothUIMessage::ConnectAirPods, reading) => {
            lemma_requests_keep(app, crate::text::texts(reading.known_airpods@));
        },
        Message::BluetoothMessage(BluetoothUIMessage::DeviceDisconnected(mac), _) => {
            lemma_without(app.connected, mac@);
        },
        Message::BluetoothMessage(BluetoothUIMessage::DeviceConnected(mac), reading) => {
            let now = app.after(message).connected;
            if !app.connected.contains(mac@) {
                assert(now == app.connected.push(mac@));
                assert forall|i: int, j: int| 0 <= i < j < now.len() implies now[i] != now[j] by {
                    if j == app.connected.len() {
                        assert(app.connected[i] != mac@);
                    }
                }
            }
        },
        _ => {},
    }
}

/// A device that connects is listed, and its request is over; one that
/// disconnects leaves the list and loses its state, and every other device
/// stays.
pub proof fn connections_are_listed(app: AppView, mac: String, other: Seq<char>, reading: Reading)
    ensures
        ({
            let m = BluetoothUIMessage::DeviceConnected(mac);
            let on = app.after(Message::BluetoothMessage(m, reading));
            on.connected.contains(mac@) && !on.connects.contains_key(mac@)
        }),
        ({
            let m = BluetoothUIMessage::DeviceDisconnected(mac);
            let off = app.after(Message::BluetoothMessage(m, reading));
            &&& !off.connected.contains(mac@)
            &&& !off.states.contains_key(mac@)
            &&& other != mac@ ==> off.connected.contains(other) == app.connected.contains(other)
        }),
{
    lemma_without(app.connected, mac@);
    if !app.connected.contains(mac@) {
        assert(app.connected.push(mac@)[app.connected.len() as int] == mac@);
    }
}

/// The media paused for the microphone test is resumed when the test is done,
/// and only once.
pub proof fn paused_media_is_resumed_once(app: AppView)
    ensures
        app.tasks_after(Message::MicTestDone) == seq![
            AppTaskView::ReleaseTest,
            AppTaskView::ResumeMedia(app.paused),
        ],
        app.after(Message::MicTestDone).paused.len() == 0,
        app.after(Message::MicTestDone).tasks_after(Message::MicTestDone) == seq![
            AppTaskView::ReleaseTest,
            AppTaskView::ResumeMedia(Seq::empty()),
        ],
{
    assert(app.tasks_after(Message::MicTestDone) =~= seq![
        AppTaskView::ReleaseTest,
        AppTaskView::ResumeMedia(app.paused),
    ]);
    assert(app.after(Message::MicTestDone).tasks_after(Message::MicTestDone) =~= seq![
        AppTaskView::ReleaseTest,
        AppTaskView::ResumeMedia(Seq::empty()),
    ]);
}

/// Recording again keeps the players of the first take paused: none is paused
/// a second time, and none is lost.
pub proof fn another_take_keeps_the_players(app: AppView)
    requires
        app.paused.len() > 0,
    ensures
        app.after(Message::MicTestRecord).paused == app.paused,
        app.after(Message::MicTestRecord).test is Recording,
        app.tasks_after(Message::MicTestRecord) == seq![AppTaskView::StartRecorder],
{
    assert(app.tasks_after(Message::MicTestRecord) =~= seq![AppTaskView::StartRecorder]);
}

/// Cancelling takes back what starting to add a device did.
pub proof fn cancelling_undoes_starting(app: AppView, name: String, mac: String)
    requires
        app.pending is None,
        app.selected_type is None,
    ensures
        app.after(Message::StartAddDevice(name, mac)).after(Message::CancelAddDevice) == app,
        app.after(Message::StartAddDevice(name, mac)).tasks_after(Message::CancelAddDevice)
            == crate::ui::window::idle(),
{
}

/// A device is added under the name and address it was picked with, and shown.
pub proof fn a_picked_device_is_added(
    app: AppView,
    name: String,
    mac: String,
    type_: crate::devices::enums::DeviceType,
)
    ensures
        ({
            let picked = app.after(Message::StartAddDevice(name, mac)).after(
                Message::SelectDeviceType(type_),
            );
            &&& picked.tasks_after(Message::ConfirmAddDevice) == seq![
                AppTaskView::SaveDevice { mac: mac@, name: name@, type_ },
                AppTaskView::LoadDevices,
            ]
            &&& picked.after(Message::ConfirmAddDevice).selected_tab
                == crate::ui::window::TabView::Device(mac@)
            &&& picked.after(Message::ConfirmAddDevice).pending is None
        }),
{
    let picked = app.after(Message::StartAddDevice(name, mac)).after(
        Message::SelectDeviceType(type_),
    );
    assert(picked.tasks_after(Message::ConfirmAddDevice) =~= seq![
        AppTaskView::SaveDevice { mac: mac@, name: name@, type_ },
        AppTaskView::LoadDevices,
    ]);
}

/// Only the last of several band changes is sent: the delay of an earlier one
/// finds a newer generation.
pub proof fn an_older_band_change_is_not_sent(app: AppView, mac: String, generation: u64)
    requires
        app.airpods_state(mac@) matches Some(state) && state.custom_eq.generation != generation,
    ensures
        app.tasks_after((Message::EqDue { mac, generation })) == crate::ui::window::idle(),
{
}

/// Every known device is in the sidebar, once, and nothing else is.
pub proof fn the_sidebar_shows_every_device(app: AppView)
    requires
        app.devices.dom().finite(),
    ensures
        forall|i: int|
            0 <= i < app.sidebar().len() ==> app.devices.contains_key(
                (#[trigger] app.sidebar()[i]).mac,
            ),
        forall|i: int, j: int|
            0 <= i < j < app.sidebar().len() ==> (#[trigger] app.sidebar()[i]).mac != (
            #[trigger] app.sidebar()[j]).mac,
        forall|mac: Seq<char>| #[trigger]
            app.devices.contains_key(mac) ==> exists|i: int|
                0 <= i < app.sidebar().len() && (#[trigger] app.sidebar()[i]).mac == mac,
{
    crate::ui::gtk::model::listing::devices_have_an_order(app.devices);
    let macs = crate::ui::gtk::model::listing::listing(app.devices);
    assert forall|i: int| 0 <= i < app.sidebar().len() implies app.devices.contains_key(
        (#[trigger] app.sidebar()[i]).mac,
    ) by {
        assert(app.sidebar()[i].mac == macs[i]);
        assert(macs.contains(macs[i]));
    }
    assert forall|i: int, j: int| 0 <= i < j < app.sidebar().len() implies (
    #[trigger] app.sidebar()[i]).mac != (#[trigger] app.sidebar()[j]).mac by {
        assert(crate::ui::gtk::model::listing::listed_before(app.devices, macs[i], macs[j]));
        crate::text::order_is_irreflexive(macs[i]);
        crate::text::order_is_irreflexive(app.devices[macs[i]].name);
    }
    assert forall|mac: Seq<char>| #[trigger] app.devices.contains_key(mac) implies exists|i: int|
        0 <= i < app.sidebar().len() && (#[trigger] app.sidebar()[i]).mac == mac by {
        assert(macs.contains(mac));
        let i = choose|i: int| 0 <= i < macs.len() && macs[i] == mac;
        assert(app.sidebar()[i].mac == mac);
    }
}

/// Only the case can show a stale level, and only while it reports none.
pub proof fn only_a_silent_case_is_stale(battery: Seq<BatteryInfo>, last_case: Option<u8>, i: int)
    requires
        0 <= i < crate::ui::window::view::shown_parts(battery, last_case).len(),
        crate::ui::window::view::shown_parts(battery, last_case)[i].1,
    ensures
        i == 2,
        crate::ui::format::case_level(battery) is None,
        last_case is Some,
{
}

} // verus!
