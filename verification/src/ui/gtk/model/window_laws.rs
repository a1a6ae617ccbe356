//! What the window shows of its devices, and what connecting, naming and the
//! settings page do.

use crate::ui::connect::ConnectStatusView;
use crate::ui::gtk::model::{
    AirPodsView, ContentView, DisconnectedView, EffectView, Input, ModelView, NameHintView, Selection,
    SelectionView, SettingChange, SidebarStatusView, WindowSettings,
};
use crate::ui::messages::BluetoothUIMessage;
use vstd::prelude::*;

verus! {

/// The line of a device has its saved name and says whether it is connected. It
/// shows the batteries of connected AirPods, that another device is connected,
/// and else how the request for it stands.
pub proof fn a_sidebar_line_says_what_is_known(model: ModelView, mac: Seq<char>)
    ensures
        ({
            let line = model.sidebar_entry(mac);
            &&& line.mac == mac
            &&& line.name == model.devices[mac].name
            &&& line.connected <==> model.connected.contains(mac)
            &&& line.status is Batteries <==> model.airpods.contains_key(mac)
            &&& !model.airpods.contains_key(mac) && model.connected.contains(mac) ==> line.status
                == SidebarStatusView::Text("Connected"@)
            &&& !model.airpods.contains_key(mac) && !model.connected.contains(mac) ==> {
                &&& !model.connects.status.contains_key(mac) ==> line.status
                    == SidebarStatusView::Text("Not connected"@)
                &&& model.connects.status.contains_key(mac) && model.connects.status[mac] is Failed
                    ==> line.status == SidebarStatusView::Text("Couldn't connect"@)
                &&& model.connects.status.contains_key(mac) && !(
                model.connects.status[mac] is Failed) ==> line.status == SidebarStatusView::Text(
                    "Connecting…"@,
                )
            }
        }),
{
}

/// The batteries of connected AirPods are those they reported last, with the
/// case level that was remembered for them.
pub proof fn the_reported_batteries_are_shown(model: ModelView, mac: Seq<char>, level: u8)
    requires
        model.airpods.contains_key(mac),
    ensures
        model.shown_batteries(mac) is Some,
        model.last_case_level.contains_key(mac) && model.last_case_level[mac] == level
            ==> model.shown_batteries(mac) == Some(
            crate::ui::gtk::battery::batteries_shown(model.airpods[mac].battery, Some(level)),
        ),
        !model.last_case_level.contains_key(mac) ==> model.shown_batteries(mac) == Some(
            crate::ui::gtk::battery::batteries_shown(model.airpods[mac].battery, None),
        ),
{
}

/// The page of a selected device: its own while it has live state, a message
/// while it is connected without, and else what the saved list says.
pub proof fn the_page_follows_the_device(model: ModelView, mac: Seq<char>)
    requires
        model.selection == SelectionView::Device(mac),
    ensures
        ({
            let page = model.shown_content();
            let live = model.airpods.contains_key(mac);
            let other = !live && model.nothing.contains_key(mac);
            let waits = !live && !other && model.connected.contains(mac);
            let away = !live && !other && !waits;
            &&& live ==> page == ContentView::AirPods(mac)
            &&& other ==> page == ContentView::Nothing(mac)
            &&& waits ==> page == ContentView::Waiting(mac)
            &&& away && !model.devices.contains_key(mac) ==> page == ContentView::Empty
            &&& away && model.devices.contains_key(mac) && model.devices[mac].type_ is AirPods
                ==> page == ContentView::Disconnected(mac)
            &&& away && model.devices.contains_key(mac) && model.devices[mac].type_ is Nothing
                ==> page == ContentView::Unavailable(mac)
        }),
{
}

/// The stack shows the page of the content under the name of the device: the
/// live one of connected AirPods, else the saved one, else its address. A page
/// that is only a message has one.
pub proof fn the_title_is_the_name(model: ModelView, mac: Seq<char>)
    ensures
        ({
            let shown = model.shown_page();
            let content = model.shown_content();
            let name = if model.airpods.contains_key(mac) {
                model.airpods[mac].name
            } else if model.devices.contains_key(mac) {
                model.devices[mac].name
            } else {
                mac
            };
            &&& content == ContentView::AirPods(mac) ==> shown.page is AirPods && shown.title == name
                && shown.status is None
            &&& content == ContentView::Disconnected(mac) ==> shown.page is Disconnected
                && shown.title == name && shown.status is None
            &&& content == ContentView::Nothing(mac) ==> shown.page is Nothing && shown.title == name
                && shown.status is None
            &&& content == ContentView::Waiting(mac) ==> shown.page is Status && shown.title == name
                && shown.status is Some && shown.status->0.title == "Connected"@
            &&& content == ContentView::Unavailable(mac) ==> shown.page is Status && shown.title
                == name && shown.status is Some && shown.status->0.title == "Not connected"@
            &&& content is Settings ==> shown.page is Settings && shown.title == "Settings"@
                && shown.status is None
            &&& content is Empty ==> shown.page is Status && shown.title.len() == 0
                && shown.status is Some && shown.status->0.title == "No devices"@
        }),
{
    reveal_strlit("");
}

/// Without a selection nothing is shown, and the settings page where it is
/// selected. A selection takes effect as it is, and ends an edit of a name.
pub proof fn what_is_selected_is_shown(model: ModelView, selection: Selection)
    ensures
        ({
            let after = model.after(Input::Select(selection));
            &&& after.selection == selection@
            &&& after.name_hint is None
            &&& after.devices == model.devices
            &&& after.airpods == model.airpods
            &&& selection@ is Empty ==> after.shown_content() is Empty
            &&& selection@ is Settings ==> after.shown_content() is Settings
            &&& model.effects_after(Input::Select(selection)).len() == 0
        }),
{
}

/// What the page of AirPods that are away says: the error of a request that
/// failed, that one runs, or that they are not connected.
pub proof fn the_away_page_says_how_it_stands(model: ModelView, mac: Seq<char>)
    ensures
        ({
            let says = model.disconnected_status(mac);
            let request = model.connects.status[mac];
            &&& !model.connects.status.contains_key(mac) ==> says
                == "Not connected to this PC. If they are on your phone, connecting here takes them over."@
            &&& model.connects.status.contains_key(mac) && request is Connecting ==> says
                == "Connecting…"@
            &&& model.connects.status.contains_key(mac) && request is SettingUp ==> says
                == "Connecting…"@
            &&& model.connects.status.contains_key(mac) && request is Failed ==> says
                == request->Failed_0
        }),
{
}

/// A request that can be made asks for a connection to the bytes of the address
/// under the next number, and shows as running. Nothing else changes.
pub proof fn a_request_asks_for_its_address(model: ModelView, mac: String)
    requires
        crate::bluetooth::address::address_of(mac@) is Some,
        model.connects.last_attempt < u64::MAX,
        !model.connects.status.contains_key(mac@) || model.connects.status[mac@] is Failed,
    ensures
        ({
            let after = model.after(Input::Connect(mac));
            let effects = model.effects_after(Input::Connect(mac));
            let number = (model.connects.last_attempt + 1) as u64;
            &&& effects == seq![
                EffectView::Connect {
                    mac: mac@,
                    address: crate::bluetooth::address::address_of(mac@)->0,
                    attempt: number,
                },
            ]
            &&& after.connects.status.contains_key(mac@)
            &&& after.connects.status[mac@] == ConnectStatusView::Connecting(number)
            &&& after.connects.last_attempt == number
            &&& after == (ModelView { connects: after.connects, ..model })
        }),
{
}

/// A text that is no address is never connected to.
pub proof fn only_addresses_are_connected(model: ModelView, mac: String)
    requires
        crate::bluetooth::address::address_of(mac@) is None,
    ensures
        model.after(Input::Connect(mac)) == model,
        model.effects_after(Input::Connect(mac)).len() == 0,
{
}

/// The connect call of the attempt that runs: where it worked, the setup time
/// starts and nobody is told; where it failed, the error is shown and the user
/// is told by name.
pub proof fn a_connect_call_is_answered(
    model: ModelView,
    mac: String,
    attempt: u64,
    result: Result<(), String>,
)
    requires
        model.connects.status.contains_key(mac@),
        model.connects.status[mac@] == ConnectStatusView::Connecting(attempt),
    ensures
        ({
            let input = Input::ConnectFinished { mac, attempt, result };
            let after = model.after(input);
            let name = if model.devices.contains_key(mac@) {
                model.devices[mac@].name
            } else {
                mac@
            };
            &&& result is Ok ==> after.connects.status[mac@] == ConnectStatusView::SettingUp(attempt)
                && model.effects_after(input) == seq![
                EffectView::SetupTimeout { mac: mac@, attempt },
            ]
            &&& result is Err ==> after.connects.status[mac@] == ConnectStatusView::Failed(
                result->Err_0@,
            ) && model.effects_after(input) == seq![
                EffectView::Toast("Could not connect "@ + name),
            ]
        }),
{
}

/// The setup time of the attempt that waits fails it and tells the user by name.
pub proof fn the_setup_time_runs_out(model: ModelView, mac: String, attempt: u64)
    requires
        model.connects.status.contains_key(mac@),
        model.connects.status[mac@] == ConnectStatusView::SettingUp(attempt),
    ensures
        ({
            let input = Input::ConnectSetupTimedOut { mac, attempt };
            let after = model.after(input);
            let name = if model.devices.contains_key(mac@) {
                model.devices[mac@].name
            } else {
                mac@
            };
            &&& after.connects.status[mac@] is Failed
            &&& model.effects_after(input) == seq![
                EffectView::Toast("Could not connect "@ + name),
            ]
        }),
{
}

/// A device that connects is listed, its request is over, and its state and the
/// saved list are read.
pub proof fn a_connected_device_is_read(model: ModelView, mac: String)
    ensures
        ({
            let input = Input::Backend(BluetoothUIMessage::DeviceConnected(mac));
            let after = model.after(input);
            &&& after.connected == model.connected.insert(mac@)
            &&& !after.connects.status.contains_key(mac@)
            &&& after.airpods == model.airpods
            &&& after.selection == model.selection
            &&& model.effects_after(input) == seq![
                EffectView::LoadDevices,
                EffectView::Snapshot(mac@),
            ]
        }),
{
}

/// A device that disconnects loses its live state, its edit of a name and its
/// held equalizer, and no other device does; the saved list and the case level
/// stay.
pub proof fn a_disconnected_device_loses_its_state(
    model: ModelView,
    mac: String,
    other: Seq<char>,
)
    requires
        other != mac@,
    ensures
        ({
            let after = model.after(Input::Backend(BluetoothUIMessage::DeviceDisconnected(mac)));
            &&& after.connected == model.connected.remove(mac@)
            &&& !after.airpods.contains_key(mac@)
            &&& !after.nothing.contains_key(mac@)
            &&& !after.eq_sends.pending.contains_key(mac@)
            &&& after.airpods.contains_key(other) <==> model.airpods.contains_key(other)
            &&& model.airpods.contains_key(other) ==> after.airpods[other] == model.airpods[other]
            &&& after.nothing.contains_key(other) <==> model.nothing.contains_key(other)
            &&& after.eq_sends.pending.contains_key(other) <==> model.eq_sends.pending.contains_key(
                other,
            )
            &&& model.name_hint matches Some((of, _)) ==> (of == mac@ ==> after.name_hint is None)
                && (of != mac@ ==> after.name_hint == model.name_hint)
            &&& after.last_case_level == model.last_case_level
            &&& after.devices == model.devices
            &&& after.selection == model.selection
            &&& after.settings == model.settings
        }),
{
}

/// Opening the window brings it to the front and reads the saved list; the model
/// stays.
pub proof fn opening_shows_the_window(model: ModelView)
    ensures
        model.after(Input::Backend(BluetoothUIMessage::OpenWindow)) == model,
        model.effects_after(Input::Backend(BluetoothUIMessage::OpenWindow)) == seq![
            EffectView::PresentWindow,
            EffectView::LoadDevices,
        ],
{
}

/// An edit of the name field has the hint that it can be sent, or why not; the
/// name that is there needs none. Nothing is sent.
pub proof fn an_edit_has_its_hint(model: ModelView, mac: String, text: String, other: Seq<char>)
    requires
        other != mac@,
    ensures
        ({
            let after = model.after(Input::NameEdited(mac, text));
            let same = model.airpods.contains_key(mac@) && model.airpods[mac@].name == text@;
            let checked = crate::ui::format::checked_name(text@);
            &&& same ==> after.hint_for(mac@) is None
            &&& !same && checked is Ok ==> after.hint_for(mac@) == Some(NameHintView::PressEnter)
            &&& !same && checked is Err ==> after.hint_for(mac@) == Some(
                NameHintView::Invalid(checked->Err_0),
            )
            &&& after.hint_for(other) is None
            &&& after.airpods == model.airpods
            &&& model.effects_after(Input::NameEdited(mac, text)).len() == 0
        }),
{
}

/// A name that passes the check is shown at once and sent where it is new; it
/// ends the edit and changes nothing else of the AirPods. One that does not pass
/// changes the hint only.
pub proof fn a_checked_name_is_shown_and_sent(model: ModelView, mac: String, text: String)
    requires
        model.airpods.contains_key(mac@),
    ensures
        ({
            let input = Input::Rename(mac, text);
            let after = model.after(input);
            let effects = model.effects_after(input);
            let checked = crate::ui::format::checked_name(text@);
            &&& checked is Ok ==> {
                &&& after.airpods[mac@] == (AirPodsView {
                    name: checked->Ok_0,
                    ..model.airpods[mac@]
                })
                &&& after.name_hint is None
                &&& model.airpods[mac@].name != checked->Ok_0 ==> effects == seq![
                    EffectView::Rename { mac: mac@, name: checked->Ok_0 },
                ]
                &&& model.airpods[mac@].name == checked->Ok_0 ==> effects.len() == 0
            }
            &&& checked is Err ==> {
                &&& after.airpods == model.airpods
                &&& after.name_hint == Some((mac@, NameHintView::Invalid(checked->Err_0)))
                &&& effects.len() == 0
            }
        }),
{
}

/// Each change of the settings page sets its own setting, keeps every other and
/// has the settings saved. A theme is applied too, before it is saved.
pub proof fn each_setting_is_set_and_saved(model: ModelView, change: SettingChange)
    ensures
        ({
            let was = model.settings;
            let is = model.after(Input::Setting(change)).settings;
            let effects = model.effects_after(Input::Setting(change));
            &&& change matches SettingChange::Theme(theme) ==> is == (WindowSettings {
                theme,
                ..was
            }) && effects == seq![EffectView::ApplyTheme(theme), EffectView::SaveSettings]
            &&& !(change is Theme) ==> effects == seq![EffectView::SaveSettings]
            &&& change matches SettingChange::TrayTextMode(on) ==> is == (WindowSettings {
                tray_text_mode: on,
                ..was
            })
            &&& change matches SettingChange::PreferredCodec(codec) ==> is == (WindowSettings {
                preferred_codec: codec,
                ..was
            })
            &&& change matches SettingChange::AutoSwitchOnPlayback(on) ==> is == (WindowSettings {
                auto_switch_on_playback: on,
                ..was
            })
            &&& change matches SettingChange::A2dpReset(on) ==> is == (WindowSettings {
                a2dp_reset: on,
                ..was
            })
            &&& change matches SettingChange::HiResMicAgc(on) ==> is == (WindowSettings {
                hires_mic_agc: on,
                ..was
            })
            &&& change matches SettingChange::HiResMicPauseConvo(on) ==> is == (WindowSettings {
                hires_mic_pause_convo: on,
                ..was
            })
            &&& change matches SettingChange::StemControl(on) ==> is == (WindowSettings {
                stem_control: on,
                ..was
            })
            &&& model.after(Input::Setting(change)) == (ModelView { settings: is, ..model })
        }),
{
}

/// A toast is shown as it is and changes nothing.
pub proof fn a_toast_is_shown_as_it_is(model: ModelView, text: String)
    ensures
        model.after(Input::Toast(text)) == model,
        model.effects_after(Input::Toast(text)) == seq![EffectView::Toast(text@)],
{
}

/// A window that just opened shows nothing of any device, and only the settings
/// it was given.
pub proof fn a_fresh_window_knows_nothing(settings: WindowSettings, mac: Seq<char>)
    ensures
        ({
            let model = ModelView::fresh(settings);
            &&& model.settings == settings
            &&& !model.devices.contains_key(mac)
            &&& !model.airpods.contains_key(mac)
            &&& !model.nothing.contains_key(mac)
            &&& !model.connected.contains(mac)
            &&& !model.connects.status.contains_key(mac)
            &&& model.selection is Empty
            &&& model.shown_content() is Empty
            &&& model.name_hint is None
            &&& model.mic.test is Idle
            &&& model.mic.paused.len() == 0
            &&& model.consistent()
        }),
{
}

/// AirPods are away where they are known and not connected.
pub proof fn away_airpods_are_known_and_not_connected(model: ModelView, mac: Seq<char>)
    ensures
        model.away(mac) <==> (model.devices.contains_key(mac) && model.devices[mac].type_ is AirPods
            && !model.connected.contains(mac)),
{
}

/// A hint says that Enter renames, or why the draft cannot be sent.
pub proof fn hints_say_what_to_do(why: Seq<char>)
    ensures
        NameHintView::PressEnter.shown() == "Press Enter to rename"@,
        NameHintView::Invalid(why).shown() == why,
{
}

/// The saved list is the one that was read last. It changes nothing else but the
/// selection, and that only where nothing was selected.
pub proof fn the_list_that_was_read_counts(
    model: ModelView,
    devices: crate::address_map::AddressMap<crate::devices::enums::DeviceData>,
)
    ensures
        ({
            let after = model.after(Input::DevicesLoaded(devices));
            &&& after.devices == devices@
            &&& !(model.selection is Empty) ==> after.selection == model.selection
            &&& !(after.selection is Settings) || model.selection is Settings
            &&& after == (ModelView {
                devices: devices@,
                selection: after.selection,
                ..model
            })
            &&& model.effects_after(Input::DevicesLoaded(devices)).len() == 0
        }),
{
}

/// A change in the settings sections counts for connected AirPods alone, and for
/// those it was made on.
pub proof fn section_changes_are_of_connected_airpods(
    model: ModelView,
    mac: String,
    change: crate::ui::gtk::controls::ControlChange,
    other: Seq<char>,
)
    requires
        other != mac@,
    ensures
        ({
            let input = Input::AirPodsControl(mac, change);
            let after = model.after(input);
            &&& !model.airpods.contains_key(mac@) ==> after == model && model.effects_after(
                input,
            ).len() == 0
            &&& after.airpods[other] == model.airpods[other]
            &&& after.settings == model.settings
            &&& after.eq_sends == model.eq_sends
            &&& model.airpods.contains_key(mac@) ==> match change.value(model.airpods[mac@]) {
                Some(value) => {
                    let id = change.identifier();
                    &&& after.airpods[mac@].control_values.contains_key(id.number())
                    &&& after.airpods[mac@].control_values[id.number()] == value
                    &&& after.airpods[mac@].listening_mode == model.airpods[mac@].listening_mode
                    &&& change is ToneVolume || change is AdaptiveNoise
                        ==> after.settling.pending.contains_key((mac@, id.number()))
                        && after.settling.pending[(mac@, id.number())].1 == value
                    &&& !(change is ToneVolume || change is AdaptiveNoise) ==> after.settling
                        == model.settling && model.effects_after(input) == seq![
                        EffectView::SendControl { mac: mac@, identifier: id, value },
                    ]
                },
                None => after == model && model.effects_after(input).len() == 0,
            }
        }),
{
    if model.airpods.contains_key(mac@) {
        assert(model.airpods.insert(mac@, model.airpods[mac@]) =~= model.airpods);
    }
}

/// A slider value that was held goes out to AirPods that are still connected,
/// once, as it was held.
pub proof fn a_rested_slider_is_sent_once(
    model: ModelView,
    mac: String,
    identifier: crate::bluetooth::aacp::ControlCommandIdentifiers,
    generation: u64,
)
    ensures
        ({
            let input = Input::ControlSettled { mac, identifier, generation };
            let key = (mac@, identifier.number());
            let due = model.settling.pending.contains_key(key) && model.settling.pending[key].0
                == generation;
            let after = model.after(input);
            &&& due && model.airpods.contains_key(mac@) ==> model.effects_after(input) == seq![
                EffectView::SendControl {
                    mac: mac@,
                    identifier,
                    value: model.settling.pending[key].1,
                },
            ]
            &&& !due || !model.airpods.contains_key(mac@) ==> model.effects_after(input).len() == 0
            &&& due ==> !after.settling.pending.contains_key(key)
            &&& !due ==> after == model
            &&& after.airpods == model.airpods
        }),
{
}

/// An answer to a connect call that is not the one awaited changes no request.
pub proof fn late_answers_change_no_request(
    model: ModelView,
    mac: String,
    attempt: u64,
    result: Result<(), String>,
)
    requires
        !model.connects.status.contains_key(mac@) || model.connects.status[mac@]
            != ConnectStatusView::Connecting(attempt),
    ensures
        model.after(Input::ConnectFinished { mac, attempt, result }) == model,
{
}

/// The button of the page of AirPods that are away asks for a connection, unless
/// one is under way; that is so exactly while the page says so.
pub proof fn the_button_waits_for_the_request(
    model: ModelView,
    mac: Seq<char>,
    shown: DisconnectedView,
)
    requires
        shown.connecting == model.connects.running(mac),
    ensures
        shown.connecting <==> model.connects.status.contains_key(mac) && !(
        model.connects.status[mac] is Failed),
        shown.connecting ==> shown.button_text() == "Connecting…"@ && model.disconnected_status(mac)
            == "Connecting…"@,
        !shown.connecting ==> shown.button_text() == "Connect to this PC"@,
{
}

} // verus!
