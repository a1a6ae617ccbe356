//! What the pages and the sidebar of the window show, and what a change on
//! them says.

use crate::bluetooth::aacp::{BatteryComponent, BatteryInfo};
use crate::devices::airpods::AirPodsInformationView;
use crate::devices::enums::{
    DeviceDataView, DeviceInformationView, DeviceType, NothingAncMode,
};
use crate::devices::state::AirPodsStateView;
use crate::time::Duration;
use crate::ui::airpods::{MicReading, MicUse, TestButton};
use crate::ui::choice::Choice;
use crate::ui::gtk::controls::ControlChange;
use crate::ui::gtk::model::equalizer::EqBand;
use crate::ui::page::{ControlView, Item};
use crate::ui::window::view::{AddPageView, ContentView, EntryStatusView, Managers};
use crate::ui::window::{AirPodsChange, AppView, Message, MicTestPhase, TabView};
use crate::utils::AppSettings;
use vstd::prelude::*;

verus! {

// The sidebar

/// A known level is written as its number and a percent sign, with a mark
/// behind it exactly while it charges; anything else is a dash.
pub proof fn level_texts_read_back(info: BatteryInfo)
    ensures
        ({
            let text = crate::ui::window::view::level_text(Some(info));
            let known = info.level <= 100 && !(info.status is Disconnected);
            let charges = info.status is Charging || info.status is OptimizedCharging;
            &&& !known ==> text == "-"@
            &&& known && !charges ==> text.last() == '%' && crate::text::number_of(text.drop_last())
                == info.level
            &&& known && charges ==> text.last() == '\u{1002E6}' && text.drop_last().last() == '%'
                && crate::text::number_of(text.drop_last().drop_last()) == info.level
            &&& crate::ui::window::view::level_text(None) == "-"@
        }),
{
    reveal_strlit("%");
    reveal_strlit("");
    reveal_strlit("\u{1002E6}");
    let text = crate::ui::window::view::level_text(Some(info));
    let number = crate::text::decimal(info.level as nat);
    let known = info.level <= 100 && !(info.status is Disconnected);
    crate::text::decimals_read_back(info.level as nat);
    if known && !info.status.charges() {
        assert(text =~= number.push('%'));
        assert(text.drop_last() =~= number);
    }
    if known && info.status.charges() {
        assert(text =~= number.push('%').push('\u{1002E6}'));
        assert(text.drop_last() =~= number.push('%'));
        assert(text.drop_last().drop_last() =~= number);
    }
}

/// Headphones have one part, with the level they report. Earbuds have three, the
/// left, the right and the case, each behind its own mark; of these only the case
/// can be stale.
pub proof fn the_battery_line_shows_each_part(
    battery: Seq<BatteryInfo>,
    last_case: Option<u8>,
    headphone: Option<BatteryInfo>,
    left: Option<BatteryInfo>,
    right: Option<BatteryInfo>,
)
    requires
        headphone == crate::ui::format::first_of(battery, BatteryComponent::Headphone),
        left == crate::ui::format::first_of(battery, BatteryComponent::Left),
        right == crate::ui::format::first_of(battery, BatteryComponent::Right),
    ensures
        ({
            let parts = crate::ui::window::view::shown_parts(battery, last_case);
            let (case, stale) = crate::ui::window::view::case_part(battery, last_case);
            &&& headphone is Some ==> parts == seq![
                (
                    seq!['\u{100EB9}', ' '] + crate::ui::window::view::level_text(headphone),
                    false,
                ),
            ]
            &&& headphone is None ==> parts == seq![
                (seq!['\u{1018E5}', ' '] + crate::ui::window::view::level_text(left), false),
                (seq!['\u{1018E8}', ' '] + crate::ui::window::view::level_text(right), false),
                (seq!['\u{100E6C}', ' '] + case, stale),
            ]
        }),
{
    reveal_strlit("\u{100EB9} ");
    reveal_strlit("\u{1018E5} ");
    reveal_strlit("\u{1018E8} ");
    reveal_strlit("\u{100E6C} ");
    assert("\u{100EB9} "@ =~= seq!['\u{100EB9}', ' ']);
    assert("\u{1018E5} "@ =~= seq!['\u{1018E5}', ' ']);
    assert("\u{1018E8} "@ =~= seq!['\u{1018E8}', ' ']);
    assert("\u{100E6C} "@ =~= seq!['\u{100E6C}', ' ']);
    let parts = crate::ui::window::view::shown_parts(battery, last_case);
    let (case, stale) = crate::ui::window::view::case_part(battery, last_case);
    if headphone is Some {
        assert(parts =~= seq![
            (seq!['\u{100EB9}', ' '] + crate::ui::window::view::level_text(headphone), false),
        ]);
    } else {
        assert(parts =~= seq![
            (seq!['\u{1018E5}', ' '] + crate::ui::window::view::level_text(left), false),
            (seq!['\u{1018E8}', ' '] + crate::ui::window::view::level_text(right), false),
            (seq!['\u{100E6C}', ' '] + case, stale),
        ]);
    }
}

/// The case shows the level it reports, as it is now; a silent one shows the
/// remembered level, stale, and a dash where none is remembered.
pub proof fn a_silent_case_shows_the_remembered_level(battery: Seq<BatteryInfo>, last: u8)
    ensures
        ({
            let now = crate::ui::format::case_level(battery);
            let (with, stale) = crate::ui::window::view::case_part(battery, Some(last));
            let (without, fresh) = crate::ui::window::view::case_part(battery, None);
            &&& now is Some ==> !stale && !fresh && with == without && with
                == crate::ui::window::view::level_text(
                crate::ui::format::first_of(battery, BatteryComponent::Case),
            )
            &&& now is None ==> stale && with.last() == '%' && crate::text::number_of(
                with.drop_last(),
            ) == last
            &&& now is None ==> !fresh && without == "-"@
        }),
{
    reveal_strlit("%");
    let (with, stale) = crate::ui::window::view::case_part(battery, Some(last));
    if crate::ui::format::case_level(battery) is None {
        crate::text::decimals_read_back(last as nat);
        assert(with =~= crate::text::decimal(last as nat).push('%'));
        assert(with.drop_last() =~= crate::text::decimal(last as nat));
    }
}

/// The line of a device has its name, marked while it is connected, and is
/// selected exactly if its tab is. It shows the battery of connected AirPods,
/// that another device is connected, and else how the request for it stands.
pub proof fn a_sidebar_line_says_what_is_known(app: AppView, mac: Seq<char>)
    ensures
        ({
            let line = app.sidebar_entry(mac);
            let connected = app.connected.contains(mac);
            let live = app.states.contains_key(mac) && app.states[mac] is AirPods;
            let request = app.connects[mac];
            &&& line.mac == mac
            &&& line.selected <==> app.selected_tab == TabView::Device(mac)
            &&& connected ==> line.label == app.devices[mac].name + seq![' ', '\u{100263}']
            &&& !connected ==> line.label == app.devices[mac].name
            &&& line.status is Battery <==> connected && live
            &&& connected && live && app.last_case_level.contains_key(mac) ==> line.status
                == EntryStatusView::Battery(
                crate::ui::window::view::shown_parts(
                    app.states[mac]->AirPods_0.pods.battery,
                    Some(app.last_case_level[mac]),
                ),
            )
            &&& connected && live && !app.last_case_level.contains_key(mac) ==> line.status
                == EntryStatusView::Battery(
                crate::ui::window::view::shown_parts(
                    app.states[mac]->AirPods_0.pods.battery,
                    None,
                ),
            )
            &&& connected && !live ==> line.status == EntryStatusView::Text("Connected"@)
            &&& !connected && !app.connects.contains_key(mac) ==> line.status
                == EntryStatusView::Text("Not connected"@)
            &&& !connected && app.connects.contains_key(mac) && request is Connecting
                ==> line.status == EntryStatusView::Text("Connecting…"@)
            &&& !connected && app.connects.contains_key(mac) && request is Failed ==> line.status
                == EntryStatusView::Text("Couldn't connect"@)
        }),
{
    reveal_strlit("");
    reveal_strlit(" \u{100263}");
    assert(" \u{100263}"@ =~= seq![' ', '\u{100263}']);
    assert(app.devices[mac].name + ""@ =~= app.devices[mac].name);
}

/// How often the window is drawn again: every 50 milliseconds while something
/// runs, every second while an app may open the microphone, and not at all
/// otherwise; a closed window only follows a recording.
pub proof fn ticks_come_as_often_as_needed(app: AppView, active: Seq<Seq<char>>, mac: Seq<char>, at: int)
    ensures
        app.test is Recording ==> app.tick(active) == Some(50_000_000nat),
        !(app.test is Recording) && app.window is None ==> app.tick(active) is None,
        app.window is Some && app.test is Ready ==> app.tick(active) == Some(50_000_000nat),
        app.window is Some && 0 <= at < active.len() && app.states.contains_key(active[at])
            && app.states[active[at]] is AirPods ==> app.tick(active) == Some(50_000_000nat),
        app.window is Some && app.test is Idle && active.len() == 0
            && app.settings.hires_mic_enabled && app.states.contains_key(mac)
            && app.states[mac] is AirPods ==> app.tick(active) == Some(1_000_000_000nat),
        app.test is Idle && active.len() == 0 && !app.settings.hires_mic_enabled ==> app.tick(
            active,
        ) is None,
{
    if 0 <= at < active.len() {
        assert(app.airpods_state(active[at]) is Some ==> app.records(active));
    }
    assert(app.airpods_state(mac) is Some ==> app.has_airpods());
}

// The pages

/// The page of AirPods that are away: the button asks for a connection unless
/// one is under way, and the text says how it stands.
pub proof fn the_away_page_says_how_it_stands(app: AppView, mac: Seq<char>)
    ensures
        ({
            let page = app.away_page(mac);
            let asked = app.connects.contains_key(mac);
            let request = app.connects[mac];
            &&& page.title == "AirPods not connected"@
            &&& asked && request is Connecting ==> page.status == "Connecting…"@ && page.button
                == "Connecting…"@ && !page.enabled
            &&& asked && request is Failed ==> page.status == request->Failed_0 && page.button
                == "Connect to this PC"@ && page.enabled
            &&& !asked ==> page.status
                == "Not connected to this PC. If they are on your phone, connecting here takes them over."@
                && page.button == "Connect to this PC"@ && page.enabled
        }),
{
}

/// The page beside the sidebar is that of the selected device: of live AirPods
/// with a manager their own, of connected ones without a text, and of others the
/// page that offers to connect them.
pub proof fn the_page_follows_the_device(
    app: AppView,
    mac: Seq<char>,
    managers: Option<Managers>,
    mic: MicUse,
)
    requires
        app.devices.contains_key(mac),
        mac != "none"@,
    ensures
        ({
            let page = app.device_content(mac, managers, mic);
            let airpods = app.devices[mac].type_ is AirPods;
            let aacp = managers matches Some(m) && m.aacp;
            let att = managers matches Some(m) && m.att;
            let live = app.states.contains_key(mac) && app.states[mac] is AirPods;
            let nothing = app.states.contains_key(mac) && app.states[mac] is Nothing;
            &&& airpods && live && aacp ==> page is AirPods
            &&& airpods && !(live && aacp) && app.connected.contains(mac) ==> page
                == ContentView::Text("Waiting for the AirPods to report their state…"@)
            &&& airpods && !(live && aacp) && !app.connected.contains(mac) ==> page
                == ContentView::Away(app.away_page(mac))
            &&& !airpods && nothing && att ==> page is Nothing
            &&& !airpods && nothing && managers is Some && !att ==> page == ContentView::Text(
                "No valid ATT manager found for this Nothing device"@,
            )
            &&& !airpods && nothing && managers is None ==> page == ContentView::Text(
                "No manager found for this Nothing device"@,
            )
            &&& !airpods && !nothing ==> page == ContentView::Text(
                "No state available for this Nothing device"@,
            )
        }),
{
}

/// A device that is not known has no page, and without one selected there is
/// nothing but the request to select one.
pub proof fn strangers_have_no_page(
    app: AppView,
    mac: Seq<char>,
    managers: Option<Managers>,
    mic: MicUse,
)
    ensures
        app.device_content("none"@, managers, mic) == ContentView::Text("Select a device"@),
        mac != "none"@ && !app.devices.contains_key(mac) ==> app.device_content(mac, managers, mic)
            == ContentView::Text("Unsupported device"@),
{
}

/// The settings page has one section per setting, in this order, each with a row
/// that shows its own setting.
pub proof fn the_settings_page_shows_the_settings(settings: AppSettings)
    ensures
        ({
            let page = crate::ui::window::view::settings_sections(settings);
            &&& page.len() == 8
            &&& forall|i: int| 0 <= i < 8 ==> (#[trigger] page[i]).rows.len() == 1
            &&& page[0].heading is Appearance && page[0].rows[0].item is Theme
            &&& page[1].rows[0].item is TrayText && page[1].rows[0].control == (
            ControlView::Switch { on: settings.tray_text_mode, locked: false })
            &&& page[2].heading is Controls && page[2].rows[0].item is StemControl
                && page[2].rows[0].control == (ControlView::Switch {
                on: settings.stem_control,
                locked: false,
            })
            &&& page[3].rows[0].item is PreferredCodec
            &&& page[4].rows[0].item is AutoSwitch && page[4].rows[0].control == (
            ControlView::Switch { on: settings.auto_switch_on_playback, locked: false })
            &&& page[5].rows[0].item is A2dpReset && page[5].rows[0].control == (
            ControlView::Switch { on: settings.a2dp_reset, locked: false })
            &&& page[6].rows[0].item is HiResMicAgc && page[6].rows[0].control == (
            ControlView::Switch { on: settings.hires_mic_agc, locked: false })
            &&& page[7].rows[0].item is HiResMicPauseConvo && page[7].rows[0].control == (
            ControlView::Switch { on: settings.hires_mic_pause_convo, locked: false })
        }),
{
}

/// A switch of the settings page that is set shows what it was set to.
pub proof fn a_set_setting_shows(app: AppView, item: Item, on: bool)
    ensures
        ({
            let message = crate::ui::window::view::setting_message(item, on);
            let is = app.after(message->0).settings;
            let known = item is TrayText || item is StemControl || item is AutoSwitch
                || item is A2dpReset || item is HiResMicAgc || item is HiResMicPauseConvo;
            &&& message is Some <==> known
            &&& item is TrayText ==> is.tray_text_mode == on
            &&& item is StemControl ==> is.stem_control == on
            &&& item is AutoSwitch ==> is.auto_switch_on_playback == on
            &&& item is A2dpReset ==> is.a2dp_reset == on
            &&& item is HiResMicAgc ==> is.hires_mic_agc == on
            &&& item is HiResMicPauseConvo ==> is.hires_mic_pause_convo == on
        }),
{
}

/// An option of the settings page that is picked is the one selected then.
#[verifier::rlimit(30)]
pub proof fn a_picked_option_shows(app: AppView, at: usize)
    ensures
        ({
            let theme = crate::ui::window::view::option_message(Item::Theme, at);
            let codec = crate::ui::window::view::option_message(Item::PreferredCodec, at);
            &&& theme is Some <==> at < 22
            &&& codec is Some <==> at < 3
            &&& theme is Some ==> crate::ui::nothing::choice_of(
                Some(app.after(theme->0).settings.theme),
            )->selected == Some(at)
            &&& codec is Some ==> crate::ui::nothing::choice_of(
                Some(app.after(codec->0).settings.preferred_codec),
            )->selected == Some(at)
        }),
{
}

/// Each switch and slider of the AirPods page changes what its row is about.
pub proof fn page_changes_are_of_their_row(item: Item, on: bool, value: u8)
    ensures
        ({
            let switch = crate::ui::window::view::switch_on_page(item, on);
            let slide = crate::ui::window::view::slide_on_page(item, value);
            &&& item is PersonalizedVolume ==> switch == Some(AirPodsChange::PersonalizedVolume(on))
            &&& item is ConversationAwareness ==> switch == Some(
                AirPodsChange::ConversationAwareness(on),
            )
            &&& item is OffListeningMode ==> switch == Some(AirPodsChange::AllowOff(on))
            &&& item is HiResMicrophone ==> switch == Some(AirPodsChange::HiResMic(on))
            &&& item is CustomEq ==> switch == Some(AirPodsChange::EqEnabled(on))
            &&& item is SleepDetection ==> switch == Some(
                AirPodsChange::Setting(ControlChange::SleepDetection(on)),
            )
            &&& item is OneBudAnc ==> switch == Some(
                AirPodsChange::Setting(ControlChange::OneBudAnc(on)),
            )
            &&& item is VolumeControl ==> switch == Some(
                AirPodsChange::Setting(ControlChange::VolumeSwipe(on)),
            )
            &&& item is LowBand ==> slide == Some(AirPodsChange::EqBand(EqBand::Low, value))
            &&& item is MidBand ==> slide == Some(AirPodsChange::EqBand(EqBand::Mid, value))
            &&& item is HighBand ==> slide == Some(AirPodsChange::EqBand(EqBand::High, value))
            &&& item is ToneVolume ==> slide == Some(
                AirPodsChange::Setting(ControlChange::ToneVolume(value)),
            )
            &&& item is AdaptiveAudio ==> slide == Some(
                AirPodsChange::Setting(ControlChange::AdaptiveNoise(value)),
            )
        }),
{
}

/// A listening mode that is picked is the one at that place of the choice.
pub proof fn a_picked_mode_is_the_one_shown(app: AppView, mac: Seq<char>, at: usize)
    requires
        app.states.contains_key(mac),
        app.states[mac] is AirPods,
    ensures
        ({
            let modes = app.states[mac]->AirPods_0.pods.offered_modes();
            let change = app.pick_on_page(mac, Item::ListeningMode, at);
            &&& change is Some <==> at < modes.len()
            &&& change is Some ==> change == Some(AirPodsChange::ListeningMode(modes[at as int]))
        }),
{
}

/// Each button of the test does what it says.
pub proof fn buttons_do_what_they_say(position: Duration, duration: Duration, button: TestButton)
    ensures
        ({
            let message = crate::ui::window::view::button_message(button, position, duration);
            &&& button is Record || button is RecordAgain ==> message is MicTestRecord
            &&& button is Stop ==> message is MicTestStop
            &&& button is Play ==> message is MicTestPlay
            &&& button is Pause ==> message is MicTestPause
            &&& button is Done ==> message is MicTestDone
            &&& button is Back ==> message == (Message::MicTestSkip {
                forward: false,
                position,
                duration,
            }) && button.shown() == "-5s"@
            &&& button is Forward ==> message == (Message::MicTestSkip {
                forward: true,
                position,
                duration,
            }) && button.shown() == "+5s"@
            &&& button is Record ==> button.shown() == "Record"@
            &&& button is RecordAgain ==> button.shown() == "Record again"@
            &&& button is Stop ==> button.shown() == "Stop"@
            &&& button is Play ==> button.shown() == "Play"@
            &&& button is Pause ==> button.shown() == "Pause"@
            &&& button is Done ==> button.shown() == "Done"@
        }),
{
    reveal_strlit("-");
    reveal_strlit("+");
    reveal_strlit("s");
    reveal_strlit("-5s");
    reveal_strlit("+5s");
    assert(crate::text::decimal(5) =~= seq!['5']);
    assert("-"@ + crate::text::decimal(5) + "s"@ =~= "-5s"@);
    assert("+"@ + crate::text::decimal(5) + "s"@ =~= "+5s"@);
}

/// What the test shows: Record while nothing is recorded, Stop while something
/// is, and the player once a take is ready, with where it is, never past the end,
/// how long the take is, and the button that it needs.
pub proof fn the_test_row_follows_the_test(test: MicTestPhase, reading: MicReading)
    ensures
        ({
            let row = crate::ui::airpods::shown_test(test, reading);
            &&& test is Idle ==> row.buttons == seq![TestButton::Record] && row.player is None
            &&& test matches MicTestPhase::Failed(e) ==> row.line == e && row.buttons == seq![
                TestButton::Record,
            ]
            &&& test is Starting ==> row.line == "Pausing media…"@ && row.buttons.len() == 0
            &&& test is Stopping ==> row.line == "Finishing the recording…"@ && row.buttons.len()
                == 0
            &&& test is Recording ==> row.buttons == seq![TestButton::Stop] && row.player is None
                && row.line == "Recording  "@ + crate::ui::format::minutes_seconds(
                reading.elapsed@ / 1_000_000_000,
            ) && row.note == Some("max "@ + crate::ui::format::minutes_seconds(300))
            &&& test is Ready ==> {
                &&& row.player matches Some((position, duration)) && duration == reading.duration@
                    && (reading.position@ <= duration ==> position == reading.position@) && (
                reading.position@ > duration ==> position == duration) && row.line
                    == crate::ui::format::minutes_seconds(position / 1_000_000_000) + " / "@
                    + crate::ui::format::minutes_seconds(duration / 1_000_000_000)
                &&& row.buttons.len() == 5
                &&& row.buttons[0] is Back
                &&& reading.playing ==> row.buttons[1] is Pause
                &&& !reading.playing ==> row.buttons[1] is Play
                &&& row.buttons[2] is Forward
                &&& row.buttons[3] is RecordAgain
                &&& row.buttons[4] is Done
                &&& reading.error is None ==> row.note is None
                &&& reading.error matches Some(e) ==> row.note == Some(e@)
            }
        }),
{
    assert(300 * 1_000_000_000 / 1_000_000_000 == 300);
}

/// The name row shows the draft while there is one, with its hint, and else the
/// name; below it are the listening mode and the two audio switches, each its
/// own.
pub proof fn the_top_of_the_page_shows_the_airpods(
    state: AirPodsStateView,
    text: Seq<char>,
    locked: bool,
)
    ensures
        ({
            let still = crate::ui::airpods::page_top(state, None, locked);
            let edited = crate::ui::airpods::page_top(state, Some(text), locked);
            let checked = crate::ui::format::checked_name(text);
            let hint = edited[0].rows[0].control->hint;
            &&& still.len() == 3
            &&& still[0].rows.len() == 1 && still[0].rows[0].item is Name
            &&& still[0].rows[0].control == (ControlView::Entry {
                text: state.pods.name,
                hint: None,
            })
            &&& edited[0].rows[0].control is Entry
            &&& edited[0].rows[0].control->text == text
            &&& checked is Ok ==> hint == Some("Press Enter to rename"@)
            &&& checked is Err ==> hint == Some(checked->Err_0)
            &&& still[1].rows.len() == 1 && still[1].rows[0].item is ListeningMode
            &&& still[2].heading is AudioSettings && still[2].rows.len() == 2
            &&& still[2].rows[0].item is PersonalizedVolume && still[2].rows[0].control == (
            ControlView::Switch { on: state.pods.personalized_volume, locked: false })
            &&& still[2].rows[1].item is ConversationAwareness && still[2].rows[1].control == (
            ControlView::Switch { on: state.pods.conversation_awareness, locked })
        }),
{
}

/// The microphone rows show the switch, the meter exactly while an app records,
/// with its name where it is known, and the test exactly while the switch is on.
pub proof fn the_microphone_rows_follow_the_capture(state: AirPodsStateView, mic: MicUse)
    ensures
        ({
            let rows = crate::ui::airpods::hires_rows(state, mic);
            &&& rows[0].item is HiResMicrophone && rows[0].control == (ControlView::Switch {
                on: state.hires_mic_enabled,
                locked: false,
            })
            &&& mic.active ==> rows[1].item is InputLevel && (mic.app is None ==> rows[1].control
                == ControlView::Text("Input level"@)) && (mic.app matches Some(app)
                ==> rows[1].control == ControlView::Text("In use by "@ + app@))
            &&& state.hires_mic_enabled ==> rows.last().item is MicrophoneTest
            &&& rows.len() == 1 + (if mic.active {
                1int
            } else {
                0int
            }) + if state.hires_mic_enabled {
                1int
            } else {
                0int
            }
        }),
{
}

/// Each row of the device information shows its own field; the serial numbers
/// can be copied.
pub proof fn the_information_rows_show_their_field(info: AirPodsInformationView)
    ensures
        ({
            let rows = crate::ui::airpods::information_rows(Some(info));
            &&& rows.len() == 8
            &&& rows[0].item is ModelNumber && rows[0].control == ControlView::Text(
                info.model_number,
            )
            &&& rows[1].item is Manufacturer && rows[1].control == ControlView::Text(
                info.manufacturer,
            )
            &&& rows[2].item is SerialNumber && rows[2].control == ControlView::Copy(
                info.serial_number,
            )
            &&& rows[3].item is LeftSerialNumber && rows[3].control == ControlView::Copy(
                info.left_serial_number,
            )
            &&& rows[4].item is RightSerialNumber && rows[4].control == ControlView::Copy(
                info.right_serial_number,
            )
            &&& rows[5].item is Version1 && rows[5].control == ControlView::Text(info.version1)
            &&& rows[6].item is Version2 && rows[6].control == ControlView::Text(info.version2)
            &&& rows[7].item is Version3 && rows[7].control == ControlView::Text(info.version3)
            &&& crate::ui::airpods::information_rows(None).len() == 0
        }),
{
}

/// A draft belongs to the device it was typed for.
pub proof fn a_draft_is_of_its_device(app: AppView, mac: Seq<char>, text: Seq<char>, other: Seq<char>)
    requires
        app.draft == Some((mac, text)),
        other != mac,
    ensures
        app.draft_of(mac) == Some(text),
        app.draft_of(other) is None,
{
}

/// The page to add a device on lists the paired devices that are not known yet,
/// each with its address, and marks the one whose type is being chosen.
pub proof fn the_add_page_lists_new_devices(app: AppView, page: AddPageView, i: int, name: Seq<char>)
    requires
        app.is_add_page(page),
        0 <= i < page.rows.len(),
    ensures
        page.title == "Pick a paired device to add:"@,
        app.paired.contains_key(page.rows[i].name),
        page.rows[i].address == app.paired[page.rows[i].name],
        !app.devices.contains_key(page.rows[i].address),
        page.rows[i].pending <==> (app.pending is Some && (app.pending->0).1 == page.rows[i].address),
        page.types == seq![DeviceType::Nothing],
        page.selected == app.selected_type,
        page.note is None,
        app.paired.contains_key(name) && !app.devices.contains_key(app.paired[name]) ==> exists|
            j: int,
        | 0 <= j < page.rows.len() && (#[trigger] page.rows[j]).name == name,
{
    assert(app.addable(page.rows[i].name));
    if app.addable(name) {
        assert(page.rows.contains(app.add_row(name)));
        let j = choose|j: int| 0 <= j < page.rows.len() && page.rows[j] == app.add_row(name);
        assert(page.rows[j].name == name);
    }
}

/// The page of AirPods from top to bottom: name, mode and audio switches, the
/// equalizer where the model takes one, the Off switch, the microphone, the
/// reported settings, and the device information where it is known. Conversation
/// awareness is locked exactly while a capture manages it.
pub proof fn the_airpods_page_is_in_order(
    state: AirPodsStateView,
    device: DeviceDataView,
    info: AirPodsInformationView,
    draft: Option<Seq<char>>,
    pause_convo: bool,
    mic: MicUse,
)
    requires
        device.information == Some(DeviceInformationView::AirPods(info)),
    ensures
        ({
            let page = crate::ui::airpods::airpods_page(state, Some(device), draft, pause_convo, mic);
            let top = crate::ui::airpods::page_top(state, draft, pause_convo && mic.active);
            let settings = crate::ui::airpods_settings::shown_sections(state.pods);
            let offered = crate::bluetooth::eq::eq_offered(Some(info.model_number));
            let off: int = if offered {
                4
            } else {
                3
            };
            &&& page.len() == off + 3 + settings.len()
            &&& page.take(3) == top
            &&& offered ==> page[3].heading is Equalizer && page[3].rows
                == crate::ui::equalizer::equalizer_rows(state.custom_eq.eq)
            &&& page[off].rows.len() == 1 && page[off].rows[0].item is OffListeningMode
                && page[off].rows[0].control == (ControlView::Switch {
                on: state.pods.allow_off,
                locked: false,
            })
            &&& page[off + 1].rows == crate::ui::airpods::hires_rows(state, mic)
            &&& page.subrange(off + 2, off + 2 + settings.len()) == settings
            &&& page.last().heading is DeviceInformation && page.last().rows
                == crate::ui::airpods::information_rows(Some(info))
        }),
{
    let page = crate::ui::airpods::airpods_page(state, Some(device), draft, pause_convo, mic);
    let top = crate::ui::airpods::page_top(state, draft, pause_convo && mic.active);
    let settings = crate::ui::airpods_settings::shown_sections(state.pods);
    let off: int = if crate::bluetooth::eq::eq_offered(Some(info.model_number)) {
        4
    } else {
        3
    };
    assert(top.len() == 3);
    assert(page.take(3) =~= top);
    assert(page.subrange(off + 2, off + 2 + settings.len()) =~= settings);
}

/// The page of a Nothing device shows the mode that is set, and its serial number
/// and firmware where they are known.
pub proof fn the_nothing_page_shows_the_mode(
    device: DeviceDataView,
    mode: NothingAncMode,
    serial_number: Seq<char>,
    firmware_version: Seq<char>,
)
    ensures
        ({
            let page = crate::ui::nothing::nothing_page(Some(device), mode);
            let bare = crate::ui::nothing::nothing_page(None, mode);
            &&& bare.len() == 1
            &&& bare[0].rows.len() == 1 && bare[0].rows[0].item is NoiseControlMode
            &&& bare[0].rows[0].control is Choice
            &&& bare[0].rows[0].control->options.len() == 6
            &&& bare[0].rows[0].control->selected matches Some(at) && at < 6
                && NothingAncMode::options()[at as int] == mode
            &&& page[0] == bare[0]
            &&& device.information == Some(
                DeviceInformationView::Nothing { serial_number, firmware_version },
            ) ==> page.len() == 2 && page[1].heading is DeviceInformation && page[1].rows.len() == 2
                && page[1].rows[0].item is SerialNumber && page[1].rows[0].control
                == ControlView::Text(serial_number) && page[1].rows[1].item is FirmwareVersion
                && page[1].rows[1].control == ControlView::Text(firmware_version)
            &&& device.information is None ==> page == bare
        }),
{
}

} // verus!
