//! What the pages show is what was set on them, row by row.

use crate::bluetooth::aacp::ControlCommandIdentifiers;
use crate::bluetooth::settings::CycleMode;
use crate::devices::airpods::AirPodsInformationView;
use crate::devices::enums::AirPodsNoiseControlMode;
use crate::ui::gtk::battery::{Batteries, Level};
use crate::ui::gtk::controls::ControlChange;
use crate::ui::gtk::model::equalizer::{EqBand, EqInput};
use crate::ui::gtk::model::{
    AirPodsView, Input, ModelView, NameHintView, SettingChange, WindowSettings,
};
use crate::ui::gtk::pages::SettingsRow;
use crate::ui::page::{ControlView, Item};
use vstd::prelude::*;

verus! {

/// Each row of the settings page shows its own setting and changes it, and no
/// other: a switch the one it names, Style the theme and the codec row the codec.
pub proof fn settings_rows_are_of_their_setting(settings: WindowSettings, on: bool, at: usize)
    ensures
        SettingsRow::TrayText.change_of(on) == Some(SettingChange::TrayTextMode(on)),
        SettingsRow::AutoSwitch.change_of(on) == Some(SettingChange::AutoSwitchOnPlayback(on)),
        SettingsRow::A2dpReset.change_of(on) == Some(SettingChange::A2dpReset(on)),
        SettingsRow::MicAgc.change_of(on) == Some(SettingChange::HiResMicAgc(on)),
        SettingsRow::MicPauseConvo.change_of(on) == Some(SettingChange::HiResMicPauseConvo(on)),
        SettingsRow::StemControl.change_of(on) == Some(SettingChange::StemControl(on)),
        SettingsRow::Style.change_of(on) is None,
        SettingsRow::Codec.change_of(on) is None,
        SettingsRow::TrayText.shown(settings) == (ControlView::Switch {
            on: settings.tray_text_mode,
            locked: false,
        }),
        SettingsRow::AutoSwitch.shown(settings) == (ControlView::Switch {
            on: settings.auto_switch_on_playback,
            locked: false,
        }),
        SettingsRow::A2dpReset.shown(settings) == (ControlView::Switch {
            on: settings.a2dp_reset,
            locked: false,
        }),
        SettingsRow::MicAgc.shown(settings) == (ControlView::Switch {
            on: settings.hires_mic_agc,
            locked: false,
        }),
        SettingsRow::MicPauseConvo.shown(settings) == (ControlView::Switch {
            on: settings.hires_mic_pause_convo,
            locked: false,
        }),
        SettingsRow::StemControl.shown(settings) == (ControlView::Switch {
            on: settings.stem_control,
            locked: false,
        }),
        SettingsRow::Style.pick_of(at) is Some <==> at < 3,
        SettingsRow::Codec.pick_of(at) is Some <==> at < 3,
        SettingsRow::Style.pick_of(at) matches Some(change) ==> change is Theme,
        SettingsRow::Codec.pick_of(at) matches Some(change) ==> change is PreferredCodec,
{
}

/// What the rows of the settings page are called.
pub proof fn settings_rows_have_their_titles()
    ensures
        SettingsRow::Style.title_text() == "Style"@,
        SettingsRow::TrayText.title_text() == "Use text in tray"@,
        SettingsRow::Codec.title_text() == "Preferred audio codec"@,
        SettingsRow::AutoSwitch.title_text() == "Switch to this PC on playback"@,
        SettingsRow::A2dpReset.title_text() == "Reset A2DP transport"@,
        SettingsRow::MicAgc.title_text() == "Hi-res mic auto gain"@,
        SettingsRow::MicPauseConvo.title_text() == "Pause conversation awareness during capture"@,
        SettingsRow::StemControl.title_text() == "Stem press track control"@,
        SettingsRow::Style.group_text() == "Appearance"@,
        SettingsRow::TrayText.group_text() == "Appearance"@,
        SettingsRow::Codec.group_text() == "Audio"@,
        SettingsRow::AutoSwitch.group_text() == "Audio"@,
        SettingsRow::A2dpReset.group_text() == "Audio"@,
        SettingsRow::MicAgc.group_text() == "Hi-Res Microphone"@,
        SettingsRow::MicPauseConvo.group_text() == "Hi-Res Microphone"@,
        SettingsRow::StemControl.group_text() == "Controls"@,
        SettingsRow::Style.subtitle_text() is None,
{
}

/// Headphones have a card whatever is known of them. Buds have three, as soon as
/// one level is known: each with its own caption, level and icon.
pub proof fn the_cards_show_each_battery(level: Level, left: Level, right: Level, case: Level)
    ensures
        ({
            let one = crate::ui::gtk::pages::shown_cards(Batteries::Headphone(level));
            let three = crate::ui::gtk::pages::shown_cards(Batteries::Buds { left, right, case });
            let known = left.percent is Some || right.percent is Some || case.percent is Some;
            &&& one.len() == 1
            &&& one[0].caption == "Battery"@
            &&& one[0].text == level.shown_text()
            &&& one[0].icon == level.shown_icon()
            &&& one[0].stale == level.stale
            &&& !known ==> three.len() == 0
            &&& known ==> {
                &&& three.len() == 3
                &&& three[0].caption == "Left"@
                &&& three[1].caption == "Right"@
                &&& three[2].caption == "Case"@
                &&& three[0].text == left.shown_text()
                &&& three[1].text == right.shown_text()
                &&& three[2].text == case.shown_text()
                &&& three[0].icon == left.shown_icon()
                &&& three[1].icon == right.shown_icon()
                &&& three[2].icon == case.shown_icon()
                &&& three[0].stale == left.stale
                &&& three[1].stale == right.stale
                &&& three[2].stale == case.stale
            }
        }),
{
}

/// The name field shows the name, unless it is edited; then it says that Enter
/// renames, or why the draft cannot be sent, and marks that as an error.
pub proof fn the_name_field_follows_the_edit(name: Seq<char>, why: Seq<char>)
    ensures
        ({
            let still = crate::ui::gtk::pages::shown_name(name, None);
            let good = crate::ui::gtk::pages::shown_name(name, Some(NameHintView::PressEnter));
            let bad = crate::ui::gtk::pages::shown_name(name, Some(NameHintView::Invalid(why)));
            &&& still.text == Some(name)
            &&& still.hint.len() == 0
            &&& !still.error
            &&& good.text is None
            &&& good.hint == "Press Enter to rename"@
            &&& !good.error
            &&& bad.text is None
            &&& bad.hint == why
            &&& bad.error
        }),
{
    reveal_strlit("");
}

/// The noise control rows of the page show the mode, whether it is locked what
/// conversation awareness is, and the two other switches, each its own.
pub proof fn the_noise_rows_show_the_airpods(airpods: AirPodsView, locked: bool)
    ensures
        ({
            let rows = crate::ui::gtk::pages::noise_rows(airpods, locked);
            &&& rows.len() == 4
            &&& rows[0].item is ListeningMode
            &&& rows[1].item is ConversationAwareness
            &&& rows[2].item is PersonalizedVolume
            &&& rows[3].item is OffListeningMode
            &&& rows[1].control == (ControlView::Switch {
                on: airpods.conversation_awareness,
                locked,
            })
            &&& rows[2].control == (ControlView::Switch {
                on: airpods.personalized_volume,
                locked: false,
            })
            &&& rows[3].control == (ControlView::Switch { on: airpods.allow_off, locked: false })
        }),
{
}

/// The option of the listening mode that is selected is the mode that is shown;
/// none is where the mode is not offered.
pub proof fn the_selected_mode_is_the_one_shown(airpods: AirPodsView)
    ensures
        ({
            let shown = crate::ui::airpods::mode_choice(airpods);
            let modes = airpods.offered_modes();
            &&& shown is Choice
            &&& shown->options.len() == modes.len()
            &&& shown->selected matches Some(at) ==> at < modes.len() && modes[at as int]
                == airpods.listening_mode
            &&& shown->selected is None <==> airpods.listening_mode is Off && !airpods.allow_off
        }),
{
}

/// A switch of the AirPods page that is set shows what it was set to, once the
/// input it says has been taken.
#[verifier::rlimit(30)]
pub proof fn a_set_switch_shows(model: ModelView, mac: String, on: bool)
    requires
        model.airpods.contains_key(mac@),
        !model.awareness_locked(mac@),
    ensures
        ({
            let volume = crate::ui::gtk::pages::switch_input(Item::PersonalizedVolume, mac, on);
            let aware = crate::ui::gtk::pages::switch_input(Item::ConversationAwareness, mac, on);
            let off = crate::ui::gtk::pages::switch_input(Item::OffListeningMode, mac, on);
            let eq = crate::ui::gtk::pages::switch_input(Item::CustomEq, mac, on);
            &&& volume is Some && aware is Some && off is Some && eq is Some
            &&& model.after(volume->0).airpods[mac@].personalized_volume == on
            &&& model.after(aware->0).airpods[mac@].conversation_awareness == on
            &&& model.after(off->0).airpods[mac@].allow_off == on
            &&& model.eq_supported(mac@) ==> model.after(eq->0).eq_shown(mac@).enabled == on
        }),
{
}

/// A listening mode that is picked is the one at that place, and is shown then;
/// past the end nothing is picked.
pub proof fn a_picked_mode_shows(model: ModelView, mac: String, at: usize)
    requires
        model.airpods.contains_key(mac@),
    ensures
        ({
            let airpods = model.airpods[mac@];
            let modes = airpods.offered_modes();
            let input = crate::ui::gtk::pages::pick_input(airpods, Item::ListeningMode, mac, at);
            &&& input is Some <==> at < modes.len()
            &&& input is Some ==> model.after(input->0).airpods[mac@].listening_mode
                == modes[at as int]
            &&& input is Some ==> crate::ui::airpods::mode_choice(
                model.after(input->0).airpods[mac@],
            )->selected == Some(at)
        }),
{
}

/// The switches of the settings sections change the setting of their row.
pub proof fn section_switches_are_of_their_setting(on: bool, item: Item)
    ensures
        ({
            let change = crate::ui::gtk::pages::switch_change(item, on);
            &&& item is OneBudAnc ==> change == Some(ControlChange::OneBudAnc(on))
            &&& item is VolumeControl ==> change == Some(ControlChange::VolumeSwipe(on))
            &&& item is SleepDetection ==> change == Some(ControlChange::SleepDetection(on))
            &&& item is CycleOff ==> change == Some(ControlChange::CycleMode(CycleMode::Off, on))
            &&& item is CycleNoiseCancellation ==> change == Some(ControlChange::CycleMode(CycleMode::NoiseCancellation, on))
            &&& item is CycleTransparency ==> change == Some(ControlChange::CycleMode(CycleMode::Transparency, on))
            &&& item is CycleAdaptive ==> change == Some(ControlChange::CycleMode(CycleMode::Adaptive, on))
            &&& change is Some ==> item is OneBudAnc || item is VolumeControl
                || item is SleepDetection || item is CycleOff || item is CycleNoiseCancellation
                || item is CycleTransparency || item is CycleAdaptive
        }),
{
}

/// A slider of the page moves its own band or setting to where it was put.
pub proof fn a_moved_slider_shows(model: ModelView, mac: String, value: u8)
    requires
        model.airpods.contains_key(mac@),
        value <= 100,
    ensures
        ({
            let low = crate::ui::gtk::pages::slide_input(Item::LowBand, mac, value);
            let mid = crate::ui::gtk::pages::slide_input(Item::MidBand, mac, value);
            let high = crate::ui::gtk::pages::slide_input(Item::HighBand, mac, value);
            let tone = crate::ui::gtk::pages::slide_input(Item::ToneVolume, mac, value);
            let noise = crate::ui::gtk::pages::slide_input(Item::AdaptiveAudio, mac, value);
            &&& low == Some(Input::Equalizer(EqInput::SetBand(mac, EqBand::Low, value)))
            &&& mid == Some(Input::Equalizer(EqInput::SetBand(mac, EqBand::Mid, value)))
            &&& high == Some(Input::Equalizer(EqInput::SetBand(mac, EqBand::High, value)))
            &&& tone is Some && noise is Some
            &&& crate::ui::gtk::controls::tone_volume_of(model.after(tone->0).airpods[mac@])
                == Some(value)
            &&& crate::ui::gtk::controls::adaptive_noise_of(model.after(noise->0).airpods[mac@])
                == Some(value)
        }),
{
    crate::ui::gtk::controls::sliders_show_at_once(model.airpods[mac@], value);
}

/// A picked option of the settings sections is remembered under the setting of
/// its row.
pub proof fn section_options_are_of_their_setting(item: Item, at: usize)
    ensures
        ({
            let change = crate::ui::gtk::pages::pick_change(item, at);
            &&& change is Some ==> {
                let id = change->0.identifier();
                &&& item is LongPressLeft ==> id == ControlCommandIdentifiers::ClickHoldMode
                    && change->0->LongPress_0 is Left
                &&& item is LongPressRight ==> id == ControlCommandIdentifiers::ClickHoldMode
                    && change->0->LongPress_0 is Right
                &&& item is MuteControl ==> id == ControlCommandIdentifiers::CallManagementConfig
                &&& item is MicrophoneMode ==> id == ControlCommandIdentifiers::MicMode
                &&& item is PressSpeed ==> id == ControlCommandIdentifiers::DoubleClickInterval
                &&& item is HoldDuration ==> id == ControlCommandIdentifiers::ClickHoldInterval
                &&& item is VolumeSwipeSpeed ==> id
                    == ControlCommandIdentifiers::VolumeSwipeInterval
            }
            &&& item is LongPressLeft || item is LongPressRight || item is MuteControl ==> (
            change is Some <==> at < 2)
            &&& item is MicrophoneMode || item is PressSpeed || item is HoldDuration
                || item is VolumeSwipeSpeed ==> (change is Some <==> at < 3)
        }),
{
}

/// Each row of the device information shows its own field; the serial numbers
/// can be copied.
pub proof fn the_information_rows_show_their_field(info: AirPodsInformationView)
    ensures
        ({
            let rows = crate::ui::gtk::pages::info_rows(Some(info));
            &&& rows.len() == 8
            &&& rows[0].item is ModelNumber && rows[0].control == ControlView::Text(
                info.model_number,
            )
            &&& rows[1].item is Manufacturer && rows[1].control == ControlView::Text(
                info.manufacturer,
            )
            &&& rows[2].item is SerialNumber && rows[2].control == ControlView::Copy(
                info.serial_number,
            )
            &&& rows[3].item is LeftSerialNumber && rows[3].control == ControlView::Copy(
                info.left_serial_number,
            )
            &&& rows[4].item is RightSerialNumber && rows[4].control == ControlView::Copy(
                info.right_serial_number,
            )
            &&& rows[5].item is Firmware && rows[5].control == ControlView::Text(info.version1)
            &&& rows[6].item is Version2 && rows[6].control == ControlView::Text(info.version2)
            &&& rows[7].item is Version3 && rows[7].control == ControlView::Text(info.version3)
            &&& crate::ui::gtk::pages::info_rows(None).len() == 0
        }),
{
}

/// The microphone section shows the switch as it is set, the meter exactly while
/// an app records, with its name where it is known, and the test exactly while
/// the switch is on.
pub proof fn the_microphone_section_follows_the_capture(model: ModelView, mac: Seq<char>)
    ensures
        ({
            let rows = model.microphone_rows(mac);
            let records = model.mic.capture.contains_key(mac) && model.mic.capture[mac].active;
            &&& rows.hires == model.settings.hires_mic_enabled
            &&& rows.meter is Some <==> records
            &&& rows.meter matches Some((line, level)) ==> {
                &&& level == model.mic.capture[mac].level
                &&& model.mic.capture[mac].app is None ==> line == "Input level"@
                &&& model.mic.capture[mac].app matches Some(app) ==> line == "In use by "@ + app
            }
            &&& rows.test is Some <==> model.settings.hires_mic_enabled
        }),
{
}

/// The page of AirPods is made of what is known of them: their batteries and
/// name, the noise control rows first, the equalizer where they offer one, and
/// the device information last where it is known.
pub proof fn the_page_is_of_its_airpods(model: ModelView, mac: Seq<char>)
    requires
        model.airpods.contains_key(mac),
    ensures
        ({
            let page = model.airpods_page(mac);
            let info = model.airpods_information(mac);
            &&& model.shown_batteries(mac) is Some
            &&& page.batteries == crate::ui::gtk::pages::shown_cards(model.shown_batteries(mac)->0)
            &&& model.hint_for(mac) is None ==> page.name.text == Some(model.airpods[mac].name)
            &&& page.upper.len() > 0
            &&& page.upper[0].heading is NoiseControl
            &&& page.upper[0].rows == crate::ui::gtk::pages::noise_rows(
                model.airpods[mac],
                model.awareness_locked(mac),
            )
            &&& model.eq_supported(mac) ==> page.upper.len() == 2
                && page.upper[1].heading is Equalizer && page.upper[1].rows
                == crate::ui::equalizer::equalizer_rows(model.eq_shown(mac))
            &&& !model.eq_supported(mac) ==> page.upper.len() == 1
            &&& page.microphone == model.microphone_rows(mac)
            &&& info is Some ==> page.lower.len() > 0 && page.lower.last().heading
                is DeviceInformation && page.lower.last().rows == crate::ui::gtk::pages::info_rows(
                info,
            ) && page.lower.drop_last() == crate::ui::airpods_settings::shown_sections(
                model.airpods[mac],
            )
            &&& info is None ==> page.lower == crate::ui::airpods_settings::shown_sections(
                model.airpods[mac],
            )
        }),
{
    let page = model.airpods_page(mac);
    let info = model.airpods_information(mac);
    let settings = crate::ui::airpods_settings::shown_sections(model.airpods[mac]);
    if info is Some {
        assert(page.lower.drop_last() =~= settings);
    }
}

/// The switch of the equalizer shows whether it is on. While it is, the three
/// bands follow, each at its own value out of 100, and Reset, which works unless
/// every band is in the middle.
pub proof fn the_equalizer_rows_show_the_bands(eq: crate::bluetooth::eq::CustomEq)
    ensures
        ({
            let rows = crate::ui::equalizer::equalizer_rows(eq);
            &&& rows[0].item is CustomEq
            &&& rows[0].control == (ControlView::Switch { on: eq.enabled, locked: false })
            &&& !eq.enabled ==> rows.len() == 1
            &&& eq.enabled ==> {
                &&& rows.len() == 5
                &&& rows[1].item is LowBand && rows[1].control == (ControlView::Slider {
                    value: eq.low,
                    max: 100,
                    step: 1,
                })
                &&& rows[2].item is MidBand && rows[2].control == (ControlView::Slider {
                    value: eq.mid,
                    max: 100,
                    step: 1,
                })
                &&& rows[3].item is HighBand && rows[3].control == (ControlView::Slider {
                    value: eq.high,
                    max: 100,
                    step: 1,
                })
                &&& rows[4].item is ResetEq && rows[4].control is Button
                &&& rows[4].control->enabled <==> eq.low != 50 || eq.mid != 50 || eq.high != 50
            }
        }),
{
}

/// The rows of the cycle are named like the listening modes they stand for, and
/// say what those do.
pub proof fn cycle_rows_are_named_like_their_mode()
    ensures
        Item::CycleOff.title_text() == CycleMode::Off.name_text(),
        Item::CycleNoiseCancellation.title_text() == CycleMode::NoiseCancellation.name_text(),
        Item::CycleTransparency.title_text() == CycleMode::Transparency.name_text(),
        Item::CycleAdaptive.title_text() == CycleMode::Adaptive.name_text(),
        Item::CycleOff.description_text() == Some(CycleMode::Off.line_text()),
        Item::CycleNoiseCancellation.description_text() == Some(
            CycleMode::NoiseCancellation.line_text(),
        ),
        Item::CycleTransparency.description_text() == Some(CycleMode::Transparency.line_text()),
        Item::CycleAdaptive.description_text() == Some(CycleMode::Adaptive.line_text()),
        crate::devices::enums::listening_label(AirPodsNoiseControlMode::Off)
            == CycleMode::Off.name_text(),
        crate::devices::enums::listening_label(AirPodsNoiseControlMode::NoiseCancellation)
            == CycleMode::NoiseCancellation.name_text(),
        crate::devices::enums::listening_label(AirPodsNoiseControlMode::Transparency)
            == CycleMode::Transparency.name_text(),
        crate::devices::enums::listening_label(AirPodsNoiseControlMode::Adaptive)
            == CycleMode::Adaptive.name_text(),
{
}

/// Both windows call the settings that they share the same, and say the same of
/// them.
pub proof fn both_windows_say_the_same(item: Item)
    ensures
        SettingsRow::TrayText.title_text() == Item::TrayText.title_text(),
        SettingsRow::Codec.title_text() == Item::PreferredCodec.title_text(),
        SettingsRow::AutoSwitch.title_text() == Item::AutoSwitch.title_text(),
        SettingsRow::A2dpReset.title_text() == Item::A2dpReset.title_text(),
        SettingsRow::MicAgc.title_text() == Item::HiResMicAgc.title_text(),
        SettingsRow::MicPauseConvo.title_text() == Item::HiResMicPauseConvo.title_text(),
        SettingsRow::StemControl.title_text() == Item::StemControl.title_text(),
        SettingsRow::TrayText.subtitle_text() == Item::TrayText.description_text(),
        SettingsRow::Codec.subtitle_text() == Item::PreferredCodec.description_text(),
        SettingsRow::AutoSwitch.subtitle_text() == Item::AutoSwitch.description_text(),
        SettingsRow::MicPauseConvo.subtitle_text() == Item::HiResMicPauseConvo.description_text(),
        SettingsRow::StemControl.subtitle_text() == Item::StemControl.description_text(),
        !(item is AdaptiveAudio) ==> crate::ui::gtk::pages::subtitle_text(item)
            == item.description_text(),
{
}

} // verus!
