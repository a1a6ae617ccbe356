//! AirPods settings driven by AACP control commands: press and hold, call controls,
//! microphone, accessibility and Adaptive Audio, grouped like the Android app.
//!
//! A setting is only shown once the AirPods have reported a value for it, which
//! keeps controls for features a model lacks off the page.

use crate::bluetooth::aacp::ControlCommandIdentifiers as Id;
use crate::bluetooth::settings::{
    CallControls, ClickHoldAction, ClickHoldMode, ControlValue, CycleMode, MicMode, PressInterval,
    SwipeInterval, Toggle, PERCENT_MAX,
};
use crate::ui::choice::Choice;
use crate::ui::gtk::controls::{adaptive_noise, cycle_rows, hang_up_press, tone_volume, CycleRow};
use crate::ui::gtk::model::{AirPods, AirPodsView};
use crate::ui::nothing::choice;
use crate::ui::page::{
    add_row, add_section, add_switch, no_rows, no_sections, Control, ControlView, Heading, Item,
    Row, RowView, Section, SectionView,
};
use vstd::prelude::*;

verus! {

/// Slider step for the percentage settings. Every step sends one control command
/// while dragging, so a coarse step keeps a full drag to about twenty packets.
pub const PERCENT_STEP: u8 = 5;

/// A choice for a reported setting.
pub open spec fn setting_choice<T: ControlValue + Choice>(airpods: AirPodsView, id: Id) -> ControlView {
    crate::ui::nothing::choice_of(airpods.decoded::<T>(id))
}

/// Some rows, and a choice for a setting where it was reported.
pub open spec fn with_choice<T: ControlValue + Choice>(
    rows: Seq<RowView>,
    airpods: AirPodsView,
    id: Id,
    item: Item,
) -> Seq<RowView> {
    if airpods.has(id) {
        rows.push(crate::ui::page::row_of(item, setting_choice::<T>(airpods, id)))
    } else {
        rows
    }
}

/// Some rows, and a switch for a setting where it was reported. An
/// undecodable value shows as off.
pub open spec fn with_switch(rows: Seq<RowView>, airpods: AirPodsView, id: Id, item: Item) -> Seq<
    RowView,
> {
    if airpods.has(id) {
        rows.push(
            crate::ui::page::switch_row(item, airpods.decoded::<Toggle>(id) == Some(Toggle(true))),
        )
    } else {
        rows
    }
}

/// Some rows, and a slider where it has a position.
pub open spec fn with_slider(rows: Seq<RowView>, item: Item, position: Option<u8>) -> Seq<RowView> {
    match position {
        Some(value) => rows.push(
            crate::ui::page::row_of(
                item,
                ControlView::Slider { value, max: PERCENT_MAX, step: PERCENT_STEP },
            ),
        ),
        None => rows,
    }
}

/// Some rows, and the switch of a mode of the press and hold cycle where it
/// is offered.
pub open spec fn with_cycle_row(rows: Seq<RowView>, row: CycleRow, item: Item) -> Seq<RowView> {
    if row.shown {
        rows.push(
            crate::ui::page::row_of(item, ControlView::Switch { on: row.on, locked: row.locked }),
        )
    } else {
        rows
    }
}

/// The long press action of one bud.
pub open spec fn bud_action(airpods: AirPodsView, left: bool) -> Option<ClickHoldAction> {
    match airpods.decoded::<ClickHoldMode>(Id::ClickHoldMode) {
        Some(mode) => Some(
            if left {
                mode.left
            } else {
                mode.right
            },
        ),
        None => None,
    }
}

/// The rows on press and hold.
pub open spec fn press_and_hold_rows(airpods: AirPodsView) -> Seq<RowView> {
    let buds = if airpods.has(Id::ClickHoldMode) {
        Seq::empty().push(
            crate::ui::page::row_of(
                Item::LongPressLeft,
                crate::ui::nothing::choice_of(bud_action(airpods, true)),
            ),
        ).push(
            crate::ui::page::row_of(
                Item::LongPressRight,
                crate::ui::nothing::choice_of(bud_action(airpods, false)),
            ),
        )
    } else {
        Seq::empty()
    };
    if airpods.has(Id::ListeningModeConfigs) {
        let title = buds.push(crate::ui::page::row_of(Item::ListeningModes, ControlView::Plain));
        let off = with_cycle_row(
            title,
            crate::ui::gtk::controls::cycle_row_of(airpods, CycleMode::Off),
            Item::CycleOff,
        );
        let noise = with_cycle_row(
            off,
            crate::ui::gtk::controls::cycle_row_of(airpods, CycleMode::NoiseCancellation),
            Item::CycleNoiseCancellation,
        );
        let clear = with_cycle_row(
            noise,
            crate::ui::gtk::controls::cycle_row_of(airpods, CycleMode::Transparency),
            Item::CycleTransparency,
        );
        with_cycle_row(
            clear,
            crate::ui::gtk::controls::cycle_row_of(airpods, CycleMode::Adaptive),
            Item::CycleAdaptive,
        )
    } else {
        buds
    }
}

/// The rows on calls.
pub open spec fn call_rows(airpods: AirPodsView) -> Seq<RowView> {
    if airpods.has(Id::CallManagementConfig) {
        Seq::empty().push(
            crate::ui::page::row_of(Item::AnswerCall, ControlView::Text("Press Once"@)),
        ).push(
            crate::ui::page::row_of(
                Item::MuteControl,
                setting_choice::<CallControls>(airpods, Id::CallManagementConfig),
            ),
        ).push(
            crate::ui::page::row_of(
                Item::HangUp,
                ControlView::Text(
                    match airpods.decoded::<CallControls>(Id::CallManagementConfig) {
                        Some(controls) => controls.hang_up_text(),
                        None => ""@,
                    },
                ),
            ),
        )
    } else {
        Seq::empty()
    }
}

/// The rows on accessibility.
pub open spec fn accessibility_rows(airpods: AirPodsView) -> Seq<RowView> {
    let speed = with_choice::<PressInterval>(
        Seq::empty(),
        airpods,
        Id::DoubleClickInterval,
        Item::PressSpeed,
    );
    let hold = with_choice::<PressInterval>(
        speed,
        airpods,
        Id::ClickHoldInterval,
        Item::HoldDuration,
    );
    let anc = with_switch(hold, airpods, Id::OneBudAncMode, Item::OneBudAnc);
    let tone = with_slider(
        anc,
        Item::ToneVolume,
        crate::ui::gtk::controls::tone_volume_of(airpods),
    );
    let swipe = with_switch(tone, airpods, Id::VolumeSwipeMode, Item::VolumeControl);
    with_choice::<SwipeInterval>(swipe, airpods, Id::VolumeSwipeInterval, Item::VolumeSwipeSpeed)
}

/// The settings sections. Sections without any reported setting are left
/// out.
pub open spec fn shown_sections(airpods: AirPodsView) -> Seq<SectionView> {
    let hold = crate::ui::page::with_section(
        Seq::empty(),
        Heading::PressAndHold,
        press_and_hold_rows(airpods),
    );
    let calls = crate::ui::page::with_section(hold, Heading::CallControls, call_rows(airpods));
    let mic = crate::ui::page::with_section(
        calls,
        Heading::Microphone,
        with_choice::<MicMode>(Seq::empty(), airpods, Id::MicMode, Item::MicrophoneMode),
    );
    let sleep = crate::ui::page::with_section(
        mic,
        Heading::Untitled,
        with_switch(Seq::empty(), airpods, Id::SleepDetectionConfig, Item::SleepDetection),
    );
    let access = crate::ui::page::with_section(
        sleep,
        Heading::Accessibility,
        accessibility_rows(airpods),
    );
    crate::ui::page::with_section(
        access,
        Heading::AdaptiveAudio,
        with_slider(
            Seq::empty(),
            Item::AdaptiveAudio,
            crate::ui::gtk::controls::adaptive_noise_of(airpods),
        ),
    )
}

fn add_choice<T: ControlValue + Choice>(
    rows: &mut Vec<Row>,
    airpods: &AirPods,
    id: Id,
    item: Item,
)
    ensures
        crate::ui::page::rows_view(final(rows)@) == with_choice::<T>(
            crate::ui::page::rows_view(old(rows)@),
            airpods@,
            id,
            item,
        ),
{
    if airpods.reported(id) {
        let value: Option<T> = airpods.control::<T>(id);
        add_row(rows, item, choice(value));
    }
}

fn add_setting_switch(rows: &mut Vec<Row>, airpods: &AirPods, id: Id, item: Item)
    ensures
        crate::ui::page::rows_view(final(rows)@) == with_switch(
            crate::ui::page::rows_view(old(rows)@),
            airpods@,
            id,
            item,
        ),
{
    match airpods.toggle(id) {
        Some(on) => {
            add_switch(rows, item, on);
        },
        None => {},
    }
}

fn add_slider(rows: &mut Vec<Row>, item: Item, position: Option<u8>)
    ensures
        crate::ui::page::rows_view(final(rows)@) == with_slider(
            crate::ui::page::rows_view(old(rows)@),
            item,
            position,
        ),
{
    match position {
        Some(value) => {
            add_row(
                rows,
                item,
                Control::Slider { value, max: PERCENT_MAX, step: PERCENT_STEP },
            );
        },
        None => {},
    }
}

fn add_cycle_row(rows: &mut Vec<Row>, row: CycleRow, item: Item)
    ensures
        crate::ui::page::rows_view(final(rows)@) == with_cycle_row(
            crate::ui::page::rows_view(old(rows)@),
            row,
            item,
        ),
{
    if row.shown {
        add_row(rows, item, Control::Switch { on: row.on, locked: row.locked });
    }
}

fn press_and_hold(airpods: &AirPods) -> (rows: Vec<Row>)
    ensures
        crate::ui::page::rows_view(rows@) == press_and_hold_rows(airpods@),
{
    let mut rows = no_rows();
    if airpods.reported(Id::ClickHoldMode) {
        let (left, right) = match airpods.control::<ClickHoldMode>(Id::ClickHoldMode) {
            Some(mode) => (Some(mode.left), Some(mode.right)),
            None => (None, None),
        };
        add_row(&mut rows, Item::LongPressLeft, choice(left));
        add_row(&mut rows, Item::LongPressRight, choice(right));
    }
    match cycle_rows(airpods) {
        Some(modes) => {
            add_row(&mut rows, Item::ListeningModes, Control::Plain);
            add_cycle_row(&mut rows, modes[0], Item::CycleOff);
            add_cycle_row(&mut rows, modes[1], Item::CycleNoiseCancellation);
            add_cycle_row(&mut rows, modes[2], Item::CycleTransparency);
            add_cycle_row(&mut rows, modes[3], Item::CycleAdaptive);
        },
        None => {},
    }
    rows
}

fn call_controls(airpods: &AirPods) -> (rows: Vec<Row>)
    ensures
        crate::ui::page::rows_view(rows@) == call_rows(airpods@),
{
    let mut rows = no_rows();
    match hang_up_press(airpods) {
        Some(press) => {
            let mute: Option<CallControls> = airpods.control::<CallControls>(
                Id::CallManagementConfig,
            );
            add_row(&mut rows, Item::AnswerCall, Control::Text("Press Once".to_string()));
            add_row(&mut rows, Item::MuteControl, choice(mute));
            add_row(&mut rows, Item::HangUp, Control::Text(press.to_string()));
        },
        None => {},
    }
    rows
}

fn accessibility(airpods: &AirPods) -> (rows: Vec<Row>)
    ensures
        crate::ui::page::rows_view(rows@) == accessibility_rows(airpods@),
{
    let mut rows = no_rows();
    add_choice::<PressInterval>(&mut rows, airpods, Id::DoubleClickInterval, Item::PressSpeed);
    add_choice::<PressInterval>(&mut rows, airpods, Id::ClickHoldInterval, Item::HoldDuration);
    add_setting_switch(&mut rows, airpods, Id::OneBudAncMode, Item::OneBudAnc);
    add_slider(&mut rows, Item::ToneVolume, tone_volume(airpods));
    add_setting_switch(&mut rows, airpods, Id::VolumeSwipeMode, Item::VolumeControl);
    add_choice::<SwipeInterval>(
        &mut rows,
        airpods,
        Id::VolumeSwipeInterval,
        Item::VolumeSwipeSpeed,
    );
    rows
}

/// Builds the settings sections for the AirPods page. Sections without any
/// reported setting are left out, so the result can be empty.
pub fn settings_sections(airpods: &AirPods) -> (sections: Vec<Section>)
    ensures
        crate::ui::page::sections_view(sections@) == shown_sections(airpods@),
{
    let mut sections = no_sections();
    add_section(&mut sections, Heading::PressAndHold, press_and_hold(airpods));
    add_section(&mut sections, Heading::CallControls, call_controls(airpods));
    let mut mic = no_rows();
    add_choice::<MicMode>(&mut mic, airpods, Id::MicMode, Item::MicrophoneMode);
    add_section(&mut sections, Heading::Microphone, mic);
    let mut sleep = no_rows();
    add_setting_switch(&mut sleep, airpods, Id::SleepDetectionConfig, Item::SleepDetection);
    add_section(&mut sections, Heading::Untitled, sleep);
    add_section(&mut sections, Heading::Accessibility, accessibility(airpods));
    let mut adaptive = no_rows();
    add_slider(&mut adaptive, Item::AdaptiveAudio, adaptive_noise(airpods));
    add_section(&mut sections, Heading::AdaptiveAudio, adaptive);
    sections
}

/// AirPods that reported no setting show no section.
pub proof fn nothing_reported_shows_nothing(airpods: AirPodsView)
    requires
        airpods.control_values == Map::<u8, Seq<u8>>::empty(),
    ensures
        shown_sections(airpods).len() == 0,
{
}

/// No section is empty.
pub proof fn shown_sections_have_rows(airpods: AirPodsView, i: int)
    requires
        0 <= i < shown_sections(airpods).len(),
    ensures
        shown_sections(airpods)[i].rows.len() > 0,
{
}

/// The long press rows show the action of their own bud, and are there exactly
/// if the AirPods reported them.
pub proof fn long_press_rows_show_their_bud(airpods: AirPodsView)
    ensures
        ({
            let rows = press_and_hold_rows(airpods);
            let mode = airpods.decoded::<ClickHoldMode>(Id::ClickHoldMode);
            &&& airpods.has(Id::ClickHoldMode) ==> {
                &&& rows.len() >= 2
                &&& rows[0].item is LongPressLeft
                &&& rows[1].item is LongPressRight
                &&& mode is None ==> rows[0].control->selected is None
                    && rows[1].control->selected is None
                &&& mode matches Some(m) ==> {
                    &&& rows[0].control->selected == Some(
                        if m.left is NoiseControl {
                            0usize
                        } else {
                            1usize
                        },
                    )
                    &&& rows[1].control->selected == Some(
                        if m.right is NoiseControl {
                            0usize
                        } else {
                            1usize
                        },
                    )
                }
            }
            &&& !airpods.has(Id::ClickHoldMode) && !airpods.has(Id::ListeningModeConfigs)
                ==> rows.len() == 0
        }),
{
}

/// The rows of the press and hold cycle follow those of the buds under a title
/// of their own: one switch per mode, in this order, and Off only where it is
/// allowed.
pub proof fn cycle_rows_show_their_mode(airpods: AirPodsView)
    requires
        airpods.has(Id::ListeningModeConfigs),
    ensures
        ({
            let rows = press_and_hold_rows(airpods);
            let title: int = if airpods.has(Id::ClickHoldMode) {
                2
            } else {
                0
            };
            let first: int = title + 1 + if airpods.allow_off {
                1int
            } else {
                0int
            };
            let off = crate::ui::gtk::controls::cycle_row_of(airpods, CycleMode::Off);
            let noise = crate::ui::gtk::controls::cycle_row_of(airpods, CycleMode::NoiseCancellation);
            let clear = crate::ui::gtk::controls::cycle_row_of(airpods, CycleMode::Transparency);
            let adaptive = crate::ui::gtk::controls::cycle_row_of(airpods, CycleMode::Adaptive);
            &&& rows.len() == first + 3
            &&& rows[title].item is ListeningModes
            &&& rows[title].control is Plain
            &&& airpods.allow_off ==> rows[title + 1].item is CycleOff && rows[title + 1].control
                == (ControlView::Switch { on: off.on, locked: off.locked })
            &&& rows[first].item is CycleNoiseCancellation && rows[first].control == (
            ControlView::Switch { on: noise.on, locked: noise.locked })
            &&& rows[first + 1].item is CycleTransparency && rows[first + 1].control == (
            ControlView::Switch { on: clear.on, locked: clear.locked })
            &&& rows[first + 2].item is CycleAdaptive && rows[first + 2].control == (
            ControlView::Switch { on: adaptive.on, locked: adaptive.locked })
        }),
{
}

/// The rows on calls are there exactly if they were reported: the press that
/// answers, the one that mutes and the one that hangs up.
pub proof fn call_rows_show_the_presses(airpods: AirPodsView)
    ensures
        ({
            let rows = call_rows(airpods);
            let id = Id::CallManagementConfig;
            &&& !airpods.has(id) ==> rows.len() == 0
            &&& airpods.has(id) ==> {
                &&& rows.len() == 3
                &&& rows[0].item is AnswerCall && rows[0].control == ControlView::Text(
                    "Press Once"@,
                )
                &&& rows[1].item is MuteControl && rows[1].control is Choice
                &&& rows[2].item is HangUp
                &&& airpods.control_values[id.number()] == seq![0u8, 3u8] ==> rows[1].control->selected
                    == Some(0usize) && rows[2].control == ControlView::Text("Press Twice"@)
                &&& airpods.control_values[id.number()] == seq![0u8, 2u8] ==> rows[1].control->selected
                    == Some(1usize) && rows[2].control == ControlView::Text("Press Once"@)
            }
        }),
{
    crate::bluetooth::settings::bytes_have_their_meaning(
        airpods.control_values[Id::CallManagementConfig.number()],
    );
}

/// A row is added for a setting exactly if it was reported, with the option of
/// its value selected or the switch at its value; else the rows stay as they are.
pub proof fn reported_settings_get_a_row(rows: Seq<RowView>, airpods: AirPodsView, id: Id, item: Item)
    ensures
        ({
            let press = with_choice::<PressInterval>(rows, airpods, id, item);
            let swipe = with_choice::<SwipeInterval>(rows, airpods, id, item);
            let mic = with_choice::<MicMode>(rows, airpods, id, item);
            let switch = with_switch(rows, airpods, id, item);
            let value = airpods.control_values[id.number()];
            &&& !airpods.has(id) ==> press == rows && swipe == rows && mic == rows && switch == rows
            &&& airpods.has(id) ==> {
                &&& press.drop_last() == rows && press.last().item == item
                &&& swipe.drop_last() == rows && swipe.last().item == item
                &&& mic.drop_last() == rows && mic.last().item == item
                &&& switch.drop_last() == rows && switch.last().item == item
                &&& value == seq![0u8] ==> press.last().control->selected == Some(0usize)
                    && mic.last().control->selected == Some(0usize)
                &&& value == seq![1u8] ==> press.last().control->selected == Some(1usize)
                    && mic.last().control->selected == Some(1usize)
                    && swipe.last().control->selected == Some(0usize)
                &&& value == seq![2u8] ==> press.last().control->selected == Some(2usize)
                    && mic.last().control->selected == Some(2usize)
                    && swipe.last().control->selected == Some(1usize)
                &&& value == seq![3u8] ==> swipe.last().control->selected == Some(2usize)
                &&& switch.last().control == (ControlView::Switch {
                    on: value == seq![1u8],
                    locked: false,
                })
            }
        }),
{
    crate::bluetooth::settings::bytes_have_their_meaning(airpods.control_values[id.number()]);
    if airpods.has(id) {
        assert(with_choice::<PressInterval>(rows, airpods, id, item).drop_last() =~= rows);
        assert(with_choice::<SwipeInterval>(rows, airpods, id, item).drop_last() =~= rows);
        assert(with_choice::<MicMode>(rows, airpods, id, item).drop_last() =~= rows);
        assert(with_switch(rows, airpods, id, item).drop_last() =~= rows);
    }
}

/// A slider is added where it has a position, at that position, from 0 to 100 in
/// steps of 5.
pub proof fn positions_get_a_slider(rows: Seq<RowView>, item: Item, value: u8)
    ensures
        with_slider(rows, item, None) == rows,
        with_slider(rows, item, Some(value)).drop_last() == rows,
        with_slider(rows, item, Some(value)).last() == (RowView {
            item,
            control: ControlView::Slider { value, max: 100, step: 5 },
        }),
{
    assert(with_slider(rows, item, Some(value)).drop_last() =~= rows);
}

/// With every setting of it reported, the accessibility section has these six
/// rows, each from its own setting.
pub proof fn accessibility_rows_are_in_order(airpods: AirPodsView)
    requires
        airpods.has(Id::DoubleClickInterval),
        airpods.has(Id::ClickHoldInterval),
        airpods.has(Id::OneBudAncMode),
        airpods.has(Id::ChimeVolume),
        airpods.has(Id::VolumeSwipeMode),
        airpods.has(Id::VolumeSwipeInterval),
    ensures
        ({
            let rows = accessibility_rows(airpods);
            &&& rows.len() == 6
            &&& rows[0].item is PressSpeed
            &&& rows[1].item is HoldDuration
            &&& rows[2].item is OneBudAnc
            &&& rows[3].item is ToneVolume
            &&& rows[4].item is VolumeControl
            &&& rows[5].item is VolumeSwipeSpeed
            &&& rows[0].control == setting_choice::<PressInterval>(airpods, Id::DoubleClickInterval)
            &&& rows[1].control == setting_choice::<PressInterval>(airpods, Id::ClickHoldInterval)
            &&& rows[2].control->on <==> airpods.switched(Id::OneBudAncMode) == Some(true)
            &&& rows[3].control->value == crate::ui::gtk::controls::tone_volume_of(airpods)->0
            &&& rows[4].control->on <==> airpods.switched(Id::VolumeSwipeMode) == Some(true)
            &&& rows[5].control == setting_choice::<SwipeInterval>(airpods, Id::VolumeSwipeInterval)
        }),
{
}

/// With every setting reported the sections come in this order, the microphone,
/// the sleep detection and Adaptive Audio with the row of their setting.
pub proof fn sections_are_in_order(airpods: AirPodsView)
    requires
        airpods.has(Id::ClickHoldMode),
        airpods.has(Id::CallManagementConfig),
        airpods.has(Id::MicMode),
        airpods.has(Id::SleepDetectionConfig),
        airpods.has(Id::OneBudAncMode),
        airpods.has(Id::AutoAncStrength),
    ensures
        ({
            let shown = shown_sections(airpods);
            &&& shown.len() == 6
            &&& shown[0].heading is PressAndHold && shown[0].rows == press_and_hold_rows(airpods)
            &&& shown[1].heading is CallControls && shown[1].rows == call_rows(airpods)
            &&& shown[2].heading is Microphone && shown[2].rows.len() == 1
                && shown[2].rows[0].item is MicrophoneMode && shown[2].rows[0].control
                == setting_choice::<MicMode>(airpods, Id::MicMode)
            &&& shown[3].heading is Untitled && shown[3].rows.len() == 1
                && shown[3].rows[0].item is SleepDetection && (shown[3].rows[0].control->on
                <==> airpods.switched(Id::SleepDetectionConfig) == Some(true))
            &&& shown[4].heading is Accessibility && shown[4].rows == accessibility_rows(airpods)
            &&& shown[5].heading is AdaptiveAudio && shown[5].rows.len() == 1
                && shown[5].rows[0].item is AdaptiveAudio && shown[5].rows[0].control->value
                == crate::ui::gtk::controls::adaptive_noise_of(airpods)->0
        }),
{
}

} // verus!
