//! What the sidebar and the AirPods page show for a battery report: a level,
//! whether it charges, whether it is a remembered value, and the Adwaita icon
//! for it.

use crate::bluetooth::aacp::{BatteryComponent, BatteryInfo};
use crate::text::{decimal_text, joined, joined3};
use crate::ui::format::{find_component, known_level, live_case_level};
use vstd::prelude::*;

verus! {

/// One battery as shown.
#[derive(Debug, Clone, Copy, PartialEq, Eq, Structural)]
pub struct Level {
    /// None when the component is absent, disconnected or reports garbage.
    pub percent: Option<u8>,
    pub charging: bool,
    /// A remembered case level, drawn dimmed: the case only reports while a
    /// bud sits in it.
    pub stale: bool,
}

/// The level of a battery nothing is known about.
pub open spec fn unknown_level() -> Level {
    Level { percent: None, charging: false, stale: false }
}

/// The level of a battery entry, or an unknown one where there is none.
pub open spec fn level_of(info: Option<BatteryInfo>) -> Level {
    match info {
        Some(i) => {
            let percent = crate::ui::format::level_if_known(i);
            Level { percent, charging: percent is Some && i.status.charges(), stale: false }
        },
        None => unknown_level(),
    }
}

/// A percentage to the nearest ten, halves up, never over 100.
pub open spec fn nearest_ten(percent: u8) -> nat {
    ((if percent > 100 {
        100
    } else {
        percent as int
    } + 5) / 10 * 10) as nat
}

impl Level {
    /// The level of a battery nothing is known about.
    pub fn unknown() -> (level: Level)
        ensures
            level == unknown_level(),
    {
        Level { percent: None, charging: false, stale: false }
    }

    fn from_info(info: Option<BatteryInfo>) -> (level: Level)
        ensures
            level == level_of(info),
    {
        match info {
            None => Level::unknown(),
            Some(info) => {
                let percent = known_level(&info);
                Level {
                    percent,
                    charging: percent.is_some() && info.status.is_charging(),
                    stale: false,
                }
            },
        }
    }

    /// The text of the level.
    pub open spec fn shown_text(self) -> Seq<char> {
        match self.percent {
            Some(p) => crate::text::decimal(p as nat) + "%"@,
            None => "-"@,
        }
    }

    /// The name of the icon of the level.
    pub open spec fn shown_icon(self) -> Seq<char> {
        match self.percent {
            None => "battery-missing-symbolic"@,
            Some(p) => if self.charging && nearest_ten(p) == 100 {
                "battery-level-100-charged-symbolic"@
            } else if self.charging {
                "battery-level-"@ + crate::text::decimal(nearest_ten(p)) + "-charging-symbolic"@
            } else {
                "battery-level-"@ + crate::text::decimal(nearest_ten(p)) + "-symbolic"@
            },
        }
    }

    /// "80%", or "-" when unknown.
    pub fn text(self) -> (text: String)
        ensures
            text@ == self.shown_text(),
    {
        match self.percent {
            Some(p) => joined(decimal_text(p as u64).as_str(), "%"),
            None => "-".to_string(),
        }
    }

    /// Adwaita symbolic icon for the level, rounded to the nearest ten.
    pub fn icon_name(self) -> (name: String)
        ensures
            name@ == self.shown_icon(),
    {
        match self.percent {
            None => "battery-missing-symbolic".to_string(),
            Some(percent) => {
                let capped: u64 = if percent > 100 {
                    100
                } else {
                    percent as u64
                };
                let step: u64 = (capped + 5) / 10 * 10;
                if self.charging && step == 100 {
                    "battery-level-100-charged-symbolic".to_string()
                } else if self.charging {
                    joined3("battery-level-", decimal_text(step).as_str(), "-charging-symbolic")
                } else {
                    joined3("battery-level-", decimal_text(step).as_str(), "-symbolic")
                }
            },
        }
    }
}

/// The batteries of a device.
#[derive(Debug, Clone, Copy, PartialEq, Eq, Structural)]
pub enum Batteries {
    /// Over-ear headphones report one level.
    Headphone(Level),
    Buds { left: Level, right: Level, case: Level },
}

/// A label with the level it stands before.
pub open spec fn labeled_view(entries: Seq<(&'static str, Level)>) -> Seq<(Seq<char>, Level)> {
    entries.map_values(|e: (&'static str, Level)| (e.0@, e.1))
}

impl Batteries {
    /// The batteries with their short labels, in display order.
    pub open spec fn with_labels(self) -> Seq<(Seq<char>, Level)> {
        match self {
            Batteries::Headphone(level) => seq![("Battery"@, level)],
            Batteries::Buds { left, right, case } => seq![
                ("Left"@, left),
                ("Right"@, right),
                ("Case"@, case),
            ],
        }
    }

    /// The batteries with their short labels, in display order.
    pub fn labeled(&self) -> (entries: Vec<(&'static str, Level)>)
        ensures
            labeled_view(entries@) == self.with_labels(),
    {
        match *self {
            Batteries::Headphone(level) => {
                let entries: Vec<(&'static str, Level)> = vec![("Battery", level)];
                proof {
                    assert(labeled_view(entries@) =~= self.with_labels());
                }
                entries
            },
            Batteries::Buds { left, right, case } => {
                let entries: Vec<(&'static str, Level)> = vec![
                    ("Left", left),
                    ("Right", right),
                    ("Case", case),
                ];
                proof {
                    assert(labeled_view(entries@) =~= self.with_labels());
                }
                entries
            },
        }
    }
}

/// The case level to show: the reported one, else the remembered one, marked
/// stale.
pub open spec fn case_shown(battery: Seq<BatteryInfo>, last_case: Option<u8>) -> Level {
    if crate::ui::format::case_level(battery) is Some {
        level_of(crate::ui::format::first_of(battery, BatteryComponent::Case))
    } else if last_case is Some {
        Level { percent: last_case, charging: false, stale: true }
    } else {
        unknown_level()
    }
}

/// The batteries to show for a report.
pub open spec fn batteries_shown(battery: Seq<BatteryInfo>, last_case: Option<u8>) -> Batteries {
    match crate::ui::format::first_of(battery, BatteryComponent::Headphone) {
        Some(info) => Batteries::Headphone(level_of(Some(info))),
        None => Batteries::Buds {
            left: level_of(crate::ui::format::first_of(battery, BatteryComponent::Left)),
            right: level_of(crate::ui::format::first_of(battery, BatteryComponent::Right)),
            case: case_shown(battery, last_case),
        },
    }
}

/// The batteries to show for a report. A case that cannot report falls back
/// to `last_case`, marked stale.
pub fn batteries(battery: &[BatteryInfo], last_case: Option<u8>) -> (shown: Batteries)
    ensures
        shown == batteries_shown(battery@, last_case),
{
    let headphone = find_component(battery, BatteryComponent::Headphone);
    if headphone.is_some() {
        return Batteries::Headphone(Level::from_info(headphone));
    }
    let case = if live_case_level(battery).is_some() {
        Level::from_info(find_component(battery, BatteryComponent::Case))
    } else if last_case.is_some() {
        Level { percent: last_case, charging: false, stale: true }
    } else {
        Level::unknown()
    };
    Batteries::Buds {
        left: Level::from_info(find_component(battery, BatteryComponent::Left)),
        right: Level::from_info(find_component(battery, BatteryComponent::Right)),
        case,
    }
}

/// Only a level that is known charges, and only a remembered case level is
/// stale: a level read from a report never is.
pub proof fn levels_say_what_is_known(info: Option<BatteryInfo>)
    ensures
        level_of(info).charging ==> level_of(info).percent is Some,
        level_of(info).percent matches Some(p) ==> p <= 100,
        !level_of(info).stale,
{
}

/// A level is known where its entry is in reach and in range, and is then the
/// one that was reported. It charges where it is known and the entry says so,
/// optimized or not.
pub proof fn a_level_is_that_of_its_entry(info: BatteryInfo)
    ensures
        ({
            let level = level_of(Some(info));
            let known = info.level <= 100 && !(info.status is Disconnected);
            &&& known ==> level.percent == Some(info.level)
            &&& !known ==> level.percent is None
            &&& level.charging <==> known && (info.status is Charging
                || info.status is OptimizedCharging)
            &&& level_of(None).percent is None
            &&& !level_of(None).charging
            &&& !level_of(None).stale
        }),
{
}

/// The ten that a percentage is shown with is at most five away, and the upper
/// one where two are.
pub proof fn the_nearest_ten_is_near(percent: u8)
    requires
        percent <= 100,
    ensures
        nearest_ten(percent) % 10 == 0,
        nearest_ten(percent) <= 100,
        percent < nearest_ten(percent) + 5,
        nearest_ten(percent) <= percent + 5,
{
}

/// A level is written as its number with a percent sign, and an unknown one as a
/// dash.
pub proof fn level_texts_read_back(level: Level)
    ensures
        level.percent is None ==> level.shown_text() == "-"@,
        level.percent matches Some(p) ==> {
            &&& level.shown_text().last() == '%'
            &&& crate::text::number_of(level.shown_text().drop_last()) == p
        },
{
    reveal_strlit("%");
    match level.percent {
        Some(p) => {
            crate::text::decimals_read_back(p as nat);
            assert(level.shown_text().drop_last() =~= crate::text::decimal(p as nat));
        },
        None => {},
    }
}

/// The icon of a level names a ten that is near it, and says that it charges
/// exactly if it does; from 95 percent on a battery that charges is shown as
/// charged. An unknown level has the icon of a missing battery.
pub proof fn the_icon_names_a_ten_near_the_level(level: Level, ten: nat)
    requires
        ten % 10 == 0,
        level.percent matches Some(p) ==> p <= 100 && p < ten + 5 && ten <= p + 5,
    ensures
        level.percent is None ==> level.shown_icon() == "battery-missing-symbolic"@,
        level.percent matches Some(p) ==> {
            &&& !level.charging ==> level.shown_icon() == "battery-level-"@ + crate::text::decimal(
                ten,
            ) + "-symbolic"@
            &&& level.charging && p < 95 ==> level.shown_icon() == "battery-level-"@
                + crate::text::decimal(ten) + "-charging-symbolic"@
            &&& level.charging && p >= 95 ==> level.shown_icon()
                == "battery-level-100-charged-symbolic"@
        },
{
    match level.percent {
        Some(p) => {
            the_nearest_ten_is_near(p);
            assert(nearest_ten(p) == ten);
        },
        None => {},
    }
}

/// Headphones that report a level of their own show that one alone; buds show
/// the left, the right and the case, each from its own entry, in this order.
pub proof fn each_battery_is_shown_from_its_entry(
    battery: Seq<BatteryInfo>,
    last_case: Option<u8>,
    headphone: Option<BatteryInfo>,
    left: Option<BatteryInfo>,
    right: Option<BatteryInfo>,
)
    requires
        headphone == crate::ui::format::first_of(battery, BatteryComponent::Headphone),
        left == crate::ui::format::first_of(battery, BatteryComponent::Left),
        right == crate::ui::format::first_of(battery, BatteryComponent::Right),
    ensures
        ({
            let shown = batteries_shown(battery, last_case).with_labels();
            &&& headphone is Some ==> shown.len() == 1 && shown[0] == ("Battery"@, level_of(headphone))
            &&& headphone is None ==> {
                &&& shown.len() == 3
                &&& shown[0] == ("Left"@, level_of(left))
                &&& shown[1] == ("Right"@, level_of(right))
                &&& shown[2] == ("Case"@, case_shown(battery, last_case))
            }
        }),
{
}

/// A case that reports a level shows that one, as it is now. One that reports
/// none shows the remembered level, stale and not charging; without one it is
/// unknown.
pub proof fn a_silent_case_shows_the_remembered_level(
    battery: Seq<BatteryInfo>,
    last_case: Option<u8>,
)
    ensures
        ({
            let shown = case_shown(battery, last_case);
            let now = crate::ui::format::case_level(battery);
            &&& now is Some ==> shown.percent == now && !shown.stale
            &&& now is None ==> shown.percent == last_case && !shown.charging
            &&& now is None && last_case is Some ==> shown.stale
            &&& now is None && last_case is None ==> !shown.stale
        }),
{
}

} // verus!
