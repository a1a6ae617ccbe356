//! Display text and input checks for the device pages. Nothing here depends on
//! the UI toolkit, so any front end can share it.

use crate::bluetooth::aacp::{BatteryComponent, BatteryInfo, BatteryStatus};
use crate::text::{byte_len, decimal_text, joined3, trim, two_places_text};
use crate::time::{Duration, NANOS_PER_SEC};
use vstd::prelude::*;

verus! {

/// Longest name the AirPods accept in a rename packet, in bytes.
pub const MAX_NAME_BYTES: usize = 32;

/// The name to send, trimmed, or a short hint saying why it cannot be sent.
pub open spec fn checked_name(name: Seq<char>) -> Result<Seq<char>, Seq<char>> {
    let name = crate::text::trimmed(name);
    if name.len() == 0 {
        Err("Name can't be empty"@)
    } else if vstd::utf8::encode_utf8(name).len() > MAX_NAME_BYTES {
        Err("Name is too long"@)
    } else {
        Ok(name)
    }
}

/// The view of a name check's outcome.
pub open spec fn name_check_view(r: Result<&str, &str>) -> Result<Seq<char>, Seq<char>> {
    match r {
        Ok(s) => Ok(s@),
        Err(s) => Err(s@),
    }
}

/// The name to send, trimmed, or a short hint saying why it cannot be sent.
pub fn validate_device_name<'a>(name: &'a str) -> (checked: Result<&'a str, &'static str>)
    ensures
        name_check_view(checked) == checked_name(name@),
{
    let name = trim(name);
    if name.unicode_len() == 0 {
        Err("Name can't be empty")
    } else if byte_len(name) > MAX_NAME_BYTES {
        Err("Name is too long")
    } else {
        Ok(name)
    }
}

/// A name that passes the check passes it again unchanged.
pub proof fn a_checked_name_stays(name: Seq<char>)
    ensures
        checked_name(name) matches Ok(n) ==> checked_name(n) == checked_name(name),
{
    crate::text::trimming_is_idempotent(name);
}

/// A number of seconds as minutes and zero-padded seconds.
pub open spec fn minutes_seconds(secs: nat) -> Seq<char> {
    crate::text::decimal(secs / 60) + ":"@ + crate::text::two_places(secs % 60)
}

/// A duration as minutes and zero-padded seconds, such as "1:05".
pub fn mmss(d: Duration) -> (text: String)
    ensures
        text@ == minutes_seconds(d@ / (NANOS_PER_SEC as nat)),
{
    let secs: u64 = d.as_secs();
    joined3(decimal_text(secs / 60).as_str(), ":", two_places_text(secs % 60).as_str())
}

/// The level of a battery entry, or None when the component is disconnected or
/// the level is out of range.
pub open spec fn level_if_known(info: BatteryInfo) -> Option<u8> {
    if info.status != BatteryStatus::Disconnected && info.level <= 100 {
        Some(info.level)
    } else {
        None
    }
}

/// The level of a battery entry, or None when the component is disconnected or
/// the level is out of range.
pub fn known_level(info: &BatteryInfo) -> (level: Option<u8>)
    ensures
        level == level_if_known(*info),
{
    if info.status != BatteryStatus::Disconnected && info.level <= 100 {
        Some(info.level)
    } else {
        None
    }
}

/// The first entry of a component in a battery report.
pub open spec fn first_of(battery: Seq<BatteryInfo>, component: BatteryComponent) -> Option<
    BatteryInfo,
>
    decreases battery.len(),
{
    if battery.len() == 0 {
        None
    } else if battery[0].component == component {
        Some(battery[0])
    } else {
        first_of(battery.skip(1), component)
    }
}

/// The first entry of a component in a battery report.
pub fn find_component(battery: &[BatteryInfo], component: BatteryComponent) -> (found: Option<
    BatteryInfo,
>)
    ensures
        found == first_of(battery@, component),
{
    let mut i: usize = 0;
    proof {
        assert(battery@.skip(0) =~= battery@);
    }
    while i < battery.len()
        invariant
            i <= battery@.len(),
            first_of(battery@, component) == first_of(battery@.skip(i as int), component),
        decreases battery@.len() - i,
    {
        proof {
            assert(battery@.skip(i as int)[0] == battery@[i as int]);
            assert(battery@.skip(i as int).skip(1) =~= battery@.skip(i + 1));
        }
        if battery[i].component == component {
            return Some(battery[i]);
        }
        i = i + 1;
    }
    None
}

/// The case level a battery report carries, if any. AirPods only know the case
/// level while a bud sits in it: with both buds out, the case entry reports
/// Disconnected with a level of 0 or 255.
pub open spec fn case_level(battery: Seq<BatteryInfo>) -> Option<u8> {
    match first_of(battery, BatteryComponent::Case) {
        Some(info) => level_if_known(info),
        None => None,
    }
}

/// The case level a battery report carries, if any. AirPods only know the case
/// level while a bud sits in it: with both buds out, the case entry reports
/// Disconnected with a level of 0 or 255.
pub fn live_case_level(battery: &[BatteryInfo]) -> (level: Option<u8>)
    ensures
        level == case_level(battery@),
{
    match find_component(battery, BatteryComponent::Case) {
        Some(info) => known_level(&info),
        None => None,
    }
}

/// A case entry that is disconnected is never taken for a level.
pub proof fn a_disconnected_case_has_no_level(battery: Seq<BatteryInfo>)
    requires
        first_of(battery, BatteryComponent::Case) matches Some(info)
            && info.status == BatteryStatus::Disconnected,
    ensures
        case_level(battery) is None,
{
}

/// A name that can be sent is the part of the text between its white space:
/// it is not empty and at most 32 bytes long. A text of white space only is
/// called empty; any other that cannot be sent is called too long, and then it
/// is.
pub proof fn a_name_is_sent_if_it_fits(name: Seq<char>)
    ensures
        match checked_name(name) {
            Ok(n) => {
                &&& 0 < n.len()
                &&& vstd::utf8::encode_utf8(n).len() <= 32
                &&& !crate::text::is_white_space(n[0])
                &&& !crate::text::is_white_space(n.last())
                &&& exists|head: Seq<char>, tail: Seq<char>|
                    #![trigger crate::text::blank(head), crate::text::blank(tail)]
                    crate::text::blank(head) && crate::text::blank(tail) && name == head + n + tail
            },
            Err(hint) => {
                &&& crate::text::blank(name) ==> hint == "Name can't be empty"@
                &&& !crate::text::blank(name) ==> hint == "Name is too long"@
                    && vstd::utf8::encode_utf8(crate::text::trimmed(name)).len() > 32
            },
        },
{
    crate::text::trimming_takes_white_space_only(name);
}

/// A number of seconds reads back from its text: the minutes, a colon, and the
/// seconds of the minute on two places.
pub proof fn minutes_and_seconds_read_back(secs: nat)
    ensures
        ({
            let text = minutes_seconds(secs);
            let colon = text.len() - 3;
            &&& colon >= 1
            &&& text[colon] == ':'
            &&& 60 * crate::text::number_of(text.take(colon)) + crate::text::number_of(
                text.skip(colon + 1),
            ) == secs
            &&& 0 <= crate::text::number_of(text.skip(colon + 1)) < 60
        }),
{
    reveal_strlit(":");
    let text = minutes_seconds(secs);
    crate::text::decimals_read_back(secs / 60);
    crate::text::two_places_read_back(secs % 60);
    assert(text.take(text.len() - 3) =~= crate::text::decimal(secs / 60));
    assert(text.skip(text.len() - 2) =~= crate::text::two_places(secs % 60));
}

/// A level counts as known exactly if its part is in reach and it is at most
/// 100 percent, and it is then the level that was reported.
pub proof fn only_levels_in_reach_and_range_are_known(info: BatteryInfo)
    ensures
        level_if_known(info) is Some <==> info.level <= 100 && (info.status
            == BatteryStatus::Charging || info.status == BatteryStatus::NotCharging || info.status
            == BatteryStatus::OptimizedCharging),
        level_if_known(info) matches Some(level) ==> level == info.level,
{
}

/// The entry of a component is the first one in the report that is for it.
pub proof fn the_first_entry_of_a_component_counts(
    battery: Seq<BatteryInfo>,
    component: BatteryComponent,
    i: int,
)
    requires
        0 <= i < battery.len(),
        battery[i].component == component,
        forall|j: int| 0 <= j < i ==> (#[trigger] battery[j]).component != component,
    ensures
        first_of(battery, component) == Some(battery[i]),
    decreases i,
{
    if i > 0 {
        let rest = battery.skip(1);
        assert(rest[i - 1] == battery[i]);
        assert forall|j: int| 0 <= j < i - 1 implies (#[trigger] rest[j]).component != component by {
            assert(rest[j] == battery[j + 1]);
        }
        the_first_entry_of_a_component_counts(rest, component, i - 1);
    }
}

/// A component without an entry in the report has none to show.
pub proof fn a_component_without_an_entry_is_missing(
    battery: Seq<BatteryInfo>,
    component: BatteryComponent,
)
    requires
        forall|j: int| 0 <= j < battery.len() ==> (#[trigger] battery[j]).component != component,
    ensures
        first_of(battery, component) is None,
    decreases battery.len(),
{
    if battery.len() > 0 {
        let rest = battery.skip(1);
        assert forall|j: int| 0 <= j < rest.len() implies (#[trigger] rest[j]).component
            != component by {
            assert(rest[j] == battery[j + 1]);
        }
        a_component_without_an_entry_is_missing(rest, component);
    }
}

/// The case level is the level of the first case entry, whatever the other
/// components report, and only where that entry is in reach and in range.
pub proof fn the_case_level_is_that_of_its_entry(battery: Seq<BatteryInfo>, i: int)
    requires
        0 <= i < battery.len(),
        battery[i].component == BatteryComponent::Case,
        forall|j: int| 0 <= j < i ==> (#[trigger] battery[j]).component != BatteryComponent::Case,
    ensures
        battery[i].status != BatteryStatus::Disconnected && battery[i].level <= 100 ==> case_level(
            battery,
        ) == Some(battery[i].level),
        battery[i].status == BatteryStatus::Disconnected || battery[i].level > 100 ==> case_level(
            battery,
        ) is None,
{
    the_first_entry_of_a_component_counts(battery, BatteryComponent::Case, i);
}

} // verus!
