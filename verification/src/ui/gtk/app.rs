//! Decisions of the loop around the model: when to read the devices file
//! again, which equalizers are still worth sending, how the tick timer
//! follows the model, and what a failed command is answered with.

use crate::bluetooth::eq::CustomEq;
use crate::text::{joined, same_text};
use crate::time::{Duration, NANOS_PER_SEC};
use crate::ui::gtk::model::{AirPodsSnapshot, DeviceSnapshot};
use crate::ui::gtk::theme::ThemePreference;
use vstd::prelude::*;

verus! {

/// How long to wait for DeviceConnected after the Bluetooth connect
/// succeeded, in seconds.
pub const CONNECT_SETUP_SECS: u64 = 30;

/// How long to wait for DeviceConnected after the Bluetooth connect
/// succeeded.
pub fn connect_setup_timeout() -> (d: Duration)
    ensures
        d@ == CONNECT_SETUP_SECS * NANOS_PER_SEC,
{
    Duration::from_secs(CONNECT_SETUP_SECS)
}

/// How the window behaves at startup and on close.
#[derive(Debug, Clone, Copy, PartialEq, Eq, Structural)]
pub struct Options {
    /// Do not show the window at startup.
    pub start_minimized: bool,
    /// A tray icon can bring the window back, so closing it hides it and the
    /// app keeps running. Without a tray, closing the window quits.
    pub tray: bool,
}

/// What a launch of the application does.
#[derive(Debug, Clone, Copy, PartialEq, Eq, Structural)]
pub enum Activation {
    /// The application runs: show its window.
    Present,
    /// The first launch: start, and show the window or not.
    Start { present: bool },
    /// Nothing is left to start from.
    Nothing,
}

impl Options {
    /// Whether closing the window only hides it.
    pub fn hides_on_close(&self) -> (yes: bool)
        ensures
            yes == self.tray,
    {
        self.tray
    }

    /// What a launch does, for whether the application runs and whether it
    /// can still start.
    pub open spec fn launch(self, running: bool, startable: bool) -> Activation {
        if running {
            Activation::Present
        } else if startable {
            Activation::Start { present: !self.start_minimized }
        } else {
            Activation::Nothing
        }
    }

    /// What a launch does, for whether the application runs and whether it
    /// can still start.
    pub fn activation(&self, running: bool, startable: bool) -> (activation: Activation)
        ensures
            activation == (if running {
                Activation::Present
            } else if startable {
                Activation::Start { present: !self.start_minimized }
            } else {
                Activation::Nothing
            }),
            activation == self.launch(running, startable),
    {
        if running {
            Activation::Present
        } else if startable {
            Activation::Start { present: !self.start_minimized }
        } else {
            Activation::Nothing
        }
    }
}

/// Reads of the devices file. Requests while a read runs are folded into one
/// more read after it.
#[derive(Debug, Clone, Copy, PartialEq, Eq, Structural)]
pub struct DevicesLoader {
    /// A read is running; a second request waits for it.
    pub loading: bool,
    /// Another read was asked for meanwhile.
    pub reload: bool,
}

impl Default for DevicesLoader {
    /// No read runs.
    fn default() -> (loader: DevicesLoader)
        ensures
            loader == (DevicesLoader { loading: false, reload: false }),
    {
        DevicesLoader { loading: false, reload: false }
    }
}

impl DevicesLoader {
    /// The loader after a request.
    pub open spec fn requested(self) -> DevicesLoader {
        DevicesLoader { loading: true, reload: self.reload || self.loading }
    }

    /// The loader after a read ended.
    pub open spec fn ended(self) -> DevicesLoader {
        DevicesLoader { loading: self.reload, reload: false }
    }

    /// Asks for a read, and returns whether to start one now.
    pub fn request(&mut self) -> (start: bool)
        ensures
            *final(self) == old(self).requested(),
            start == !old(self).loading,
    {
        if self.loading {
            self.reload = true;
            return false;
        }
        self.loading = true;
        true
    }

    /// Ends a read, and returns whether to start another.
    pub fn finish(&mut self) -> (again: bool)
        ensures
            *final(self) == old(self).ended(),
            again == old(self).reload,
    {
        let again = self.reload;
        self.reload = false;
        self.loading = again;
        again
    }
}

/// However often the file is asked for while a read runs, it is read once
/// more, and then no more; and a request is never lost: with one, a read runs
/// now or follows.
pub proof fn requests_are_folded_into_one_read(loader: DevicesLoader)
    requires
        loader.loading,
    ensures
        loader.requested().requested() == loader.requested(),
        loader.requested().ended().loading,
        !loader.requested().ended().ended().loading,
{
}

/// The mathematical content of queued equalizers.
pub open spec fn queue_view(queued: Seq<(String, CustomEq)>) -> Seq<(Seq<char>, CustomEq)> {
    queued.map_values(|q: (String, CustomEq)| (q.0@, q.1))
}

/// The first place of a device in the queue, its length where there is none.
pub open spec fn place_in(queued: Seq<(Seq<char>, CustomEq)>, mac: Seq<char>) -> int
    decreases queued.len(),
{
    if queued.len() == 0 {
        0
    } else if queued[0].0 == mac {
        0
    } else {
        1 + place_in(queued.skip(1), mac)
    }
}

/// The queue with one more equalizer: in the place of the device's older one,
/// else at the end.
pub open spec fn with_queued(
    queued: Seq<(Seq<char>, CustomEq)>,
    mac: Seq<char>,
    eq: CustomEq,
) -> Seq<(Seq<char>, CustomEq)> {
    let at = place_in(queued, mac);
    if at < queued.len() {
        queued.update(at, (mac, eq))
    } else {
        queued.push((mac, eq))
    }
}

/// Queues an equalizer to send. When several are queued for a device, only
/// the newest is kept.
pub fn queue_eq(queued: &mut Vec<(String, CustomEq)>, mac: String, eq: CustomEq)
    ensures
        queue_view(final(queued)@) == with_queued(queue_view(old(queued)@), mac@, eq),
{
    let ghost all = queue_view(queued@);
    let mut i: usize = 0;
    proof {
        assert(all.skip(0) =~= all);
    }
    while i < queued.len()
        invariant
            i <= queued@.len(),
            *queued == *old(queued),
            all == queue_view(queued@),
            place_in(all, mac@) == i + place_in(all.skip(i as int), mac@),
        decreases queued@.len() - i,
    {
        proof {
            assert(all.skip(i as int)[0] == all[i as int]);
            assert(all.skip(i as int).skip(1) =~= all.skip(i + 1));
            assert(all[i as int].0 == queued@[i as int].0@);
        }
        if same_text(queued[i].0.as_str(), mac.as_str()) {
            queued.set(i, (mac, eq));
            proof {
                assert(queue_view(queued@) =~= all.update(i as int, (mac@, eq)));
            }
            return;
        }
        i = i + 1;
    }
    proof {
        assert(all.skip(i as int).len() == 0);
    }
    queued.push((mac, eq));
    proof {
        assert(queue_view(queued@) =~= all.push((mac@, eq)));
    }
}

proof fn lemma_place(queued: Seq<(Seq<char>, CustomEq)>, mac: Seq<char>)
    ensures
        0 <= place_in(queued, mac) <= queued.len(),
        place_in(queued, mac) < queued.len() ==> queued[place_in(queued, mac)].0 == mac,
        forall|i: int| 0 <= i < place_in(queued, mac) ==> (#[trigger] queued[i]).0 != mac,
    decreases queued.len(),
{
    if queued.len() > 0 && queued[0].0 != mac {
        lemma_place(queued.skip(1), mac);
        let at = place_in(queued.skip(1), mac);
        if at < queued.len() - 1 {
            assert(queued.skip(1)[at] == queued[at + 1]);
        }
        assert forall|i: int| 0 <= i < place_in(queued, mac) implies (#[trigger] queued[i]).0
            != mac by {
            if i > 0 {
                assert(queued.skip(1)[i - 1] == queued[i]);
            }
        }
    }
}

/// The newest equalizer of a device is the one that is queued, every device
/// is queued once, and the queued equalizers of the other devices stay.
pub proof fn only_the_newest_equalizer_is_queued(
    queued: Seq<(Seq<char>, CustomEq)>,
    mac: Seq<char>,
    eq: CustomEq,
)
    requires
        forall|i: int, j: int|
            0 <= i < j < queued.len() ==> (#[trigger] queued[i]).0 != (#[trigger] queued[j]).0,
    ensures
        with_queued(queued, mac, eq).contains((mac, eq)),
        forall|i: int, j: int|
            0 <= i < j < with_queued(queued, mac, eq).len() ==> (#[trigger] with_queued(
                queued,
                mac,
                eq,
            )[i]).0 != (#[trigger] with_queued(queued, mac, eq)[j]).0,
        forall|i: int|
            0 <= i < queued.len() && (#[trigger] queued[i]).0 != mac ==> with_queued(
                queued,
                mac,
                eq,
            )[i] == queued[i],
{
    lemma_place(queued, mac);
    let at = place_in(queued, mac);
    let now = with_queued(queued, mac, eq);
    assert(now[at] == (mac, eq));
    assert forall|i: int, j: int| 0 <= i < j < now.len() implies (#[trigger] now[i]).0 != (
    #[trigger] now[j]).0 by {
        if j < queued.len() {
            assert(queued[i].0 != queued[j].0);
        }
    }
}

/// How the tick timer changes.
#[derive(Debug, Clone, Copy, PartialEq, Eq)]
pub enum TickChange {
    /// It runs as it should, or should not and does not.
    Keep,
    /// Stop it.
    Stop,
    /// Stop the one that runs, if any, and start one.
    Start(Duration),
}

/// The interval of a timer that may not run.
pub open spec fn interval(timer: Option<Duration>) -> Option<nat> {
    match timer {
        Some(d) => Some(d@),
        None => None,
    }
}

/// The interval of the timer after a change.
pub open spec fn interval_after(running: Option<nat>, change: TickChange) -> Option<nat> {
    match change {
        TickChange::Keep => running,
        TickChange::Stop => None,
        TickChange::Start(d) => Some(d@),
    }
}

/// How the tick timer changes to what the model asks for.
pub fn tick_change(running: Option<Duration>, wanted: Option<Duration>) -> (change: TickChange)
    ensures
        match change {
            TickChange::Keep => interval(running) == interval(wanted),
            TickChange::Stop => interval(running) is Some && interval(wanted) is None,
            TickChange::Start(d) => interval(wanted) == Some(d@) && interval(running) != interval(
                wanted,
            ),
        },
        interval_after(interval(running), change) == interval(wanted),
{
    match (running, wanted) {
        (None, None) => TickChange::Keep,
        (Some(_), None) => TickChange::Stop,
        (None, Some(d)) => TickChange::Start(d),
        (Some(now), Some(d)) => if now.is(d) {
            TickChange::Keep
        } else {
            TickChange::Start(d)
        },
    }
}

/// The state that the managers of a device hold: that of its AACP manager,
/// else only that it has an ATT manager.
pub open spec fn held_state(aacp: Option<AirPodsSnapshot>, att: bool) -> Option<DeviceSnapshot> {
    match aacp {
        Some(airpods) => Some(DeviceSnapshot::AirPods(airpods)),
        None => if att {
            Some(DeviceSnapshot::Nothing)
        } else {
            None
        },
    }
}

/// The state that the managers of a device hold: that of its AACP manager,
/// else only that it has an ATT manager.
pub fn snapshot(aacp: Option<AirPodsSnapshot>, att: bool) -> (snapshot: Option<DeviceSnapshot>)
    ensures
        snapshot == (match aacp {
            Some(airpods) => Some(DeviceSnapshot::AirPods(airpods)),
            None => if att {
                Some(DeviceSnapshot::Nothing)
            } else {
                None
            },
        }),
        snapshot == held_state(aacp, att),
{
    match aacp {
        Some(airpods) => Some(DeviceSnapshot::AirPods(airpods)),
        None => if att {
            Some(DeviceSnapshot::Nothing)
        } else {
            None
        },
    }
}

/// The color scheme of the whole application.
#[derive(Debug, Clone, Copy, PartialEq, Eq, Structural)]
pub enum ColorScheme {
    /// That of the system.
    Default,
    ForceLight,
    ForceDark,
}

/// The color scheme of a preference.
pub open spec fn scheme_of(theme: ThemePreference) -> ColorScheme {
    match theme {
        ThemePreference::System => ColorScheme::Default,
        ThemePreference::Light => ColorScheme::ForceLight,
        ThemePreference::Dark => ColorScheme::ForceDark,
    }
}

/// The color scheme of a preference.
pub fn color_scheme(theme: ThemePreference) -> (scheme: ColorScheme)
    ensures
        scheme == (match theme {
            ThemePreference::System => ColorScheme::Default,
            ThemePreference::Light => ColorScheme::ForceLight,
            ThemePreference::Dark => ColorScheme::ForceDark,
        }),
        scheme == scheme_of(theme),
{
    match theme {
        ThemePreference::System => ColorScheme::Default,
        ThemePreference::Light => ColorScheme::ForceLight,
        ThemePreference::Dark => ColorScheme::ForceDark,
    }
}

/// Work that can fail on the way to the AirPods.
#[derive(Debug, Clone, Copy, PartialEq, Eq, Structural)]
pub enum Work {
    Connect,
    Setting,
    Rename,
    NoiseControl,
    Equalizer,
}

impl Work {
    /// The text before the error.
    pub open spec fn failure(self) -> Seq<char> {
        match self {
            Work::Connect => "Could not connect: "@,
            Work::Setting => "Could not change the setting: "@,
            Work::Rename => "Could not rename the AirPods: "@,
            Work::NoiseControl => "Could not change noise control: "@,
            Work::Equalizer => "Could not change the equalizer: "@,
        }
    }

    /// What the user is told when the work fails.
    pub fn failed(self, error: &str) -> (text: String)
        ensures
            text@ == self.failure() + error@,
    {
        let start = match self {
            Work::Connect => "Could not connect: ",
            Work::Setting => "Could not change the setting: ",
            Work::Rename => "Could not rename the AirPods: ",
            Work::NoiseControl => "Could not change noise control: ",
            Work::Equalizer => "Could not change the equalizer: ",
        };
        joined(start, error)
    }
}

/// What the user is told when AirPods have no manager.
pub const AIRPODS_AWAY: &'static str = "The AirPods are not connected";

/// Why a take is missing when no recorder runs.
pub const RECORDING_LOST: &'static str = "The recording was lost";

/// Why a take is missing when its recorder ended badly.
pub const RECORDER_CRASHED: &'static str = "The recorder crashed";

/// A launch shows the window of an application that runs, whatever the options
/// say. The first one starts it, with its window unless it starts minimized.
pub proof fn a_launch_shows_or_starts(options: Options, startable: bool)
    ensures
        options.launch(true, startable) is Present,
        options.launch(false, false) is Nothing,
        options.start_minimized ==> options.launch(false, true) == (Activation::Start {
            present: false,
        }),
        !options.start_minimized ==> options.launch(false, true) == (Activation::Start {
            present: true,
        }),
{
}

/// A read starts with the first request, and a request while one runs is
/// answered by another read after it; without a request none follows.
pub proof fn reads_follow_requests(loader: DevicesLoader)
    ensures
        loader.requested().loading,
        loader.loading ==> loader.requested().reload,
        !loader.loading ==> loader.requested().reload == loader.reload,
        loader.ended().loading == loader.reload,
        !loader.ended().reload,
{
}

/// The place of a device in the queue is the first one that is its own, and the
/// queue grows by one exactly where it has none.
pub proof fn a_queued_equalizer_takes_its_place(
    queued: Seq<(Seq<char>, CustomEq)>,
    mac: Seq<char>,
    eq: CustomEq,
)
    ensures
        ({
            let now = with_queued(queued, mac, eq);
            let waits = exists|i: int| 0 <= i < queued.len() && (#[trigger] queued[i]).0 == mac;
            &&& waits ==> now.len() == queued.len()
            &&& !waits ==> now == queued.push((mac, eq))
            &&& exists|i: int| 0 <= i < now.len() && #[trigger] now[i] == (mac, eq)
            &&& forall|i: int|
                0 <= i < queued.len() && (#[trigger] queued[i]).0 != mac ==> now[i] == queued[i]
        }),
{
    lemma_place(queued, mac);
    let at = place_in(queued, mac);
    let now = with_queued(queued, mac, eq);
    assert(now[at] == (mac, eq));
}

/// AirPods are read from the manager that speaks for them; a device without one
/// is a Nothing device where its attributes can be read, and else unknown.
pub proof fn managers_tell_what_a_device_is(airpods: AirPodsSnapshot, att: bool)
    ensures
        held_state(Some(airpods), att) == Some(DeviceSnapshot::AirPods(airpods)),
        held_state(None, true) == Some(DeviceSnapshot::Nothing),
        held_state(None, false) is None,
{
}

/// A preference forces its own scheme, and that of the system forces none.
pub proof fn preferences_have_their_scheme()
    ensures
        scheme_of(ThemePreference::System) is Default,
        scheme_of(ThemePreference::Light) is ForceLight,
        scheme_of(ThemePreference::Dark) is ForceDark,
{
}

/// What failed is said before why.
pub proof fn failures_say_what_failed()
    ensures
        Work::Connect.failure() == "Could not connect: "@,
        Work::Setting.failure() == "Could not change the setting: "@,
        Work::Rename.failure() == "Could not rename the AirPods: "@,
        Work::NoiseControl.failure() == "Could not change noise control: "@,
        Work::Equalizer.failure() == "Could not change the equalizer: "@,
        CONNECT_SETUP_SECS == 30,
{
}

} // verus!
