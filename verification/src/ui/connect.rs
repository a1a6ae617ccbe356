//! Manual connect requests from the UI or the tray, keyed by MAC. An entry lives
//! until the device connects, the request fails, or the device drops during setup.

use crate::address_map::AddressMap;
use vstd::prelude::*;

verus! {

/// Shown when the Bluetooth connect worked but DeviceConnected never came.
pub const SETUP_TIMEOUT_ERROR: &'static str =
    "Connected, but the AirPods did not respond. Try again.";

/// Where a connect request stands.
#[derive(Debug, Clone, PartialEq, Eq)]
pub enum ConnectStatus {
    /// The connect call for this attempt is running.
    Connecting(u64),
    /// The connect call returned; waiting for DeviceConnected, which comes once
    /// the AACP session is set up.
    SettingUp(u64),
    Failed(String),
}

/// The mathematical content of a `ConnectStatus`.
#[verifier::ext_equal]
pub enum ConnectStatusView {
    Connecting(u64),
    SettingUp(u64),
    Failed(Seq<char>),
}

impl View for ConnectStatus {
    type V = ConnectStatusView;

    open spec fn view(&self) -> ConnectStatusView {
        match *self {
            ConnectStatus::Connecting(n) => ConnectStatusView::Connecting(n),
            ConnectStatus::SettingUp(n) => ConnectStatusView::SettingUp(n),
            ConnectStatus::Failed(e) => ConnectStatusView::Failed(e@),
        }
    }
}

impl ConnectStatusView {
    /// Whether the request still runs.
    pub open spec fn running(self) -> bool {
        self is Connecting || self is SettingUp
    }

    /// The number of the attempt, for a request that still runs.
    pub open spec fn attempt(self) -> Option<u64> {
        match self {
            ConnectStatusView::Connecting(n) => Some(n),
            ConnectStatusView::SettingUp(n) => Some(n),
            ConnectStatusView::Failed(_) => None,
        }
    }
}

impl ConnectStatus {
    /// Whether the request still runs.
    pub fn in_progress(&self) -> (yes: bool)
        ensures
            yes == self@.running(),
    {
        match self {
            ConnectStatus::Connecting(_) | ConnectStatus::SettingUp(_) => true,
            ConnectStatus::Failed(_) => false,
        }
    }

    fn is_connecting(&self, attempt: u64) -> (yes: bool)
        ensures
            yes == (self@ == ConnectStatusView::Connecting(attempt)),
    {
        match self {
            ConnectStatus::Connecting(n) => *n == attempt,
            _ => false,
        }
    }

    fn is_setting_up(&self, attempt: u64) -> (yes: bool)
        ensures
            yes == (self@ == ConnectStatusView::SettingUp(attempt)),
    {
        match self {
            ConnectStatus::SettingUp(n) => *n == attempt,
            _ => false,
        }
    }
}

/// The connect requests of all devices.
#[derive(Debug)]
pub struct ConnectRequests {
    status: AddressMap<ConnectStatus>,
    /// Numbers each request, so a late result or timeout from an older request
    /// does not touch a newer one.
    last_attempt: u64,
}

/// The mathematical content of `ConnectRequests`.
#[verifier::ext_equal]
pub struct ConnectRequestsView {
    pub status: Map<Seq<char>, ConnectStatusView>,
    pub last_attempt: u64,
}

impl ConnectRequestsView {
    /// No request, and none was ever made.
    pub open spec fn none() -> ConnectRequestsView {
        ConnectRequestsView { status: Map::empty(), last_attempt: 0 }
    }

    /// No running request has a number that was not given out yet.
    pub open spec fn numbered(self) -> bool {
        forall|mac: Seq<char>| #[trigger]
            self.status.contains_key(mac) ==> match self.status[mac].attempt() {
                Some(n) => n <= self.last_attempt,
                None => true,
            }
    }

    /// The requests after a new attempt for `mac`.
    pub open spec fn started(self, mac: Seq<char>) -> ConnectRequestsView {
        let attempt = (self.last_attempt + 1) as u64;
        ConnectRequestsView {
            status: self.status.insert(mac, ConnectStatusView::Connecting(attempt)),
            last_attempt: attempt,
        }
    }

    /// Whether the connect call of this attempt is the one `mac` waits for.
    pub open spec fn connecting(self, mac: Seq<char>, attempt: u64) -> bool {
        self.status.contains_key(mac) && self.status[mac] == ConnectStatusView::Connecting(attempt)
    }

    /// Whether `mac` waits for DeviceConnected after this attempt.
    pub open spec fn setting_up(self, mac: Seq<char>, attempt: u64) -> bool {
        self.status.contains_key(mac) && self.status[mac] == ConnectStatusView::SettingUp(attempt)
    }

    /// The requests after the connect call of an attempt returned, with its
    /// error where it failed.
    pub open spec fn returned(
        self,
        mac: Seq<char>,
        attempt: u64,
        error: Option<Seq<char>>,
    ) -> ConnectRequestsView {
        if self.connecting(mac, attempt) {
            ConnectRequestsView {
                status: self.status.insert(
                    mac,
                    match error {
                        None => ConnectStatusView::SettingUp(attempt),
                        Some(e) => ConnectStatusView::Failed(e),
                    },
                ),
                ..self
            }
        } else {
            self
        }
    }

    /// The requests after the setup time of an attempt ran out.
    pub open spec fn timed_out(self, mac: Seq<char>, attempt: u64) -> ConnectRequestsView {
        if self.setting_up(mac, attempt) {
            ConnectRequestsView {
                status: self.status.insert(
                    mac,
                    ConnectStatusView::Failed(SETUP_TIMEOUT_ERROR@),
                ),
                ..self
            }
        } else {
            self
        }
    }

    /// The requests without the one for `mac`.
    pub open spec fn without(self, mac: Seq<char>) -> ConnectRequestsView {
        ConnectRequestsView { status: self.status.remove(mac), ..self }
    }

    /// The requests after `mac` dropped.
    pub open spec fn dropped(self, mac: Seq<char>) -> ConnectRequestsView {
        if self.status.contains_key(mac) && self.status[mac] is SettingUp {
            self.without(mac)
        } else {
            self
        }
    }

    /// The status of the request for `mac`, if there is one.
    pub open spec fn of(self, mac: Seq<char>) -> Option<ConnectStatusView> {
        if self.status.contains_key(mac) {
            Some(self.status[mac])
        } else {
            None
        }
    }

    /// Whether a request for `mac` still runs.
    pub open spec fn running(self, mac: Seq<char>) -> bool {
        self.status.contains_key(mac) && self.status[mac].running()
    }
}

impl View for ConnectRequests {
    type V = ConnectRequestsView;

    closed spec fn view(&self) -> ConnectRequestsView {
        ConnectRequestsView { status: self.status@, last_attempt: self.last_attempt }
    }
}

/// What the connect call returned: nothing, or its error.
pub open spec fn connect_error(result: Result<(), String>) -> Option<Seq<char>> {
    match result {
        Ok(_) => None,
        Err(e) => Some(e@),
    }
}

impl Default for ConnectRequests {
    fn default() -> (requests: ConnectRequests)
        ensures
            requests.wf(),
            requests@ == ConnectRequestsView::none(),
    {
        ConnectRequests { status: AddressMap::new(), last_attempt: 0 }
    }
}

impl ConnectRequests {
    /// What every request list satisfies.
    pub closed spec fn wf(&self) -> bool {
        &&& self.status.wf()
        &&& self@.numbered()
    }

    /// The numbers of a well-formed list were given out.
    pub proof fn lemma_numbered(&self)
        requires
            self.wf(),
        ensures
            self@.numbered(),
    {
    }

    /// The status of the request for `mac`, if there is one.
    pub fn get(&self, mac: &str) -> (status: Option<&ConnectStatus>)
        requires
            self.wf(),
        ensures
            match status {
                Some(s) => self@.of(mac@) == Some(s@),
                None => self@.of(mac@) is None,
            },
    {
        self.status.get(mac)
    }

    /// Whether a request for `mac` still runs.
    pub fn in_progress(&self, mac: &str) -> (yes: bool)
        requires
            self.wf(),
        ensures
            yes == self@.running(mac@),
    {
        match self.status.get(mac) {
            Some(status) => status.in_progress(),
            None => false,
        }
    }

    /// The number of the newest attempt; 0 before the first.
    pub fn last_attempt(&self) -> (n: u64)
        ensures
            n == self@.last_attempt,
    {
        self.last_attempt
    }

    /// Records a new attempt for `mac` and returns its number.
    pub fn start(&mut self, mac: String) -> (attempt: u64)
        requires
            old(self).wf(),
            old(self)@.last_attempt < u64::MAX,
        ensures
            final(self).wf(),
            final(self)@ == old(self)@.started(mac@),
            attempt == old(self)@.last_attempt + 1,
    {
        self.last_attempt = self.last_attempt + 1;
        self.status.insert(mac, ConnectStatus::Connecting(self.last_attempt));
        self.last_attempt
    }

    /// Records the result of the connect call. Returns true when the attempt is
    /// still the current one and succeeded, so the setup timeout should start.
    /// The entry stays in progress until DeviceConnected arrives, or the panel
    /// would offer the Connect button again in between.
    pub fn finished(&mut self, mac: &str, attempt: u64, result: Result<(), String>) -> (
        setting_up: bool)
        requires
            old(self).wf(),
        ensures
            final(self).wf(),
            final(self)@ == old(self)@.returned(mac@, attempt, connect_error(result)),
            setting_up == (old(self)@.connecting(mac@, attempt) && result is Ok),
    {
        let current = match self.status.get(mac) {
            Some(status) => status.is_connecting(attempt),
            None => false,
        };
        if !current {
            return false;
        }
        match result {
            Ok(_) => {
                self.status.insert(mac.to_string(), ConnectStatus::SettingUp(attempt));
                true
            },
            Err(e) => {
                self.status.insert(mac.to_string(), ConnectStatus::Failed(e));
                false
            },
        }
    }

    /// Fails the attempt if it is still waiting for DeviceConnected.
    pub fn setup_timed_out(&mut self, mac: &str, attempt: u64)
        requires
            old(self).wf(),
        ensures
            final(self).wf(),
            final(self)@ == old(self)@.timed_out(mac@, attempt),
    {
        let current = match self.status.get(mac) {
            Some(status) => status.is_setting_up(attempt),
            None => false,
        };
        if current {
            self.status.insert(
                mac.to_string(),
                ConnectStatus::Failed(SETUP_TIMEOUT_ERROR.to_string()),
            );
        }
    }

    /// The device connected: its request is done.
    pub fn connected(&mut self, mac: &str)
        requires
            old(self).wf(),
        ensures
            final(self).wf(),
            final(self)@ == old(self)@.without(mac@),
    {
        let _ = self.status.remove(mac);
    }

    /// A device that drops while its session is being set up ends the request;
    /// a failure stays on screen.
    pub fn disconnected(&mut self, mac: &str)
        requires
            old(self).wf(),
        ensures
            final(self).wf(),
            final(self)@ == old(self)@.dropped(mac@),
    {
        let setting_up = match self.status.get(mac) {
            Some(ConnectStatus::SettingUp(_)) => true,
            _ => false,
        };
        if setting_up {
            let _ = self.status.remove(mac);
        }
    }
}

/// The sidebar's one-line status for a device that is not connected.
pub open spec fn sidebar_line(status: Option<ConnectStatusView>) -> Seq<char> {
    match status {
        Some(ConnectStatusView::Connecting(_)) => "Connecting…"@,
        Some(ConnectStatusView::SettingUp(_)) => "Connecting…"@,
        Some(ConnectStatusView::Failed(_)) => "Couldn't connect"@,
        None => "Not connected"@,
    }
}

/// The view of a status that may be missing.
pub open spec fn status_view(status: Option<&ConnectStatus>) -> Option<ConnectStatusView> {
    match status {
        Some(s) => Some(s@),
        None => None,
    }
}

/// The sidebar's one-line status for a device that is not connected.
pub fn sidebar_status(status: Option<&ConnectStatus>) -> (line: &'static str)
    ensures
        line@ == sidebar_line(status_view(status)),
{
    match status {
        Some(ConnectStatus::Connecting(_)) => "Connecting…",
        Some(ConnectStatus::SettingUp(_)) => "Connecting…",
        Some(ConnectStatus::Failed(_)) => "Couldn't connect",
        None => "Not connected",
    }
}

/// Once a device has a new attempt, no result and no timeout of an attempt
/// made before it changes anything.
pub proof fn older_attempts_change_nothing(
    requests: ConnectRequestsView,
    mac: Seq<char>,
    older: u64,
    error: Option<Seq<char>>,
)
    requires
        requests.last_attempt < u64::MAX,
        older <= requests.last_attempt,
    ensures
        requests.started(mac).returned(mac, older, error) == requests.started(mac),
        requests.started(mac).timed_out(mac, older) == requests.started(mac),
        requests.started(mac).returned(mac, (requests.last_attempt + 1) as u64, None).timed_out(
            mac,
            older,
        ) == requests.started(mac).returned(mac, (requests.last_attempt + 1) as u64, None),
{
}

/// No two attempts share a number: every later attempt, of whatever device,
/// has a larger one.
pub proof fn attempt_numbers_grow(requests: ConnectRequestsView, a: Seq<char>, b: Seq<char>)
    requires
        requests.numbered(),
        requests.last_attempt < u64::MAX,
    ensures
        requests.started(a).last_attempt > requests.last_attempt,
        requests.started(a).of(a) == Some(
            ConnectStatusView::Connecting(requests.started(a).last_attempt),
        ),
        match requests.of(b) {
            Some(s) => s.attempt() != Some(requests.started(a).last_attempt),
            None => true,
        },
{
}

/// A request stays in progress from its start over a successful connect call
/// until the device connects, which ends it.
pub proof fn a_good_request_runs_until_connected(requests: ConnectRequestsView, mac: Seq<char>)
    requires
        requests.last_attempt < u64::MAX,
    ensures
        ({
            let started = requests.started(mac);
            let setup = started.returned(mac, started.last_attempt, None);
            &&& started.running(mac)
            &&& setup.running(mac)
            &&& setup.without(mac).of(mac) is None
            &&& setup.without(mac).timed_out(mac, started.last_attempt) == setup.without(mac)
        }),
{
}

/// What the sidebar says while a request runs, after it failed and without one.
pub proof fn the_sidebar_says_how_a_request_stands(attempt: u64, error: Seq<char>)
    ensures
        sidebar_line(Some(ConnectStatusView::Connecting(attempt))) == "Connecting…"@,
        sidebar_line(Some(ConnectStatusView::SettingUp(attempt))) == "Connecting…"@,
        sidebar_line(Some(ConnectStatusView::Failed(error))) == "Couldn't connect"@,
        sidebar_line(None) == "Not connected"@,
        ConnectStatusView::Connecting(attempt).running(),
        ConnectStatusView::SettingUp(attempt).running(),
        !ConnectStatusView::Failed(error).running(),
        ConnectStatusView::Connecting(attempt).attempt() == Some(attempt),
        ConnectStatusView::SettingUp(attempt).attempt() == Some(attempt),
{
}

/// The attempt that runs is set up when its connect call worked and failed, with
/// the error of the call, when it did not. The setup time fails it with an error
/// of its own; the device that drops ends the setup without one.
pub proof fn an_attempt_is_set_up_or_fails(
    requests: ConnectRequestsView,
    mac: Seq<char>,
    attempt: u64,
    error: Seq<char>,
)
    requires
        requests.status.contains_key(mac),
    ensures
        requests.status[mac] == ConnectStatusView::Connecting(attempt) ==> {
            &&& requests.returned(mac, attempt, None).of(mac) == Some(
                ConnectStatusView::SettingUp(attempt),
            )
            &&& requests.returned(mac, attempt, Some(error)).of(mac) == Some(
                ConnectStatusView::Failed(error),
            )
            &&& requests.timed_out(mac, attempt) == requests
            &&& requests.dropped(mac) == requests
        },
        requests.status[mac] == ConnectStatusView::SettingUp(attempt) ==> {
            &&& requests.timed_out(mac, attempt).of(mac) == Some(
                ConnectStatusView::Failed(
                    "Connected, but the AirPods did not respond. Try again."@,
                ),
            )
            &&& requests.returned(mac, attempt, Some(error)) == requests
            &&& requests.dropped(mac).of(mac) is None
        },
        requests.status[mac] == ConnectStatusView::Failed(error) ==> {
            &&& requests.returned(mac, attempt, None) == requests
            &&& requests.timed_out(mac, attempt) == requests
            &&& requests.dropped(mac) == requests
        },
{
}

/// Nothing that happens to the request of one device changes that of another,
/// and only a new attempt takes a number.
pub proof fn requests_are_apart(
    requests: ConnectRequestsView,
    mac: Seq<char>,
    other: Seq<char>,
    attempt: u64,
    error: Option<Seq<char>>,
)
    requires
        mac != other,
    ensures
        requests.started(mac).of(other) == requests.of(other),
        requests.returned(mac, attempt, error).of(other) == requests.of(other),
        requests.timed_out(mac, attempt).of(other) == requests.of(other),
        requests.without(mac).of(other) == requests.of(other),
        requests.dropped(mac).of(other) == requests.of(other),
        requests.without(mac).of(mac) is None,
        requests.returned(mac, attempt, error).last_attempt == requests.last_attempt,
        requests.timed_out(mac, attempt).last_attempt == requests.last_attempt,
        requests.without(mac).last_attempt == requests.last_attempt,
        requests.dropped(mac).last_attempt == requests.last_attempt,
{
}

} // verus!
