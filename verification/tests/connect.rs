use librepods::ui::connect::{
    sidebar_status, ConnectRequests, ConnectStatus, SETUP_TIMEOUT_ERROR,
};

const MAC: &str = "AA:BB:CC:DD:EE:FF";

#[test]
fn start_numbers_each_attempt() {
    let mut requests = ConnectRequests::default();

    let first = requests.start(MAC.to_string());
    let second = requests.start(MAC.to_string());

    assert_eq!(second, first + 1);
    assert_eq!(requests.get(MAC), Some(&ConnectStatus::Connecting(second)));
    assert!(requests.in_progress(MAC));
}

#[test]
fn successful_connect_waits_for_setup() {
    let mut requests = ConnectRequests::default();
    let attempt = requests.start(MAC.to_string());

    let start_timeout = requests.finished(MAC, attempt, Ok(()));

    assert!(start_timeout);
    assert_eq!(requests.get(MAC), Some(&ConnectStatus::SettingUp(attempt)));
    assert!(requests.in_progress(MAC));
}

#[test]
fn failed_connect_keeps_the_error() {
    let mut requests = ConnectRequests::default();
    let attempt = requests.start(MAC.to_string());

    let start_timeout = requests.finished(MAC, attempt, Err("refused".to_string()));

    assert!(!start_timeout);
    assert_eq!(
        requests.get(MAC),
        Some(&ConnectStatus::Failed("refused".to_string()))
    );
    assert!(!requests.in_progress(MAC));
}

#[test]
fn result_of_an_older_attempt_is_ignored() {
    let mut requests = ConnectRequests::default();
    let old = requests.start(MAC.to_string());
    let new = requests.start(MAC.to_string());

    let start_timeout = requests.finished(MAC, old, Err("late".to_string()));

    assert!(!start_timeout);
    assert_eq!(requests.get(MAC), Some(&ConnectStatus::Connecting(new)));
}

#[test]
fn setup_timeout_fails_only_the_same_attempt() {
    let mut requests = ConnectRequests::default();
    let old = requests.start(MAC.to_string());
    requests.finished(MAC, old, Ok(()));
    let new = requests.start(MAC.to_string());
    requests.finished(MAC, new, Ok(()));

    requests.setup_timed_out(MAC, old);
    assert_eq!(requests.get(MAC), Some(&ConnectStatus::SettingUp(new)));

    requests.setup_timed_out(MAC, new);
    assert_eq!(
        requests.get(MAC),
        Some(&ConnectStatus::Failed(SETUP_TIMEOUT_ERROR.to_string()))
    );
}

#[test]
fn setup_timeout_after_connect_does_nothing() {
    let mut requests = ConnectRequests::default();
    let attempt = requests.start(MAC.to_string());
    requests.finished(MAC, attempt, Ok(()));
    requests.connected(MAC);

    requests.setup_timed_out(MAC, attempt);

    assert_eq!(requests.get(MAC), None);
}

#[test]
fn disconnect_clears_only_a_request_in_setup() {
    let mut requests = ConnectRequests::default();
    let attempt = requests.start(MAC.to_string());

    requests.disconnected(MAC);
    assert_eq!(requests.get(MAC), Some(&ConnectStatus::Connecting(attempt)));

    requests.finished(MAC, attempt, Ok(()));
    requests.disconnected(MAC);
    assert_eq!(requests.get(MAC), None);

    let attempt = requests.start(MAC.to_string());
    requests.finished(MAC, attempt, Err("refused".to_string()));
    requests.disconnected(MAC);
    assert!(matches!(requests.get(MAC), Some(ConnectStatus::Failed(_))));
}

#[test]
fn sidebar_status_names_each_state() {
    assert_eq!(sidebar_status(None), "Not connected");
    assert_eq!(
        sidebar_status(Some(&ConnectStatus::Connecting(1))),
        "Connecting…"
    );
    assert_eq!(
        sidebar_status(Some(&ConnectStatus::SettingUp(1))),
        "Connecting…"
    );
    assert_eq!(
        sidebar_status(Some(&ConnectStatus::Failed("x".to_string()))),
        "Couldn't connect"
    );
}
