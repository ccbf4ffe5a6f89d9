use nfc_poller::Action;
use nfc_poller::DisplayState;
use nfc_poller::LookupError;
use nfc_poller::PollResult;
use nfc_poller::Poller;
use nfc_poller::PollerState;
use nfc_poller::ScanError;
use nfc_poller::UserRecord;

fn scan_err() -> ScanError {
    ScanError { reason: String::from("reader unplugged") }
}

fn lookup_err() -> LookupError {
    LookupError { reason: String::from("unknown tag") }
}

fn record(name: &str) -> UserRecord {
    UserRecord { username: String::from(name) }
}

#[test]
fn fresh_poller_is_idle_with_no_user() {
    let p = Poller::new();
    assert_eq!(p.state, PollerState::Idle);
    assert_eq!(p.display, DisplayState::NoUser);
    assert_eq!(p.display_string(), String::from("No user"));
}

#[test]
fn idle_tick_issues_tag_scan() {
    let mut p = Poller::new();
    let a = p.tick(PollResult::Pending);
    assert_eq!(a, Action::IssueTagScan);
    assert_eq!(p.state, PollerState::AwaitingTag);
}

#[test]
fn pending_scan_changes_nothing() {
    let mut p = Poller::new();
    p.tick(PollResult::Pending);
    let a = p.tick(PollResult::Pending);
    assert_eq!(a, Action::Wait);
    assert_eq!(p.state, PollerState::AwaitingTag);
    assert_eq!(p.display, DisplayState::NoUser);
}

#[test]
fn full_identification_scenario() {
    let mut p = Poller::new();

    // Tick with no outstanding request: a tag scan is issued.
    let a = p.tick(PollResult::Pending);
    assert_eq!(a, Action::IssueTagScan);

    // The scan finds a tag: a user lookup for that tag, no scan reissued yet.
    let a = p.tick(PollResult::TagScan(Ok(Some(String::from("abc123")))));
    assert_eq!(a, Action::IssueUserLookup(String::from("abc123")));
    assert_eq!(p.state, PollerState::AwaitingUser(String::from("abc123")));

    // The lookup resolves to a record: the username is displayed.
    let a = p.tick(PollResult::UserLookup(Ok(record("alice"))));
    assert_eq!(a, Action::Wait);
    assert_eq!(p.display, DisplayState::User(String::from("alice")));
    assert_eq!(p.display_string(), String::from("User: alice"));

    // The following idle tick issues a new tag scan.
    let a = p.tick(PollResult::Pending);
    assert_eq!(a, Action::IssueTagScan);
}

#[test]
fn scan_without_tag_resets_display_and_rescans() {
    let mut p = Poller::new();
    p.tick(PollResult::Pending);

    let a = p.tick(PollResult::TagScan(Ok(None)));
    assert_eq!(a, Action::Wait);
    assert_eq!(p.display, DisplayState::NoUser);
    assert_eq!(p.display_string(), String::from("No user"));

    // A new tag scan is issued on the next tick.
    let a = p.tick(PollResult::Pending);
    assert_eq!(a, Action::IssueTagScan);
}

#[test]
fn scan_error_resets_display_and_rescans() {
    let mut p = Poller::new();
    p.tick(PollResult::Pending);
    p.tick(PollResult::TagScan(Ok(Some(String::from("t-1")))));
    p.tick(PollResult::UserLookup(Ok(record("bob"))));
    p.tick(PollResult::Pending);
    assert_eq!(p.display, DisplayState::User(String::from("bob")));

    // A failed scan clears the previously displayed user.
    let a = p.tick(PollResult::TagScan(Err(scan_err())));
    assert_eq!(a, Action::Wait);
    assert_eq!(p.display, DisplayState::NoUser);
    let a = p.tick(PollResult::Pending);
    assert_eq!(a, Action::IssueTagScan);
}

#[test]
fn found_tag_issues_exactly_one_lookup_for_that_tag() {
    let mut p = Poller::new();
    p.tick(PollResult::Pending);
    let a = p.tick(PollResult::TagScan(Ok(Some(String::from("04:a2:ff")))));
    assert_eq!(a, Action::IssueUserLookup(String::from("04:a2:ff")));

    // Until the lookup resolves, no further request of any kind is issued.
    let a = p.tick(PollResult::Pending);
    assert_eq!(a, Action::Wait);
    let a = p.tick(PollResult::Pending);
    assert_eq!(a, Action::Wait);
}

#[test]
fn successful_lookup_displays_username() {
    let mut p = Poller::new();
    p.tick(PollResult::Pending);
    p.tick(PollResult::TagScan(Ok(Some(String::from("tag")))));
    p.tick(PollResult::UserLookup(Ok(record("carol"))));
    assert_eq!(p.display, DisplayState::User(String::from("carol")));
    assert_eq!(p.display_string(), String::from("User: carol"));
}

#[test]
fn failed_lookup_keeps_previous_display() {
    let mut p = Poller::new();

    // First identification succeeds.
    p.tick(PollResult::Pending);
    p.tick(PollResult::TagScan(Ok(Some(String::from("tag-1")))));
    p.tick(PollResult::UserLookup(Ok(record("dave"))));

    // Second lookup fails: the displayed user stays.
    p.tick(PollResult::Pending);
    p.tick(PollResult::TagScan(Ok(Some(String::from("tag-2")))));
    let a = p.tick(PollResult::UserLookup(Err(lookup_err())));
    assert_eq!(a, Action::Wait);
    assert_eq!(p.display, DisplayState::User(String::from("dave")));
    assert_eq!(p.state, PollerState::Idle);
}

#[test]
fn failed_lookup_with_no_user_keeps_no_user() {
    let mut p = Poller::new();
    p.tick(PollResult::Pending);
    p.tick(PollResult::TagScan(Ok(Some(String::from("tag")))));
    p.tick(PollResult::UserLookup(Err(lookup_err())));
    assert_eq!(p.display, DisplayState::NoUser);
}

#[test]
fn at_most_one_request_outstanding_over_a_long_run() {
    let mut p = Poller::new();
    let mut live: i32 = 0;

    // A host-side ledger: every resolution consumes the one outstanding
    // request, every issue action creates one. The driver can only be
    // polled for the kind of request the poller is awaiting.
    let script: Vec<PollResult> = vec![
        PollResult::Pending,
        PollResult::Pending,
        PollResult::TagScan(Ok(None)),
        PollResult::Pending,
        PollResult::TagScan(Err(scan_err())),
        PollResult::Pending,
        PollResult::TagScan(Ok(Some(String::from("a")))),
        PollResult::Pending,
        PollResult::UserLookup(Err(lookup_err())),
        PollResult::Pending,
        PollResult::TagScan(Ok(Some(String::from("b")))),
        PollResult::UserLookup(Ok(record("erin"))),
        PollResult::Pending,
    ];
    for ev in script {
        match &ev {
            PollResult::Pending => {}
            PollResult::TagScan(_) => {
                assert_eq!(p.state, PollerState::AwaitingTag);
                live -= 1;
            }
            PollResult::UserLookup(_) => {
                assert!(matches!(p.state, PollerState::AwaitingUser(_)));
                live -= 1;
            }
        }
        let a = p.tick(ev);
        match a {
            Action::Wait => {}
            Action::IssueTagScan | Action::IssueUserLookup(_) => {
                live += 1;
            }
        }
        assert!(0 <= live && live <= 1);
    }
    assert_eq!(p.display, DisplayState::User(String::from("erin")));
}

#[test]
fn accepts_only_results_for_the_outstanding_request() {
    let mut p = Poller::new();
    assert!(p.accepts(&PollResult::Pending));
    assert!(!p.accepts(&PollResult::TagScan(Ok(None))));
    assert!(!p.accepts(&PollResult::UserLookup(Ok(record("alice")))));

    p.tick(PollResult::Pending);
    assert!(p.accepts(&PollResult::Pending));
    assert!(p.accepts(&PollResult::TagScan(Ok(Some(String::from("t"))))));
    assert!(!p.accepts(&PollResult::UserLookup(Err(lookup_err()))));

    p.tick(PollResult::TagScan(Ok(Some(String::from("t")))));
    assert!(!p.accepts(&PollResult::TagScan(Ok(None))));
    assert!(p.accepts(&PollResult::UserLookup(Ok(record("alice")))));
}

#[test]
fn display_string_formats_both_states() {
    let idle = Poller::new();
    assert_eq!(idle.display_string(), String::from("No user"));

    let named = Poller {
        state: PollerState::Idle,
        display: DisplayState::User(String::from("frank")),
    };
    assert_eq!(named.display_string(), String::from("User: frank"));
}
