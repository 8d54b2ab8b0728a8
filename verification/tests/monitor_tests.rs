use pet_print::monitor::{poll_step, run_watcher, WatcherState, MAX_POLL_ATTEMPTS};

#[test]
fn completion_on_third_poll_fires_once_and_stops() {
    // The job disappears on poll attempt 3: exactly one notification fires
    // and no further polling occurs.
    let mut presence = vec![true; MAX_POLL_ATTEMPTS as usize];
    presence[2] = false;
    let report = run_watcher(&presence);
    assert_eq!(report.polls, 3);
    assert_eq!(report.notifications, 1);
    assert_eq!(report.state, WatcherState::Completed);
}

#[test]
fn job_never_disappearing_is_silent() {
    // The handle never leaves the snapshot: zero notifications, full budget.
    let presence = vec![true; MAX_POLL_ATTEMPTS as usize];
    let report = run_watcher(&presence);
    assert_eq!(report.polls, MAX_POLL_ATTEMPTS);
    assert_eq!(report.notifications, 0);
    assert_eq!(report.state, WatcherState::GaveUp);
}

#[test]
fn completion_on_first_poll() {
    let mut presence = vec![true; MAX_POLL_ATTEMPTS as usize];
    presence[0] = false;
    let report = run_watcher(&presence);
    assert_eq!(report.polls, 1);
    assert_eq!(report.notifications, 1);
    assert_eq!(report.state, WatcherState::Completed);
}

#[test]
fn completion_on_last_poll() {
    let mut presence = vec![true; MAX_POLL_ATTEMPTS as usize];
    presence[(MAX_POLL_ATTEMPTS - 1) as usize] = false;
    let report = run_watcher(&presence);
    assert_eq!(report.polls, MAX_POLL_ATTEMPTS);
    assert_eq!(report.notifications, 1);
    assert_eq!(report.state, WatcherState::Completed);
}

#[test]
fn poll_step_completes_on_absence() {
    let (next, notify) = poll_step(WatcherState::Polling { attempts: 4 }, false);
    assert_eq!(next, WatcherState::Completed);
    assert!(notify);
}

#[test]
fn poll_step_gives_up_after_budget() {
    let (next, notify) = poll_step(WatcherState::Polling { attempts: MAX_POLL_ATTEMPTS - 1 }, true);
    assert_eq!(next, WatcherState::GaveUp);
    assert!(!notify);
}

#[test]
fn poll_step_terminal_states_absorb() {
    assert_eq!(poll_step(WatcherState::Completed, false), (WatcherState::Completed, false));
    assert_eq!(poll_step(WatcherState::GaveUp, false), (WatcherState::GaveUp, false));
}
