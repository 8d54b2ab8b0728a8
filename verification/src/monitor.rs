//! Print job monitor: after a job is handed to the print collaborator, a
//! watcher polls the collaborator's active-jobs snapshot a bounded number of
//! times. The moment the submitted handle is absent it emits exactly one
//! completion notification and stops; if the handle never disappears it gives
//! up silently.
use vstd::prelude::*;

verus! {

/// Number of polling attempts before the watcher gives up.
pub const MAX_POLL_ATTEMPTS: u32 = 10;

/// Milliseconds the watcher waits before each polling attempt.
pub const POLL_INTERVAL_MS: u64 = 500;

/// The attempt budget as a mathematical integer.
pub open spec fn max_attempts() -> int {
    MAX_POLL_ATTEMPTS as int
}

/// The watcher's state.
#[derive(Clone, Copy, Debug, PartialEq, Eq, Structural)]
pub enum WatcherState {
    /// This many polls were made so far; the job was present in every one.
    Polling { attempts: u32 },
    /// The job left the active set; one completion notification was emitted.
    Completed,
    /// The job was still present after the last attempt; the watcher ended
    /// without any notification.
    GaveUp,
}

/// One polling attempt. `job_active` says whether the submitted handle was in
/// the collaborator's active-jobs snapshot. Returns the next state and
/// whether a completion notification must fire now. Terminal states are
/// absorbing and never notify.
pub fn poll_step(s: WatcherState, job_active: bool) -> (r: (WatcherState, bool))
    ensures
        match s {
            WatcherState::Polling { attempts } => {
                if !job_active {
                    r == (WatcherState::Completed, true)
                } else if attempts >= MAX_POLL_ATTEMPTS - 1 {
                    r == (WatcherState::GaveUp, false)
                } else {
                    r == (WatcherState::Polling { attempts: (attempts + 1) as u32 }, false)
                }
            },
            _ => r == (s, false),
        },
{
    match s {
        WatcherState::Polling { attempts } => {
            if !job_active {
                (WatcherState::Completed, true)
            } else if attempts >= MAX_POLL_ATTEMPTS - 1 {
                (WatcherState::GaveUp, false)
            } else {
                (WatcherState::Polling { attempts: attempts + 1 }, false)
            }
        },
        _ => (s, false),
    }
}

/// Index of the first poll (at or after `i`) that would find the job absent,
/// or the attempt budget if the job stays present through every attempt.
pub open spec fn first_absence_from(p: Seq<bool>, i: int) -> int
    decreases max_attempts() - i,
    when 0 <= i <= max_attempts()
{
    if i >= max_attempts() {
        max_attempts()
    } else if !p[i] {
        i
    } else {
        first_absence_from(p, i + 1)
    }
}

/// Whether the watcher completes (the job disappears within the budget).
pub open spec fn watch_completes(p: Seq<bool>) -> bool {
    first_absence_from(p, 0) < max_attempts()
}

/// How many polls the watcher makes against these snapshots.
pub open spec fn watch_polls(p: Seq<bool>) -> int {
    if watch_completes(p) {
        first_absence_from(p, 0) + 1
    } else {
        max_attempts()
    }
}

/// How many completion notifications fire against these snapshots.
pub open spec fn watch_notifications(p: Seq<bool>) -> int {
    if watch_completes(p) {
        1
    } else {
        0
    }
}

/// A poll prefix in which the job was always present does not move the first
/// absence.
proof fn lemma_faf_skip(p: Seq<bool>, i: int)
    requires
        0 <= i <= max_attempts(),
        forall|j: int| 0 <= j < i ==> p[j] == true,
    ensures
        first_absence_from(p, 0) == first_absence_from(p, i),
    decreases i,
{
    if i > 0 {
        lemma_faf_skip(p, i - 1);
    }
}

/// If the job first disappears on the poll with index `k`, exactly one
/// completion notification fires and no further polling occurs.
pub proof fn lemma_completion_stops_polling(p: Seq<bool>, k: int)
    requires
        0 <= k < max_attempts(),
        !p[k],
        forall|j: int| 0 <= j < k ==> p[j] == true,
    ensures
        watch_notifications(p) == 1,
        watch_polls(p) == k + 1,
{
    lemma_faf_skip(p, k);
}

/// If the job stays active through every attempt, no notification fires and
/// the watcher simply ends after the full budget.
pub proof fn lemma_exhaustion_is_silent(p: Seq<bool>)
    requires
        forall|j: int| 0 <= j < max_attempts() ==> p[j] == true,
    ensures
        watch_notifications(p) == 0,
        watch_polls(p) == max_attempts(),
{
    lemma_faf_skip(p, max_attempts());
}

/// Outcome of a full watcher run.
#[derive(Clone, Copy, Debug)]
pub struct WatchReport {
    pub polls: u32,
    pub notifications: u32,
    pub state: WatcherState,
}

/// Replay the watcher against pre-recorded active-jobs answers: `presence[k]`
/// is whether the job was present on poll `k`.
pub fn run_watcher(presence: &Vec<bool>) -> (r: WatchReport)
    requires
        presence@.len() >= max_attempts(),
    ensures
        r.polls as int == watch_polls(presence@),
        r.notifications as int == watch_notifications(presence@),
        (r.state is Completed) <==> watch_completes(presence@),
        r.state is Completed || r.state is GaveUp,
{
    let mut state: WatcherState = WatcherState::Polling { attempts: 0 };
    let mut polls: u32 = 0;
    let mut notifications: u32 = 0;
    while polls < MAX_POLL_ATTEMPTS
        invariant_except_break
            presence@.len() >= max_attempts(),
            polls < MAX_POLL_ATTEMPTS,
            state == (WatcherState::Polling { attempts: polls }),
            notifications == 0,
            forall|j: int| 0 <= j < polls ==> presence@[j] == true,
        ensures
            polls as int == watch_polls(presence@),
            notifications as int == watch_notifications(presence@),
            (state is Completed) <==> watch_completes(presence@),
            state is Completed || state is GaveUp,
        decreases MAX_POLL_ATTEMPTS - polls,
    {
        let ghost k = polls as int;
        let active: bool = presence[polls as usize];
        let (s2, note) = poll_step(state, active);
        state = s2;
        polls = polls + 1;
        if note {
            notifications = notifications + 1;
        }
        if !active {
            proof {
                lemma_faf_skip(presence@, k);
            }
            break ;
        }
        if polls == MAX_POLL_ATTEMPTS {
            proof {
                lemma_faf_skip(presence@, max_attempts());
            }
            break ;
        }
    }
    WatchReport { polls, notifications, state }
}

} // verus!
