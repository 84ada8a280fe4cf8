//! The resilient file copier: a copy is tried again while another process
//! holds the file for a moment, and given up on any other failure.
//!
//! The copier neither copies nor sleeps. The caller makes each attempt and
//! reports how it ended; the copier says whether to wait and try again.

use vstd::prelude::*;
use vstd::string::*;

use crate::config::COPY_RETRY_DELAY_MS;
use crate::error::{AppError, ErrorKind, ErrorView};
use crate::resolver::{is_sharing_violation, sharing_violation};

verus! {

/// How one attempt to copy the file ended.
#[derive(Debug, PartialEq, Eq)]
pub enum CopyEvent {
    /// The file was copied.
    Copied,
    /// The copy failed.
    Failed {
        /// The code that the operating system gave, if it gave one.
        raw_os_error: Option<i32>,
        /// The failure as it is shown.
        message: String,
    },
}

/// What the caller is asked to do next.
#[derive(Debug, PartialEq, Eq)]
pub enum CopyAction {
    /// Attempt the copy.
    Attempt,
    /// Wait for `millis` milliseconds, then attempt the copy again.
    WaitThenAttempt { millis: u64 },
    /// The copy is over, with this result.
    Finish(Result<(), AppError>),
}

/// What a [`CopyAction`] stands for in contracts.
pub enum CopyActionView {
    Attempt,
    WaitThenAttempt { millis: u64 },
    Finish(Result<(), ErrorView>),
}

impl View for CopyAction {
    type V = CopyActionView;

    open spec fn view(&self) -> CopyActionView {
        match self {
            CopyAction::Attempt => CopyActionView::Attempt,
            CopyAction::WaitThenAttempt { millis } => CopyActionView::WaitThenAttempt {
                millis: *millis,
            },
            CopyAction::Finish(Ok(())) => CopyActionView::Finish(Ok(())),
            CopyAction::Finish(Err(error)) => CopyActionView::Finish(Err(error@)),
        }
    }
}

/// The state of one copy: how many attempts are allowed, how many were
/// asked for, and whether the copy is over.
#[derive(Clone, Copy, PartialEq, Eq, Debug, Structural)]
pub struct CopyRetry {
    pub max_attempts: u32,
    pub attempts: u32,
    pub finished: bool,
}

/// The failure of a copy for which not one attempt is allowed.
pub open spec fn no_attempt_error() -> ErrorView {
    ErrorView { kind: ErrorKind::Logic, message: "Copy failed with unknown error"@ }
}

/// The state and the first action of a copy in at most `max_attempts` attempts.
pub open spec fn copy_start(max_attempts: u32) -> (CopyRetry, CopyActionView) {
    if max_attempts == 0 {
        (
            CopyRetry { max_attempts, attempts: 0, finished: true },
            CopyActionView::Finish(Err(no_attempt_error())),
        )
    } else {
        (CopyRetry { max_attempts, attempts: 1, finished: false }, CopyActionView::Attempt)
    }
}

/// The transition of the copier: after a success it is over; after a
/// sharing or lock violation it waits and tries again while attempts are
/// left; after any other failure, or the last attempt, it is over with that
/// failure. A copy that is over takes no further report.
pub open spec fn copy_next(s: CopyRetry, event: CopyEvent) -> Option<(CopyRetry, CopyActionView)> {
    if s.finished {
        None
    } else {
        match event {
            CopyEvent::Copied => Some(
                (CopyRetry { finished: true, ..s }, CopyActionView::Finish(Ok(()))),
            ),
            CopyEvent::Failed { raw_os_error, message } => Some(
                if is_sharing_violation(raw_os_error) && s.attempts < s.max_attempts {
                    (
                        CopyRetry { attempts: (s.attempts + 1) as u32, ..s },
                        CopyActionView::WaitThenAttempt { millis: COPY_RETRY_DELAY_MS },
                    )
                } else {
                    (
                        CopyRetry { finished: true, ..s },
                        CopyActionView::Finish(
                            Err(ErrorView { kind: ErrorKind::Io, message: message@ }),
                        ),
                    )
                },
            ),
        }
    }
}

impl CopyRetry {
    /// Takes the caller's report of an attempt and names the next action.
    /// A copy that is over answers with `None`.
    pub fn step(&mut self, event: CopyEvent) -> (action: Option<CopyAction>)
        ensures
            match copy_next(*old(self), event) {
                Some((state, act)) => {
                    &&& *final(self) == state
                    &&& action matches Some(a)
                    &&& a@ == act
                },
                None => *final(self) == *old(self) && action is None,
            },
    {
        if self.finished {
            return None;
        }
        match event {
            CopyEvent::Copied => {
                self.finished = true;
                Some(CopyAction::Finish(Ok(())))
            },
            CopyEvent::Failed { raw_os_error, message } => {
                if sharing_violation(raw_os_error) && self.attempts < self.max_attempts {
                    self.attempts = self.attempts + 1;
                    Some(CopyAction::WaitThenAttempt { millis: COPY_RETRY_DELAY_MS })
                } else {
                    self.finished = true;
                    Some(CopyAction::Finish(Err(AppError::Io(message))))
                }
            },
        }
    }
}

/// Begins a copy in at most `max_retries` attempts.
pub fn copy_with_retry(max_retries: u32) -> (begun: (CopyRetry, CopyAction))
    ensures
        (begun.0, begun.1@) == copy_start(max_retries),
{
    if max_retries == 0 {
        (
            CopyRetry { max_attempts: max_retries, attempts: 0, finished: true },
            CopyAction::Finish(Err(AppError::logic("Copy failed with unknown error"))),
        )
    } else {
        (CopyRetry { max_attempts: max_retries, attempts: 1, finished: false }, CopyAction::Attempt)
    }
}

/// The state of a copy that stood at `s` and then took `events`, in order.
pub open spec fn copy_state_after(s: CopyRetry, events: Seq<CopyEvent>) -> CopyRetry
    decreases events.len(),
{
    if events.len() == 0 {
        s
    } else {
        let before = copy_state_after(s, events.drop_last());
        match copy_next(before, events.last()) {
            Some((after, _)) => after,
            None => before,
        }
    }
}

/// The actions named in answer to `events` by a copy that stood at `s`.
pub open spec fn copy_actions_after(s: CopyRetry, events: Seq<CopyEvent>) -> Seq<CopyActionView>
    decreases events.len(),
{
    if events.len() == 0 {
        Seq::empty()
    } else {
        let before = copy_state_after(s, events.drop_last());
        let earlier = copy_actions_after(s, events.drop_last());
        match copy_next(before, events.last()) {
            Some((_, action)) => earlier.push(action),
            None => earlier,
        }
    }
}

/// Every action of a copy in at most `max_attempts` attempts that is handed
/// `events`.
pub open spec fn copy_run(max_attempts: u32, events: Seq<CopyEvent>) -> Seq<CopyActionView> {
    seq![copy_start(max_attempts).1] + copy_actions_after(copy_start(max_attempts).0, events)
}

/// How many of `actions` ask for an attempt.
pub open spec fn attempts_in(actions: Seq<CopyActionView>) -> nat
    decreases actions.len(),
{
    if actions.len() == 0 {
        0
    } else {
        attempts_in(actions.drop_last()) + if actions.last() is Finish {
            0nat
        } else {
            1nat
        }
    }
}

/// How many of `actions` ask for a wait.
pub open spec fn waits_in(actions: Seq<CopyActionView>) -> nat
    decreases actions.len(),
{
    if actions.len() == 0 {
        0
    } else {
        waits_in(actions.drop_last()) + if actions.last() is WaitThenAttempt {
            1nat
        } else {
            0nat
        }
    }
}

/// A wait is asked for only in answer to a sharing or lock violation, and
/// only while attempts are left. Every other failure ends the copy at once
/// with that failure, and so does a violation at the last attempt.
pub proof fn law_only_violations_are_retried(s: CopyRetry, event: CopyEvent)
    requires
        !s.finished,
    ensures
        match copy_next(s, event) {
            Some((after, action)) => match event {
                CopyEvent::Copied => after.finished && action == CopyActionView::Finish(Ok(())),
                CopyEvent::Failed { raw_os_error, message } => if is_sharing_violation(
                    raw_os_error,
                ) && s.attempts < s.max_attempts {
                    !after.finished && action == (CopyActionView::WaitThenAttempt {
                        millis: COPY_RETRY_DELAY_MS,
                    })
                } else {
                    after.finished && action == CopyActionView::Finish(
                        Err(ErrorView { kind: ErrorKind::Io, message: message@ }),
                    )
                },
            },
            None => false,
        },
{
}

/// Whatever the attempts report, no more than `max_attempts` attempts are
/// asked for, and every attempt but the first comes after a wait.
pub proof fn law_attempts_are_bounded(max_attempts: u32, events: Seq<CopyEvent>)
    ensures
        attempts_in(copy_run(max_attempts, events)) <= max_attempts,
        copy_state_after(copy_start(max_attempts).0, events).max_attempts == max_attempts,
        attempts_in(copy_run(max_attempts, events)) == copy_state_after(
            copy_start(max_attempts).0,
            events,
        ).attempts,
        max_attempts > 0 ==> waits_in(copy_run(max_attempts, events)) + 1 == attempts_in(
            copy_run(max_attempts, events),
        ),
        max_attempts == 0 ==> waits_in(copy_run(max_attempts, events)) == 0,
    decreases events.len(),
{
    let s0 = copy_start(max_attempts).0;
    let run = copy_run(max_attempts, events);
    if events.len() == 0 {
        assert(attempts_in(run.drop_last()) == 0);
        assert(waits_in(run.drop_last()) == 0);
    } else {
        law_attempts_are_bounded(max_attempts, events.drop_last());
        let earlier = copy_run(max_attempts, events.drop_last());
        let before = copy_state_after(s0, events.drop_last());
        match copy_next(before, events.last()) {
            Some((after, action)) => {
                assert(run.drop_last() =~= earlier);
            },
            None => {
                assert(run =~= earlier);
            },
        }
    }
}

} // verus!
