//! The run-orchestration state machine.
//!
//! One incoming user message drives one pass through these phases:
//! guard (wait until no run is already active on the thread), submit (append
//! the message, then start a run), poll (watch the run until it reaches a
//! terminal status, within a bounded number of attempts), fetch (read the
//! newest thread message), done.
//!
//! The machine itself performs no backend call. The surrounding program feeds
//! it each call's result as an event and receives a [`Directive`] saying what
//! to do next; `Respond` carries the final text for the user. All pauses and
//! attempt bounds are fixed, so a pass always ends after a bounded number of
//! events.

use vstd::prelude::*;

use crate::message::{reply_text, reply_view, Segment};
use crate::status::{class_of, classify, failure_reply, failure_text, RunStatus, StatusClass};

verus! {

/// How many times the guard phase lists in-progress runs before giving up.
pub const ACTIVE_CHECK_ATTEMPTS: u64 = 5;

/// Seconds to pause between two listings of in-progress runs.
pub const ACTIVE_CHECK_PAUSE_SECS: u64 = 5;

/// How many times the polling phase retrieves the run before giving up.
pub const POLL_ATTEMPTS: u64 = 5;

/// Seconds to pause before each retrieval of the run.
pub const POLL_PAUSE_SECS: u64 = 8;

/// How a finished pass ended.
#[derive(Clone, Copy, Debug, PartialEq, Eq, Structural)]
pub enum Outcome {
    /// The run completed and a reply was assembled.
    Completed,
    /// A backend call failed, or the run ended without a reply.
    Failed,
    /// An attempt bound ran out while waiting.
    TimedOut,
}

/// Where the machine stands within one pass.
#[derive(Clone, Copy, Debug, PartialEq, Eq, Structural)]
pub enum Phase {
    /// Waiting for earlier runs on the thread to drain.
    CheckingActive { checks_left: u64 },
    /// No run is active: the user's message is to be appended.
    Submitting,
    /// The message is on the thread: a run is to be created.
    StartingRun,
    /// The run exists: its status is being watched.
    Polling { polls_left: u64 },
    /// The run completed: the newest thread message is to be read.
    Fetching,
    /// The pass is over.
    Done { outcome: Outcome },
}

/// What the surrounding program must do next.
#[derive(Debug)]
pub enum Directive {
    /// Pause, then list the thread's in-progress runs again.
    PauseThenListRuns,
    /// Append the user's message to the thread.
    AppendMessage,
    /// Create a run on the thread.
    CreateRun,
    /// Pause, then retrieve the run's status.
    PauseThenPollRun,
    /// Fetch the newest message on the thread.
    FetchNewestMessage,
    /// The pass is over: show this text to the user.
    Respond(String),
}

/// Where the guard phase stands after a sequence of listings, each observation
/// telling whether any run was still in progress.
pub enum GuardOutcome {
    /// Some listing came back empty: the message may be submitted.
    Proceeded,
    /// Every listing so far was non-empty and this many attempts remain.
    StillWaiting(nat),
    /// Every listing was non-empty and the attempts ran out.
    TimedOut,
}

/// The guard phase folded over its observations: each non-empty listing
/// consumes one attempt; an empty one ends the wait.
pub open spec fn guard_outcome(attempts: nat, obs: Seq<bool>) -> GuardOutcome
    decreases obs.len(),
{
    if obs.len() == 0 {
        GuardOutcome::StillWaiting(attempts)
    } else if !obs[0] {
        GuardOutcome::Proceeded
    } else if attempts <= 1 {
        GuardOutcome::TimedOut
    } else {
        guard_outcome((attempts - 1) as nat, obs.drop_first())
    }
}

/// Where the polling phase stands after a sequence of retrieved statuses.
pub enum PollOutcome {
    /// Every status so far was non-terminal and this many attempts remain.
    StillRunning(nat),
    /// The run completed: the reply is to be fetched.
    Succeeded,
    /// The run ended in this failing status.
    FailedWith(RunStatus),
    /// The attempts ran out with the run still non-terminal.
    TimedOut,
}

/// The polling phase folded over the retrieved statuses: each retrieval
/// consumes one attempt; a terminal status ends the watch at once.
pub open spec fn poll_outcome(attempts: nat, seen: Seq<RunStatus>) -> PollOutcome
    decreases seen.len(),
{
    if seen.len() == 0 {
        PollOutcome::StillRunning(attempts)
    } else {
        match class_of(seen[0]) {
            StatusClass::Success => PollOutcome::Succeeded,
            StatusClass::Failure => PollOutcome::FailedWith(seen[0]),
            StatusClass::NonTerminal => if attempts <= 1 {
                PollOutcome::TimedOut
            } else {
                poll_outcome((attempts - 1) as nat, seen.drop_first())
            },
        }
    }
}

/// One guard observation advances the fold by exactly one step.
pub proof fn lemma_guard_step(attempts: nat, any_active: bool)
    ensures
        guard_outcome(attempts, seq![any_active]) == (if !any_active {
            GuardOutcome::Proceeded
        } else if attempts <= 1 {
            GuardOutcome::TimedOut
        } else {
            GuardOutcome::StillWaiting((attempts - 1) as nat)
        }),
{
    let obs = seq![any_active];
    assert(obs.len() == 1 && obs[0] == any_active);
    if any_active && attempts > 1 {
        assert(obs.drop_first().len() == 0);
        assert(guard_outcome((attempts - 1) as nat, obs.drop_first()) == GuardOutcome::StillWaiting(
            (attempts - 1) as nat,
        ));
    }
}

/// One retrieved status advances the fold by exactly one step.
pub proof fn lemma_poll_step(attempts: nat, s: RunStatus)
    ensures
        poll_outcome(attempts, seq![s]) == (match class_of(s) {
            StatusClass::Success => PollOutcome::Succeeded,
            StatusClass::Failure => PollOutcome::FailedWith(s),
            StatusClass::NonTerminal => if attempts <= 1 {
                PollOutcome::TimedOut
            } else {
                PollOutcome::StillRunning((attempts - 1) as nat)
            },
        }),
{
    let seen = seq![s];
    assert(seen.len() == 1 && seen[0] == s);
    if class_of(s) is NonTerminal && attempts > 1 {
        assert(seen.drop_first().len() == 0);
        assert(poll_outcome((attempts - 1) as nat, seen.drop_first()) == PollOutcome::StillRunning(
            (attempts - 1) as nat,
        ));
    }
}

/// One pass of the state machine. The surrounding program performs each
/// [`Directive`] and reports the backend's answer through the matching
/// `on_...` method; `Respond` ends the pass.
pub struct Coordinator {
    /// The machine's current phase.
    pub phase: Phase,
}

impl Coordinator {
    /// A fresh pass, about to list the thread's in-progress runs for the
    /// first time.
    pub fn new() -> (c: Coordinator)
        ensures
            c.phase == (Phase::CheckingActive { checks_left: ACTIVE_CHECK_ATTEMPTS }),
    {
        Coordinator { phase: Phase::CheckingActive { checks_left: ACTIVE_CHECK_ATTEMPTS } }
    }

    /// Guard phase: the in-progress runs were listed. `Ok(true)` means some
    /// run is still active, `Ok(false)` that the thread is idle, `Err` that
    /// the listing itself failed.
    pub fn on_runs_listed(&mut self, listing: Result<bool, ()>) -> (d: Directive)
        requires
            old(self).phase is CheckingActive,
        ensures
            listing is Err ==> ({
                &&& final(self).phase == (Phase::Done { outcome: Outcome::Failed })
                &&& d matches Directive::Respond(r)
                &&& r@ == "Failed to wait for active run."@
            }),
            listing matches Ok(any_active) ==> (match guard_outcome(
                old(self).phase->checks_left as nat,
                seq![any_active],
            ) {
                GuardOutcome::Proceeded => final(self).phase == Phase::Submitting
                    && d is AppendMessage,
                GuardOutcome::StillWaiting(m) => final(self).phase == (Phase::CheckingActive {
                    checks_left: m as u64,
                }) && d is PauseThenListRuns,
                GuardOutcome::TimedOut => ({
                    &&& final(self).phase == (Phase::Done { outcome: Outcome::TimedOut })
                    &&& d matches Directive::Respond(r)
                    &&& r@ == "Failed to wait for active run."@
                }),
            }),
    {
        let checks_left = match self.phase {
            Phase::CheckingActive { checks_left } => checks_left,
            // Unreachable: the precondition pins the phase.
            _ => {
                proof {
                    assert(false);
                }
                0
            },
        };
        match listing {
            Err(_) => {
                self.phase = Phase::Done { outcome: Outcome::Failed };
                Directive::Respond("Failed to wait for active run.".to_owned())
            },
            Ok(any_active) => {
                proof {
                    lemma_guard_step(checks_left as nat, any_active);
                }
                if !any_active {
                    self.phase = Phase::Submitting;
                    Directive::AppendMessage
                } else if checks_left > 1 {
                    self.phase = Phase::CheckingActive { checks_left: checks_left - 1 };
                    Directive::PauseThenListRuns
                } else {
                    self.phase = Phase::Done { outcome: Outcome::TimedOut };
                    Directive::Respond("Failed to wait for active run.".to_owned())
                }
            },
        }
    }

    /// Submit phase: the user's message was appended to the thread, or the
    /// append failed.
    pub fn on_message_appended(&mut self, appended: bool) -> (d: Directive)
        requires
            old(self).phase is Submitting,
        ensures
            appended ==> final(self).phase == Phase::StartingRun && d is CreateRun,
            !appended ==> ({
                &&& final(self).phase == (Phase::Done { outcome: Outcome::Failed })
                &&& d matches Directive::Respond(r)
                &&& r@ == "Failed to create message."@
            }),
    {
        if appended {
            self.phase = Phase::StartingRun;
            Directive::CreateRun
        } else {
            self.phase = Phase::Done { outcome: Outcome::Failed };
            Directive::Respond("Failed to create message.".to_owned())
        }
    }

    /// Submit phase: a run was created on the thread, or the creation failed.
    pub fn on_run_created(&mut self, created: bool) -> (d: Directive)
        requires
            old(self).phase is StartingRun,
        ensures
            created ==> final(self).phase == (Phase::Polling { polls_left: POLL_ATTEMPTS })
                && d is PauseThenPollRun,
            !created ==> ({
                &&& final(self).phase == (Phase::Done { outcome: Outcome::Failed })
                &&& d matches Directive::Respond(r)
                &&& r@ == "Failed to create run."@
            }),
    {
        if created {
            self.phase = Phase::Polling { polls_left: POLL_ATTEMPTS };
            Directive::PauseThenPollRun
        } else {
            self.phase = Phase::Done { outcome: Outcome::Failed };
            Directive::Respond("Failed to create run.".to_owned())
        }
    }

    /// Polling phase: the run's status was retrieved, or the retrieval failed.
    pub fn on_status(&mut self, retrieved: Result<RunStatus, ()>) -> (d: Directive)
        requires
            old(self).phase is Polling,
        ensures
            retrieved is Err ==> ({
                &&& final(self).phase == (Phase::Done { outcome: Outcome::Failed })
                &&& d matches Directive::Respond(r)
                &&& r@ == "Failed to retrieve run."@
            }),
            retrieved matches Ok(s) ==> (match poll_outcome(
                old(self).phase->polls_left as nat,
                seq![s],
            ) {
                PollOutcome::Succeeded => final(self).phase == Phase::Fetching
                    && d is FetchNewestMessage,
                PollOutcome::FailedWith(st) => ({
                    &&& st == s
                    &&& final(self).phase == (Phase::Done { outcome: Outcome::Failed })
                    &&& d matches Directive::Respond(r)
                    &&& r@ == failure_reply(s)
                }),
                PollOutcome::TimedOut => ({
                    &&& final(self).phase == (Phase::Done { outcome: Outcome::TimedOut })
                    &&& d matches Directive::Respond(r)
                    &&& r@ == "Timeout"@
                }),
                PollOutcome::StillRunning(m) => final(self).phase == (Phase::Polling {
                    polls_left: m as u64,
                }) && d is PauseThenPollRun,
            }),
    {
        let polls_left = match self.phase {
            Phase::Polling { polls_left } => polls_left,
            // Unreachable: the precondition pins the phase.
            _ => {
                proof {
                    assert(false);
                }
                0
            },
        };
        match retrieved {
            Err(_) => {
                self.phase = Phase::Done { outcome: Outcome::Failed };
                Directive::Respond("Failed to retrieve run.".to_owned())
            },
            Ok(s) => {
                proof {
                    lemma_poll_step(polls_left as nat, s);
                }
                match classify(&s) {
                    StatusClass::Success => {
                        self.phase = Phase::Fetching;
                        Directive::FetchNewestMessage
                    },
                    StatusClass::Failure => {
                        self.phase = Phase::Done { outcome: Outcome::Failed };
                        Directive::Respond(failure_text(&s))
                    },
                    StatusClass::NonTerminal => {
                        if polls_left > 1 {
                            self.phase = Phase::Polling { polls_left: polls_left - 1 };
                            Directive::PauseThenPollRun
                        } else {
                            self.phase = Phase::Done { outcome: Outcome::TimedOut };
                            Directive::Respond("Timeout".to_owned())
                        }
                    },
                }
            },
        }
    }

    /// Fetch phase: the newest thread message arrived (`Ok(Some)` with its
    /// content segments), the thread held no message (`Ok(None)`), or the
    /// fetch failed.
    pub fn on_messages_fetched(&mut self, fetched: Result<Option<Vec<Segment>>, ()>) -> (d:
        Directive)
        requires
            old(self).phase is Fetching,
        ensures
            fetched is Err ==> ({
                &&& final(self).phase == (Phase::Done { outcome: Outcome::Failed })
                &&& d matches Directive::Respond(r)
                &&& r@ == "Failed to list messages."@
            }),
            fetched matches Ok(None) ==> ({
                &&& final(self).phase == (Phase::Done { outcome: Outcome::Completed })
                &&& d matches Directive::Respond(r)
                &&& r@ == "No messages found."@
            }),
            fetched matches Ok(Some(parts)) ==> ({
                &&& final(self).phase == (Phase::Done { outcome: Outcome::Completed })
                &&& d matches Directive::Respond(r)
                &&& r@ == reply_view(parts@)
            }),
    {
        match fetched {
            Err(_) => {
                self.phase = Phase::Done { outcome: Outcome::Failed };
                Directive::Respond("Failed to list messages.".to_owned())
            },
            Ok(None) => {
                self.phase = Phase::Done { outcome: Outcome::Completed };
                Directive::Respond("No messages found.".to_owned())
            },
            Ok(Some(parts)) => {
                self.phase = Phase::Done { outcome: Outcome::Completed };
                Directive::Respond(reply_text(&parts))
            },
        }
    }
}

/// While every observation reports an active run and more attempts remain than
/// observations were made, the guard keeps waiting.
proof fn lemma_guard_all_active_waits(attempts: nat, obs: Seq<bool>)
    requires
        obs.len() < attempts,
        forall|i: int| 0 <= i < obs.len() ==> obs[i],
    ensures
        guard_outcome(attempts, obs) == GuardOutcome::StillWaiting((attempts - obs.len()) as nat),
    decreases obs.len(),
{
    if obs.len() > 0 {
        assert(obs[0]);
        assert forall|i: int| 0 <= i < obs.drop_first().len() implies obs.drop_first()[i] by {
            assert(obs[i + 1]);
        }
        lemma_guard_all_active_waits((attempts - 1) as nat, obs.drop_first());
    }
}

/// Once at least as many all-active observations were made as attempts
/// remained, the guard has timed out.
proof fn lemma_guard_all_active_times_out(attempts: nat, obs: Seq<bool>)
    requires
        1 <= attempts <= obs.len(),
        forall|i: int| 0 <= i < obs.len() ==> obs[i],
    ensures
        guard_outcome(attempts, obs) == GuardOutcome::TimedOut,
    decreases attempts,
{
    assert(obs[0]);
    if attempts > 1 {
        assert forall|i: int| 0 <= i < obs.drop_first().len() implies obs.drop_first()[i] by {
            assert(obs[i + 1]);
        }
        lemma_guard_all_active_times_out((attempts - 1) as nat, obs.drop_first());
    }
}

/// Law: if the in-progress listing comes back non-empty at every one of the
/// guard's attempts, the guard ends timed out — and after no earlier attempt
/// did it proceed, so the append-message directive is never issued and the
/// user's message is never submitted.
pub proof fn lemma_active_run_never_clears(obs: Seq<bool>)
    requires
        obs.len() == ACTIVE_CHECK_ATTEMPTS,
        forall|i: int| 0 <= i < obs.len() ==> obs[i],
    ensures
        guard_outcome(ACTIVE_CHECK_ATTEMPTS as nat, obs) == GuardOutcome::TimedOut,
        forall|k: int|
            0 <= k < obs.len() ==> guard_outcome(ACTIVE_CHECK_ATTEMPTS as nat, obs.take(k))
                is StillWaiting,
{
    lemma_guard_all_active_times_out(ACTIVE_CHECK_ATTEMPTS as nat, obs);
    assert forall|k: int|
        0 <= k < obs.len() implies guard_outcome(ACTIVE_CHECK_ATTEMPTS as nat, obs.take(k))
        is StillWaiting by {
        assert forall|i: int| 0 <= i < obs.take(k).len() implies obs.take(k)[i] by {
            assert(obs[i]);
        }
        lemma_guard_all_active_waits(ACTIVE_CHECK_ATTEMPTS as nat, obs.take(k));
    }
}

/// Leading non-terminal statuses only consume attempts: the watch goes on as
/// if it had started past them, with correspondingly fewer attempts left.
proof fn lemma_poll_skips_nonterminal(attempts: nat, seen: Seq<RunStatus>, k: int)
    requires
        0 <= k < attempts,
        k <= seen.len(),
        forall|i: int| 0 <= i < k ==> class_of(seen[i]) is NonTerminal,
    ensures
        poll_outcome(attempts, seen) == poll_outcome((attempts - k) as nat, seen.skip(k)),
    decreases k,
{
    if k == 0 {
        assert(seen.skip(0) =~= seen);
    } else {
        assert(class_of(seen[0]) is NonTerminal);
        assert forall|i: int|
            0 <= i < k - 1 implies class_of(seen.drop_first()[i]) is NonTerminal by {
            assert(class_of(seen[i + 1]) is NonTerminal);
        }
        lemma_poll_skips_nonterminal((attempts - 1) as nat, seen.drop_first(), k - 1);
        assert(seen.drop_first().skip(k - 1) =~= seen.skip(k));
    }
}

/// Law: a run whose retrieved statuses go queued, in-progress, completed —
/// terminal within three of the five attempts — ends the polling phase in
/// success. By `on_status`'s contract the machine then issues the fetch
/// directive, and by `on_messages_fetched`'s contract the final reply is the
/// newest message's text segments joined by newlines.
pub proof fn lemma_run_completes_in_time(seen: Seq<RunStatus>)
    requires
        seen.len() == 3,
        seen[0] == RunStatus::Queued,
        seen[1] == RunStatus::InProgress,
        seen[2] == RunStatus::Completed,
    ensures
        poll_outcome(POLL_ATTEMPTS as nat, seen) == PollOutcome::Succeeded,
{
    lemma_poll_skips_nonterminal(POLL_ATTEMPTS as nat, seen, 2);
    assert(seen.skip(2)[0] == RunStatus::Completed);
}

/// Law: when the run's status resolves to expired — after any number of
/// non-terminal polls within the attempt bound — the polling phase ends in
/// failure carrying the expired status, whose reply is the fixed sentence
/// "Run is expired". By `on_status`'s contract a failed outcome never issues
/// the fetch directive, so no message retrieval is attempted.
pub proof fn lemma_expired_run_reply(attempts: nat, seen: Seq<RunStatus>, k: int)
    requires
        0 <= k < attempts,
        k < seen.len(),
        forall|i: int| 0 <= i < k ==> class_of(seen[i]) is NonTerminal,
        seen[k] == RunStatus::Expired,
    ensures
        poll_outcome(attempts, seen) == PollOutcome::FailedWith(RunStatus::Expired),
        failure_reply(RunStatus::Expired) == "Run is expired"@,
{
    lemma_poll_skips_nonterminal(attempts, seen, k);
    assert(seen.skip(k)[0] == RunStatus::Expired);
}

} // verus!
