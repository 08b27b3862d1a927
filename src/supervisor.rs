//! The loop's state machine: it owns the applied snapshot, asks for writes,
//! and takes in their results.
use vstd::prelude::*;

use crate::engine::{confirmed, decide, decision, ControlSignal, Decision, PollOutcome, StatusUpdateIntent};
use crate::track::{snapshot_view, text_view, TrackInfo, TrackView};

verus! {

/// Why a status write failed.
#[derive(Debug)]
pub enum SyncError {
    /// The platform asks to wait this many milliseconds before writing again.
    RateLimited(u64),
    /// The request did not complete.
    Transport(String),
    /// The session credential was refused.
    Unauthorized,
    /// The platform answered with an unexpected HTTP status.
    Unexpected(u16),
}

/// A write that the supervisor asked for and that awaits its result.
#[derive(Debug)]
pub struct PendingWrite {
    /// The status change to apply.
    pub intent: StatusUpdateIntent,
    /// The snapshot that is applied once the write is confirmed.
    pub target: Option<TrackInfo>,
}

/// What the supervisor asks for after a poll.
#[derive(Debug)]
pub enum Step {
    /// Nothing to do until the next tick.
    Wait,
    /// Apply this write, then report its result.
    Write(PendingWrite),
    /// Stop polling, with this reason.
    Abort(String),
}

/// What the supervisor asks for after a write.
#[derive(Debug)]
pub enum AfterWrite {
    /// Go on at the next tick.
    Continue,
    /// Write nothing for this many milliseconds, then go on at the next tick.
    Backoff(u64),
    /// Stop polling: the write failed for good.
    Abort(SyncError),
}

/// The loop's memory: what was last written to the platform, and how
/// status texts are made.
pub struct Supervisor {
    applied: Option<TrackInfo>,
    template: String,
    idle: Option<String>,
}

impl Supervisor {
    /// The snapshot that the last confirmed write applied.
    pub closed spec fn applied_view(&self) -> Option<TrackView> {
        snapshot_view(self.applied)
    }

    pub closed spec fn template_view(&self) -> Seq<char> {
        self.template@
    }

    pub closed spec fn idle_view(&self) -> Option<Seq<char>> {
        text_view(self.idle)
    }

    /// Starts with nothing applied. The idle text is the configured one, or,
    /// where none is configured, the status that the account had at startup.
    pub fn new(template: String, configured_idle: Option<String>, current_status: Option<String>) -> (r: Supervisor)
        ensures
            r.applied_view() is None,
            r.template_view() == template@,
            r.idle_view() == (if configured_idle is Some {
                text_view(configured_idle)
            } else {
                text_view(current_status)
            }),
    {
        let idle = match configured_idle {
            Some(text) => Some(text),
            None => current_status,
        };
        Supervisor { applied: None, template, idle }
    }

    /// The snapshot that the last confirmed write applied.
    pub fn applied(&self) -> (r: &Option<TrackInfo>)
        ensures
            snapshot_view(*r) == self.applied_view(),
    {
        &self.applied
    }

    /// Decides what a poll outcome calls for. The applied snapshot does not
    /// change here: it changes only once a write is confirmed.
    pub fn on_outcome(&self, outcome: PollOutcome) -> (r: Step)
        ensures
            ({
                let d = decision(self.applied_view(), outcome, self.template_view(), self.idle_view());
                match r {
                    Step::Wait => d == Decision::Quiet,
                    Step::Abort(reason) => d == Decision::Stop(reason@),
                    Step::Write(p) => d == Decision::Write(text_view(p.intent.text))
                        && snapshot_view(p.target) == confirmed(self.applied_view(), outcome),
                }
            }),
    {
        let (intent, signal) = decide(&self.applied, &outcome, self.template.as_str(), &self.idle);
        match signal {
            ControlSignal::Abort(reason) => Step::Abort(reason),
            ControlSignal::Continue => match intent {
                None => Step::Wait,
                Some(intent) => {
                    let target = match outcome {
                        PollOutcome::Playing(track) => Some(track),
                        _ => None,
                    };
                    Step::Write(PendingWrite { intent, target })
                },
            },
        }
    }

    /// Takes in the result of a write. Only a confirmed write changes the
    /// applied snapshot; a rate limit asks for a pause and drops the write,
    /// and any other failure stops the loop.
    pub fn on_write_result(&mut self, pending: PendingWrite, result: Result<(), SyncError>) -> (r: AfterWrite)
        ensures
            final(self).template_view() == old(self).template_view(),
            final(self).idle_view() == old(self).idle_view(),
            match result {
                Ok(()) => r is Continue && final(self).applied_view() == snapshot_view(pending.target),
                Err(SyncError::RateLimited(wait)) => r == AfterWrite::Backoff(wait)
                    && final(self).applied_view() == old(self).applied_view(),
                Err(e) => r == AfterWrite::Abort(e)
                    && final(self).applied_view() == old(self).applied_view(),
            },
    {
        match result {
            Ok(()) => {
                self.applied = pending.target;
                AfterWrite::Continue
            },
            Err(SyncError::RateLimited(wait)) => AfterWrite::Backoff(wait),
            Err(e) => AfterWrite::Abort(e),
        }
    }
}

/// The applied snapshot after one round of the loop: a poll, then the
/// write it calls for, if any, either confirmed or dropped for a rate limit.
pub open spec fn after_round(
    applied: Option<TrackView>,
    outcome: PollOutcome,
    template: Seq<char>,
    idle: Option<Seq<char>>,
    write_confirmed: bool,
) -> Option<TrackView> {
    if decision(applied, outcome, template, idle) is Write && write_confirmed {
        confirmed(applied, outcome)
    } else {
        applied
    }
}

/// A write of `first` that a rate limit dropped leaves the applied snapshot
/// as it was. When the track has moved on to `second` by the next poll, that
/// poll writes the text of `second`, never the stale one of `first`, and once
/// its write is confirmed `second` is applied.
pub proof fn lemma_rate_limited_write_is_superseded(
    applied: Option<TrackView>,
    first: TrackInfo,
    second: TrackInfo,
    template: Seq<char>,
    idle: Option<Seq<char>>,
)
    ensures
        after_round(applied, PollOutcome::Playing(first), template, idle, false) == applied,
        ({
            let d = decision(applied, PollOutcome::Playing(second), template, idle);
            d is Write ==> d == Decision::Write(Some(crate::track::rendered(template, second@)))
        }),
        after_round(applied, PollOutcome::Playing(second), template, idle, true) == Some(second@),
{
}

} // verus!
