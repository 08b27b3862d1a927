//! The transition engine: what one poll outcome calls for, given what was
//! last written.
use vstd::prelude::*;

use crate::track::{render_status, rendered, snapshot_view, text_view, TrackInfo, TrackView};

verus! {

/// An error of a source adapter, with a message for the log.
#[derive(Debug)]
pub enum AdapterError {
    /// A transient failure: polling goes on at the next tick.
    Recoverable(String),
    /// A failure that no later poll can mend: the loop stops.
    Fatal(String),
}

impl AdapterError {
    /// The message for the log.
    pub open spec fn message_spec(&self) -> Seq<char> {
        match self {
            AdapterError::Recoverable(m) => m@,
            AdapterError::Fatal(m) => m@,
        }
    }
}

/// What one poll of the source adapter reported.
#[derive(Debug)]
pub enum PollOutcome {
    Playing(TrackInfo),
    Idle,
    Failure(AdapterError),
}

/// Whether the loop goes on after a poll.
#[derive(Debug)]
pub enum ControlSignal {
    Continue,
    Abort(String),
}

/// A status change that was decided and is not applied yet: `None` clears
/// the status text, `Some` sets it.
#[derive(Debug)]
pub struct StatusUpdateIntent {
    pub text: Option<String>,
}

/// The decision for one poll, in the abstract.
pub enum Decision {
    /// Nothing to write; the loop goes on.
    Quiet,
    /// Write this status text (`None`: clear it); the loop goes on.
    Write(Option<Seq<char>>),
    /// Nothing to write; the loop stops with this reason.
    Stop(Seq<char>),
}

/// The decision for `outcome` when `previous` is the last applied snapshot.
pub open spec fn decision(
    previous: Option<TrackView>,
    outcome: PollOutcome,
    template: Seq<char>,
    idle: Option<Seq<char>>,
) -> Decision {
    match outcome {
        PollOutcome::Failure(AdapterError::Recoverable(_)) => Decision::Quiet,
        PollOutcome::Failure(AdapterError::Fatal(reason)) => Decision::Stop(reason@),
        PollOutcome::Playing(track) => if previous == Some(track@) {
            Decision::Quiet
        } else {
            Decision::Write(Some(rendered(template, track@)))
        },
        PollOutcome::Idle => if previous is None {
            Decision::Quiet
        } else {
            Decision::Write(idle)
        },
    }
}

/// The applied snapshot once the write that `outcome` calls for, if any,
/// has been confirmed.
pub open spec fn confirmed(previous: Option<TrackView>, outcome: PollOutcome) -> Option<TrackView> {
    match outcome {
        PollOutcome::Playing(track) => Some(track@),
        PollOutcome::Idle => None,
        PollOutcome::Failure(_) => previous,
    }
}

/// The abstract value of what `decide` returns; an intent beside `Abort`
/// is never returned.
pub open spec fn decision_of(r: (Option<StatusUpdateIntent>, ControlSignal)) -> Decision {
    match r.1 {
        ControlSignal::Abort(reason) => Decision::Stop(reason@),
        ControlSignal::Continue => match r.0 {
            Some(intent) => Decision::Write(text_view(intent.text)),
            None => Decision::Quiet,
        },
    }
}

/// Decides what one poll outcome calls for, given the last applied
/// snapshot, the status template and the idle text.
pub fn decide(
    previous: &Option<TrackInfo>,
    outcome: &PollOutcome,
    template: &str,
    idle: &Option<String>,
) -> (r: (Option<StatusUpdateIntent>, ControlSignal))
    ensures
        decision_of(r) == decision(snapshot_view(*previous), *outcome, template@, text_view(*idle)),
        !(r.0 is Some && r.1 is Abort),
{
    match outcome {
        PollOutcome::Failure(AdapterError::Recoverable(_)) => (None, ControlSignal::Continue),
        PollOutcome::Failure(AdapterError::Fatal(reason)) => (
            None,
            ControlSignal::Abort(reason.clone()),
        ),
        PollOutcome::Playing(track) => {
            let unchanged = match previous {
                Some(p) => *p == *track,
                None => false,
            };
            if unchanged {
                (None, ControlSignal::Continue)
            } else {
                let text = render_status(template, track);
                (Some(StatusUpdateIntent { text: Some(text) }), ControlSignal::Continue)
            }
        },
        PollOutcome::Idle => match previous {
            None => (None, ControlSignal::Continue),
            Some(_) => {
                let text = match idle {
                    Some(t) => Some(t.clone()),
                    None => None,
                };
                (Some(StatusUpdateIntent { text }), ControlSignal::Continue)
            },
        },
    }
}

/// The number of writes that `outcomes` call for, one poll after another,
/// when every write is confirmed.
pub open spec fn writes_when_confirmed(
    previous: Option<TrackView>,
    outcomes: Seq<PollOutcome>,
    template: Seq<char>,
    idle: Option<Seq<char>>,
) -> nat
    decreases outcomes.len(),
{
    if outcomes.len() == 0 {
        0
    } else {
        let first = outcomes[0];
        let here: nat = if decision(previous, first, template, idle) is Write {
            1
        } else {
            0
        };
        here + writes_when_confirmed(
            confirmed(previous, first),
            outcomes.drop_first(),
            template,
            idle,
        )
    }
}

/// Polls that all report the same track call for at most one write, the
/// first, and for none when that track is already applied.
pub proof fn lemma_same_track_written_once(
    previous: Option<TrackView>,
    outcomes: Seq<PollOutcome>,
    track: TrackView,
    template: Seq<char>,
    idle: Option<Seq<char>>,
)
    requires
        forall|i: int|
            0 <= i < outcomes.len() ==> #[trigger] outcomes[i] is Playing
                && outcomes[i]->Playing_0@ == track,
    ensures
        writes_when_confirmed(previous, outcomes, template, idle) <= 1,
        previous == Some(track) ==> writes_when_confirmed(previous, outcomes, template, idle)
            == 0,
    decreases outcomes.len(),
{
    if outcomes.len() > 0 {
        let rest = outcomes.drop_first();
        assert(outcomes[0] is Playing);
        assert forall|i: int| 0 <= i < rest.len() implies #[trigger] rest[i] is Playing
            && rest[i]->Playing_0@ == track by {
            assert(rest[i] == outcomes[i + 1]);
        }
        lemma_same_track_written_once(Some(track), rest, track, template, idle);
    }
}

/// An idle poll after an idle status writes nothing.
pub proof fn lemma_idle_after_idle_is_quiet(template: Seq<char>, idle: Option<Seq<char>>)
    ensures
        decision(None, PollOutcome::Idle, template, idle) == Decision::Quiet,
{
}

/// A recoverable failure writes nothing, keeps the loop going and leaves
/// the applied snapshot as it was, whatever that was.
pub proof fn lemma_recoverable_failure_continues(
    previous: Option<TrackView>,
    message: String,
    template: Seq<char>,
    idle: Option<Seq<char>>,
)
    ensures
        decision(
            previous,
            PollOutcome::Failure(AdapterError::Recoverable(message)),
            template,
            idle,
        ) == Decision::Quiet,
        confirmed(previous, PollOutcome::Failure(AdapterError::Recoverable(message)))
            == previous,
{
}

} // verus!
