use vstd::prelude::*;

use crate::error::{Error, InternalError};
use crate::upload::{UploadError, UserError};

verus! {

/// Why the backend upload task is being joined.
#[derive(Debug)]
pub enum JoinReason {
    /// The client's stream ended cleanly: the upload should be complete.
    Ended,
    /// The client's stream failed and the abort marker went out.
    Dropped,
    /// The channel refused a chunk: the backend task already stopped.
    Refused,
}

/// Where the relay between the client's file part and the backend upload
/// stands. The relay and the backend task share one channel of capacity one.
#[derive(Debug)]
pub enum Relay {
    /// Waiting for the next chunk of the client's file.
    Reading,
    /// A chunk was handed to the channel and is not taken yet.
    Sending,
    /// The abort marker is being handed to the channel.
    Aborting,
    /// The channel is closed and the backend task is being awaited.
    Joining(JoinReason),
    /// The backend stored the file; the body of its answer is being read.
    ReadingAnswer,
    /// The relay is over, with this outcome.
    Done(Result<(), UploadError>),
}

/// What happened to the last action.
#[derive(Debug)]
pub enum Event {
    /// The client's stream gave a chunk.
    Chunk,
    /// Reading the client's stream failed.
    ReadFailed,
    /// The client's stream ended.
    ReadEnded,
    /// The channel took what was sent.
    Taken,
    /// The channel is closed from the backend's side.
    Closed,
    /// The backend task returned a response with this status.
    Finished(u16),
    /// The backend task failed: transport error, or the task was lost.
    Failed,
    /// The body of the backend's answer was read.
    AnswerRead,
    /// Reading that body failed.
    AnswerFailed,
}

/// What the driver does next.
#[derive(Debug)]
pub enum Action {
    /// Read the next chunk of the client's stream.
    Read,
    /// Send the chunk just read into the channel.
    Forward,
    /// Send the abort marker into the channel, so that the backend upload is
    /// terminated instead of silently truncated.
    SendAbort,
    /// Drop the sending end of the channel and await the backend task.
    CloseAndJoin,
    /// Read the body of the backend's answer.
    ReadAnswer,
    /// Nothing more: the relay is done.
    Stop,
}

/// Whether `e` can follow the action that led to `s`.
pub open spec fn accepts(s: Relay, e: Event) -> bool {
    match s {
        Relay::Reading => e is Chunk || e is ReadFailed || e is ReadEnded,
        Relay::Sending | Relay::Aborting => e is Taken || e is Closed,
        Relay::Joining(_) => e is Finished || e is Failed,
        Relay::ReadingAnswer => e is AnswerRead || e is AnswerFailed,
        Relay::Done(_) => false,
    }
}

/// The action that goes with entering a state.
pub open spec fn action_of(s: Relay) -> Action {
    match s {
        Relay::Reading => Action::Read,
        Relay::Sending => Action::Forward,
        Relay::Aborting => Action::SendAbort,
        Relay::Joining(_) => Action::CloseAndJoin,
        Relay::ReadingAnswer => Action::ReadAnswer,
        Relay::Done(_) => Action::Stop,
    }
}

/// The state that an accepted event leads to.
pub open spec fn next_spec(s: Relay, e: Event) -> Relay {
    match s {
        Relay::Reading => match e {
            Event::Chunk => Relay::Sending,
            Event::ReadFailed => Relay::Aborting,
            _ => Relay::Joining(JoinReason::Ended),
        },
        Relay::Sending => match e {
            Event::Taken => Relay::Reading,
            _ => Relay::Joining(JoinReason::Refused),
        },
        Relay::Aborting => Relay::Joining(JoinReason::Dropped),
        Relay::Joining(JoinReason::Dropped) => Relay::Done(Err(Error::User(UserError::ConnectionDropped))),
        Relay::Joining(JoinReason::Refused) => match e {
            Event::Finished(_) => Relay::Done(Err(Error::Internal(InternalError::UploadEndedEarly))),
            _ => Relay::Done(Err(Error::Internal(InternalError::Transport))),
        },
        Relay::Joining(JoinReason::Ended) => match e {
            Event::Finished(status) => if status == 200 {
                Relay::ReadingAnswer
            } else {
                Relay::Done(Err(Error::Internal(InternalError::UnexpectedStatus(status))))
            },
            _ => Relay::Done(Err(Error::Internal(InternalError::Transport))),
        },
        Relay::ReadingAnswer => match e {
            Event::AnswerRead => Relay::Done(Ok(())),
            _ => Relay::Done(Err(Error::Internal(InternalError::Transport))),
        },
        Relay::Done(r) => Relay::Done(r),
    }
}

/// Chunks of the client's file that the relay holds: read, and not yet
/// taken by the channel.
pub open spec fn held(s: Relay) -> int {
    if s is Sending {
        1
    } else {
        0
    }
}

impl Relay {
    /// The state a relay starts in, and the action that starts it.
    pub fn start() -> (r: (Relay, Action))
        ensures
            r.0 is Reading,
            r.1 is Read,
    {
        (Relay::Reading, Action::Read)
    }

    /// Whether the relay expects `e` now.
    pub fn accepts(&self, e: &Event) -> (r: bool)
        ensures
            r == accepts(*self, *e),
    {
        match self {
            Relay::Reading => match e {
                Event::Chunk | Event::ReadFailed | Event::ReadEnded => true,
                _ => false,
            },
            Relay::Sending | Relay::Aborting => match e {
                Event::Taken | Event::Closed => true,
                _ => false,
            },
            Relay::Joining(_) => match e {
                Event::Finished(_) | Event::Failed => true,
                _ => false,
            },
            Relay::ReadingAnswer => match e {
                Event::AnswerRead | Event::AnswerFailed => true,
                _ => false,
            },
            Relay::Done(_) => false,
        }
    }

    /// Moves the relay on by one event, and says what to do next.
    pub fn step(self, e: Event) -> (r: (Relay, Action))
        requires
            accepts(self, e),
        ensures
            r.0 == next_spec(self, e),
            r.1 == action_of(r.0),
    {
        let next = match self {
            Relay::Reading => match e {
                Event::Chunk => Relay::Sending,
                Event::ReadFailed => Relay::Aborting,
                _ => Relay::Joining(JoinReason::Ended),
            },
            Relay::Sending => match e {
                Event::Taken => Relay::Reading,
                _ => Relay::Joining(JoinReason::Refused),
            },
            Relay::Aborting => Relay::Joining(JoinReason::Dropped),
            Relay::Joining(JoinReason::Dropped) => Relay::Done(
                Err(Error::User(UserError::ConnectionDropped)),
            ),
            Relay::Joining(JoinReason::Refused) => match e {
                Event::Finished(_) => Relay::Done(
                    Err(Error::Internal(InternalError::UploadEndedEarly)),
                ),
                _ => Relay::Done(Err(Error::Internal(InternalError::Transport))),
            },
            Relay::Joining(JoinReason::Ended) => match e {
                Event::Finished(status) => if status == 200 {
                    Relay::ReadingAnswer
                } else {
                    Relay::Done(Err(Error::Internal(InternalError::UnexpectedStatus(status))))
                },
                _ => Relay::Done(Err(Error::Internal(InternalError::Transport))),
            },
            Relay::ReadingAnswer => match e {
                Event::AnswerRead => Relay::Done(Ok(())),
                _ => Relay::Done(Err(Error::Internal(InternalError::Transport))),
            },
            Relay::Done(r) => Relay::Done(r),
        };
        let action = match next {
            Relay::Reading => Action::Read,
            Relay::Sending => Action::Forward,
            Relay::Aborting => Action::SendAbort,
            Relay::Joining(_) => Action::CloseAndJoin,
            Relay::ReadingAnswer => Action::ReadAnswer,
            Relay::Done(_) => Action::Stop,
        };
        (next, action)
    }
}

/// Whether every event of `events`, in turn, is one the relay expects.
pub open spec fn valid_run(s: Relay, events: Seq<Event>) -> bool
    decreases events.len(),
{
    if events.len() == 0 {
        true
    } else {
        accepts(s, events[0]) && valid_run(next_spec(s, events[0]), events.drop_first())
    }
}

/// The state after `events`, taken in turn.
pub open spec fn run(s: Relay, events: Seq<Event>) -> Relay
    decreases events.len(),
{
    if events.len() == 0 {
        s
    } else {
        run(next_spec(s, events[0]), events.drop_first())
    }
}

/// Chunks read from the client and not yet taken by the channel, counted
/// along `events`: a chunk read adds one; the channel's answer to it, taken
/// or closed, removes it.
pub open spec fn buffered(s: Relay, events: Seq<Event>) -> int
    decreases events.len(),
{
    if events.len() == 0 {
        0
    } else {
        let e = events[0];
        let delta: int = if s is Reading && e is Chunk {
            1
        } else if s is Sending && (e is Taken || e is Closed) {
            -1
        } else {
            0
        };
        delta + buffered(next_spec(s, e), events.drop_first())
    }
}

proof fn lemma_buffered_is_held(s: Relay, events: Seq<Event>)
    requires
        valid_run(s, events),
    ensures
        buffered(s, events) == held(run(s, events)) - held(s),
    decreases events.len(),
{
    if events.len() > 0 {
        lemma_buffered_is_held(next_spec(s, events[0]), events.drop_first());
    }
}

/// However large the client's file, the relay holds at most one of its
/// chunks at any time: the next chunk is read only once the channel has
/// taken the one before. Any prefix of a run is a run, so this bounds every
/// moment of every run.
pub proof fn lemma_relay_holds_one_chunk(events: Seq<Event>)
    requires
        valid_run(Relay::Reading, events),
    ensures
        0 <= buffered(Relay::Reading, events) <= 1,
{
    lemma_buffered_is_held(Relay::Reading, events);
}

/// When the client's stream fails, the relay sends the abort marker, then
/// closes the channel and joins the backend task, whatever the channel and
/// the task answer, and the upload ends in `ConnectionDropped`.
pub proof fn lemma_client_failure_aborts(e1: Event, e2: Event)
    requires
        accepts(Relay::Aborting, e1),
        accepts(Relay::Joining(JoinReason::Dropped), e2),
    ensures
        valid_run(Relay::Reading, seq![Event::ReadFailed, e1, e2]),
        action_of(next_spec(Relay::Reading, Event::ReadFailed)) is SendAbort,
        action_of(next_spec(Relay::Aborting, e1)) is CloseAndJoin,
        run(Relay::Reading, seq![Event::ReadFailed, e1, e2]) == Relay::Done(
            Err(Error::User(UserError::ConnectionDropped)),
        ),
{
    let ev = seq![Event::ReadFailed, e1, e2];
    let r1 = ev.drop_first();
    let r2 = r1.drop_first();
    let r3 = r2.drop_first();
    assert(r1 =~= seq![e1, e2]);
    assert(r2 =~= seq![e2]);
    assert(r3 =~= Seq::<Event>::empty());
    let done = Relay::Done(Err(Error::User(UserError::ConnectionDropped)));
    assert(valid_run(done, r3) && run(done, r3) == done);
    assert(valid_run(Relay::Joining(JoinReason::Dropped), r2));
    assert(run(Relay::Joining(JoinReason::Dropped), r2) == done);
    assert(valid_run(Relay::Aborting, r1) && run(Relay::Aborting, r1) == done);
}

/// Whether the relay was joining the backend task at some point of `events`.
pub open spec fn joins(s: Relay, events: Seq<Event>) -> bool {
    exists|i: int| 0 <= i <= events.len() && (#[trigger] run(s, events.take(i))) is Joining
}

/// A relay that is over has awaited the backend task on the way: no run
/// from the client's side leaves the backend upload behind.
pub proof fn lemma_relay_always_joins(s: Relay, events: Seq<Event>)
    requires
        s is Reading || s is Sending || s is Aborting,
        valid_run(s, events),
        run(s, events) is Done,
    ensures
        joins(s, events),
    decreases events.len(),
{
    let n = next_spec(s, events[0]);
    let rest = events.drop_first();
    assert(events.take(1).drop_first() =~= Seq::<Event>::empty());
    if n is Joining {
        assert(events.take(1)[0] == events[0]);
        assert(run(n, events.take(1).drop_first()) == n);
        assert(run(s, events.take(1)) == n);
    } else {
        lemma_relay_always_joins(n, rest);
        let j = choose|j: int| 0 <= j <= rest.len() && (#[trigger] run(n, rest.take(j))) is Joining;
        assert(events.take(j + 1).drop_first() =~= rest.take(j));
        assert(events.take(j + 1)[0] == events[0]);
        assert(run(s, events.take(j + 1)) is Joining);
    }
}

/// A relay that is done takes no more events: its outcome is its only one.
pub proof fn lemma_done_is_final(outcome: Result<(), UploadError>, events: Seq<Event>)
    requires
        valid_run(Relay::Done(outcome), events),
    ensures
        events.len() == 0,
{
}

} // verus!
