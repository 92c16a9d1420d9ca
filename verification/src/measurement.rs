//! The measurement protocol: which register access follows which reply.
//!
//! A one-shot measurement writes the configuration with the start bit set,
//! reads the configuration until the device reports that the conversion is
//! complete, and then reads the conversion register. A measurement in
//! continuous mode reads the conversion register at once. The protocol sets
//! no limit to the number of status reads: a device that never reports
//! completion is polled for ever.

use crate::bus::{Reply, Request};
use crate::error::Error;
use crate::register::{Config, CONFIG, CONVERSION};
use vstd::prelude::*;

verus! {

/// The access whose reply a measurement waits for.
#[derive(Debug, Clone, Copy, PartialEq, Eq, Structural)]
pub enum Phase {
    /// The write that starts a conversion
    Trigger,
    /// A read of the status
    Poll,
    /// The read of the result
    Fetch,
}

/// How a measurement goes on after a reply.
#[derive(Debug)]
pub enum Progress<E> {
    /// The measurement is in the given phase and asks for the given access.
    Continue(Phase, Request),
    /// The measurement is over: the value of the conversion register, or the
    /// failure of the bus.
    Finished(Result<u16, Error<E>>),
}

/// Whether `status`, a value of the configuration register, reports that no
/// conversion is running.
pub open spec fn conversion_complete(status: u16) -> bool {
    status & Config::OS == Config::OS
}

impl Phase {
    /// How the measurement goes on from this phase when `reply` comes in. A
    /// failure ends it. The write done, the status is read. A value that
    /// comes in while the result is awaited is the result and ends the
    /// measurement. Any other value is a status: one that reports a running
    /// conversion has the status read again, one that reports completion has
    /// the result read.
    pub open spec fn next<E>(self, reply: Reply<E>) -> Progress<E> {
        match reply {
            Reply::Failed(e) => Progress::Finished(Err(Error::Bus(e))),
            Reply::Written => Progress::Continue(Phase::Poll, Request::Read { register: CONFIG }),
            Reply::Value(value) => if self == Phase::Fetch {
                Progress::Finished(Ok(value))
            } else if conversion_complete(value) {
                Progress::Continue(Phase::Fetch, Request::Read { register: CONVERSION })
            } else {
                Progress::Continue(Phase::Poll, Request::Read { register: CONFIG })
            },
        }
    }

    /// Takes the reply to the access of this phase and decides how the
    /// measurement goes on.
    pub fn advance<E>(self, reply: Reply<E>) -> (progress: Progress<E>)
        ensures
            progress == self.next(reply),
    {
        match reply {
            Reply::Failed(e) => Progress::Finished(Err(Error::Bus(e))),
            Reply::Written => Progress::Continue(Phase::Poll, Request::Read { register: CONFIG }),
            Reply::Value(value) => match self {
                Phase::Fetch => Progress::Finished(Ok(value)),
                _ => {
                    if Config::from_bits_truncate(value).contains(Config::OS) {
                        Progress::Continue(Phase::Fetch, Request::Read { register: CONVERSION })
                    } else {
                        Progress::Continue(Phase::Poll, Request::Read { register: CONFIG })
                    }
                },
            },
        }
    }
}

/// The accesses that a measurement asks for while it takes `replies` in
/// order, from `phase` on.
pub open spec fn requests<E>(phase: Phase, replies: Seq<Reply<E>>) -> Seq<Request>
    decreases replies.len(),
{
    if replies.len() == 0 {
        Seq::empty()
    } else {
        match phase.next(replies[0]) {
            Progress::Continue(following, request) => seq![request] + requests(
                following,
                replies.drop_first(),
            ),
            Progress::Finished(_) => Seq::empty(),
        }
    }
}

/// What a measurement ends with while it takes `replies` in order, from
/// `phase` on, if it ends.
pub open spec fn outcome<E>(phase: Phase, replies: Seq<Reply<E>>) -> Option<Result<u16, Error<E>>>
    decreases replies.len(),
{
    if replies.len() == 0 {
        None
    } else {
        match phase.next(replies[0]) {
            Progress::Continue(following, _) => outcome(following, replies.drop_first()),
            Progress::Finished(result) => Some(result),
        }
    }
}

/// The replies of a device that reports a running conversion in each of
/// `busy`, then completion in `ready`, then the result `raw`.
pub open spec fn conversion_replies<E>(busy: Seq<u16>, ready: u16, raw: u16) -> Seq<Reply<E>> {
    busy.map_values(|status: u16| Reply::<E>::Value(status)) + seq![
        Reply::<E>::Value(ready),
        Reply::<E>::Value(raw),
    ]
}

/// The given number of status reads, then the read of the result.
pub open spec fn polls_then_fetch(polls: nat) -> Seq<Request> {
    Seq::new(polls, |i: int| Request::Read { register: CONFIG }) + seq![
        Request::Read { register: CONVERSION },
    ]
}

/// A measurement that polls a device which reports a running conversion in
/// each of `busy` and then completion reads the status once more for each of
/// them, reads the result after that and not before, and ends with it.
pub proof fn lemma_poll_until_complete<E>(busy: Seq<u16>, ready: u16, raw: u16)
    requires
        forall|i: int| 0 <= i < busy.len() ==> !conversion_complete(#[trigger] busy[i]),
        conversion_complete(ready),
    ensures
        requests(Phase::Poll, conversion_replies::<E>(busy, ready, raw)) == polls_then_fetch(
            busy.len(),
        ),
        outcome(Phase::Poll, conversion_replies::<E>(busy, ready, raw)) == Some(
            Ok::<u16, Error<E>>(raw),
        ),
    decreases busy.len(),
{
    let replies = conversion_replies::<E>(busy, ready, raw);
    let rest = replies.drop_first();
    if busy.len() == 0 {
        assert(replies[0] == Reply::<E>::Value(ready));
        assert(rest.len() == 1);
        assert(rest[0] == Reply::<E>::Value(raw));
        assert(requests(Phase::Fetch, rest) =~= Seq::<Request>::empty());
        assert(outcome(Phase::Fetch, rest) == Some(Ok::<u16, Error<E>>(raw)));
        assert(requests(Phase::Poll, replies) =~= polls_then_fetch(0));
    } else {
        assert(replies[0] == Reply::<E>::Value(busy[0]));
        assert(rest =~= conversion_replies::<E>(busy.drop_first(), ready, raw));
        lemma_poll_until_complete::<E>(busy.drop_first(), ready, raw);
        assert(requests(Phase::Poll, replies) =~= polls_then_fetch(busy.len()));
    }
}

/// A one-shot measurement on a device that reports a running conversion in
/// each of `busy` and then completion asks, after the write that starts the
/// conversion, for one status read more than `busy` has entries, then for
/// the result, and ends with that result.
pub proof fn lemma_one_shot_reads<E>(busy: Seq<u16>, ready: u16, raw: u16)
    requires
        forall|i: int| 0 <= i < busy.len() ==> !conversion_complete(#[trigger] busy[i]),
        conversion_complete(ready),
    ensures
        requests(
            Phase::Trigger,
            seq![Reply::<E>::Written] + conversion_replies::<E>(busy, ready, raw),
        ) == polls_then_fetch(busy.len() + 1),
        outcome(
            Phase::Trigger,
            seq![Reply::<E>::Written] + conversion_replies::<E>(busy, ready, raw),
        ) == Some(Ok::<u16, Error<E>>(raw)),
{
    let replies = seq![Reply::<E>::Written] + conversion_replies::<E>(busy, ready, raw);
    assert(replies[0] == Reply::<E>::Written);
    assert(replies.drop_first() =~= conversion_replies::<E>(busy, ready, raw));
    lemma_poll_until_complete::<E>(busy, ready, raw);
    assert(requests(Phase::Trigger, replies) =~= polls_then_fetch(busy.len() + 1));
}

/// The result is asked for only on a status that reports completion: no
/// other reply, in any phase, leads to a read of the conversion register.
pub proof fn lemma_fetch_follows_completion<E>(phase: Phase, reply: Reply<E>)
    ensures
        match phase.next(reply) {
            Progress::Continue(_, Request::Read { register }) => register == CONVERSION ==> (
            match reply {
                Reply::Value(status) => conversion_complete(status) && phase != Phase::Fetch,
                _ => false,
            }),
            _ => true,
        },
{
}

/// A measurement in continuous mode is over with the first value read: it
/// asks for no access after the read it began with.
pub proof fn lemma_continuous_reads_once<E>(raw: u16, later: Seq<Reply<E>>)
    ensures
        requests(Phase::Fetch, seq![Reply::<E>::Value(raw)] + later) == Seq::<Request>::empty(),
        outcome(Phase::Fetch, seq![Reply::<E>::Value(raw)] + later) == Some(
            Ok::<u16, Error<E>>(raw),
        ),
{
    let replies = seq![Reply::<E>::Value(raw)] + later;
    assert(replies[0] == Reply::<E>::Value(raw));
}

/// A failure of the bus ends a measurement at once, in whatever phase, and
/// is its outcome.
pub proof fn lemma_failure_ends<E>(phase: Phase, e: E, later: Seq<Reply<E>>)
    ensures
        requests(phase, seq![Reply::Failed(e)] + later) == Seq::<Request>::empty(),
        outcome(phase, seq![Reply::Failed(e)] + later) == Some(
            Err::<u16, Error<E>>(Error::Bus(e)),
        ),
{
    let replies = seq![Reply::Failed(e)] + later;
    assert(replies[0] == Reply::Failed(e));
}

} // verus!
