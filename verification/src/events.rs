//! The ordered stream of progress events that a job reports: update events
//! carry a status line and a completion fraction, and a run ends with exactly
//! one terminal event. The stream enforces two laws: emitted fractions never
//! decrease, and nothing follows a terminal event.

use vstd::prelude::*;

verus! {

/// Full scale of a completion fraction: `FRACTION_FULL` stands for 1.0.
pub const FRACTION_FULL: u32 = 10000;

/// One event of a job's progress stream.
#[derive(Clone, Debug, PartialEq, Eq)]
pub enum ProgressEvent {
    Update { message: String, fraction: u32 },
    Finished,
    Error { message: String },
}

/// The event is an update.
pub open spec fn ev_is_update(e: ProgressEvent) -> bool {
    e is Update
}

/// The event is terminal: it ends the job's stream.
pub open spec fn ev_is_terminal(e: ProgressEvent) -> bool {
    e is Finished || e is Error
}

/// The fraction an update carries.
pub open spec fn ev_fraction(e: ProgressEvent) -> u32
    recommends
        e is Update,
{
    e->Update_fraction
}

/// The message an event carries; empty for `Finished`.
pub open spec fn ev_message(e: ProgressEvent) -> Seq<char> {
    match e {
        ProgressEvent::Update { message, .. } => message@,
        ProgressEvent::Error { message } => message@,
        ProgressEvent::Finished => Seq::empty(),
    }
}

/// `cur` is `prev` with one update event of the given message and fraction
/// appended.
pub open spec fn pushed_update(
    prev: Seq<ProgressEvent>,
    cur: Seq<ProgressEvent>,
    message: Seq<char>,
    fraction: u32,
) -> bool {
    &&& cur.len() == prev.len() + 1
    &&& cur.subrange(0, prev.len() as int) == prev
    &&& ev_is_update(cur.last())
    &&& ev_message(cur.last()) == message
    &&& ev_fraction(cur.last()) == fraction
}

/// `cur` is `prev` with the failing terminal event of the given message
/// appended.
pub open spec fn pushed_error(
    prev: Seq<ProgressEvent>,
    cur: Seq<ProgressEvent>,
    message: Seq<char>,
) -> bool {
    &&& cur.len() == prev.len() + 1
    &&& cur.subrange(0, prev.len() as int) == prev
    &&& cur.last() is Error
    &&& ev_message(cur.last()) == message
}

/// `cur` is `prev` with the successful terminal event appended.
pub open spec fn pushed_finished(prev: Seq<ProgressEvent>, cur: Seq<ProgressEvent>) -> bool {
    &&& cur.len() == prev.len() + 1
    &&& cur.subrange(0, prev.len() as int) == prev
    &&& cur.last() is Finished
}

/// How a stream reacts to an offered update: it is appended when the stream
/// is still open and the fraction does not regress, and otherwise the stream
/// stays as it was.
pub open spec fn offered_update(
    pre: EventStream,
    post: EventStream,
    message: Seq<char>,
    fraction: u32,
) -> bool {
    &&& post.spec_terminated() == pre.spec_terminated()
    &&& (!pre.spec_terminated() && fraction >= pre.spec_last_fraction() ==> pushed_update(
        pre.log(),
        post.log(),
        message,
        fraction,
    ) && post.spec_last_fraction() == fraction)
    &&& (pre.spec_terminated() || fraction < pre.spec_last_fraction() ==> post.log()
        == pre.log() && post.spec_last_fraction() == pre.spec_last_fraction())
}

/// The ordered event stream of one job. Update events pass only if their
/// fraction does not fall below the last one emitted, and once a terminal
/// event is recorded nothing further is.
pub struct EventStream {
    events: Vec<ProgressEvent>,
    last_fraction: u32,
    terminated: bool,
}

impl EventStream {
    /// The events recorded so far, in emission order.
    pub closed spec fn log(&self) -> Seq<ProgressEvent> {
        self.events@
    }

    /// The fraction of the most recent update that was recorded.
    pub closed spec fn spec_last_fraction(&self) -> u32 {
        self.last_fraction
    }

    /// Whether a terminal event has been recorded.
    pub closed spec fn spec_terminated(&self) -> bool {
        self.terminated
    }

    /// Well-formedness: fractions within scale and non-decreasing along the
    /// log, and a terminal event only as the last element.
    pub open spec fn inv(&self) -> bool {
        &&& self.spec_last_fraction() <= FRACTION_FULL
        &&& (self.spec_terminated() <==> self.log().len() > 0 && ev_is_terminal(
            self.log().last(),
        ))
        &&& forall|i: int|
            0 <= i < self.log().len() && ev_is_terminal(#[trigger] self.log()[i])
                ==> i == self.log().len() - 1
        &&& forall|i: int|
            0 <= i < self.log().len() && ev_is_update(#[trigger] self.log()[i]) ==> ev_fraction(
                self.log()[i],
            ) <= self.spec_last_fraction()
        &&& forall|i: int, j: int|
            0 <= i <= j < self.log().len() && ev_is_update(#[trigger] self.log()[i])
                && ev_is_update(#[trigger] self.log()[j]) ==> ev_fraction(self.log()[i])
                <= ev_fraction(self.log()[j])
    }

    /// A fresh, empty stream.
    pub fn new() -> (r: EventStream)
        ensures
            r.inv(),
            r.log().len() == 0,
            !r.spec_terminated(),
            r.spec_last_fraction() == 0,
    {
        EventStream { events: Vec::new(), last_fraction: 0, terminated: false }
    }

    /// Offers an update to the stream. It is recorded only if the stream is
    /// still open and the fraction does not regress; otherwise the stream is
    /// unchanged.
    pub fn update(&mut self, message: String, fraction: u32) -> (emitted: bool)
        requires
            old(self).inv(),
            fraction <= FRACTION_FULL,
        ensures
            final(self).inv(),
            offered_update(*old(self), *final(self), message@, fraction),
            emitted == (!old(self).spec_terminated() && fraction >= old(self).spec_last_fraction()),
            final(self).spec_terminated() == old(self).spec_terminated(),
            emitted ==> {
                &&& final(self).log().len() == old(self).log().len() + 1
                &&& final(self).log().subrange(0, old(self).log().len() as int) == old(self).log()
                &&& ev_is_update(final(self).log().last())
                &&& ev_message(final(self).log().last()) == message@
                &&& ev_fraction(final(self).log().last()) == fraction
                &&& final(self).spec_last_fraction() == fraction
            },
            !emitted ==> final(self).log() == old(self).log() && final(self).spec_last_fraction() == old(self).spec_last_fraction(),
    {
        if self.terminated || fraction < self.last_fraction {
            return false;
        }
        self.events.push(ProgressEvent::Update { message, fraction });
        self.last_fraction = fraction;
        proof {
            assert(self.events@.subrange(0, old(self).events@.len() as int) =~= old(self).events@);
            assert forall|i: int|
                0 <= i < self.log().len() && ev_is_terminal(#[trigger] self.log()[i]) implies i
                == self.log().len() - 1 by {
                if i < old(self).log().len() {
                    assert(self.log()[i] == old(self).log()[i]);
                    assert(i == old(self).log().len() - 1);
                    assert(ev_is_terminal(old(self).log().last()));
                }
            }
        }
        true
    }

    /// Records the successful terminal event. The stream must still be open.
    pub fn finish(&mut self)
        requires
            old(self).inv(),
            !old(self).spec_terminated(),
        ensures
            final(self).inv(),
            final(self).spec_terminated(),
            pushed_finished(old(self).log(), final(self).log()),
            final(self).spec_last_fraction() == old(self).spec_last_fraction(),
    {
        self.events.push(ProgressEvent::Finished);
        self.terminated = true;
        proof {
            assert(self.events@.subrange(0, old(self).events@.len() as int) =~= old(self).events@);
            assert forall|i: int|
                0 <= i < self.log().len() && ev_is_terminal(#[trigger] self.log()[i]) implies i
                == self.log().len() - 1 by {
                if i < old(self).log().len() {
                    assert(self.log()[i] == old(self).log()[i]);
                }
            }
        }
    }

    /// Records the failing terminal event with its message. The stream must
    /// still be open.
    pub fn fail(&mut self, message: String)
        requires
            old(self).inv(),
            !old(self).spec_terminated(),
        ensures
            final(self).inv(),
            final(self).spec_terminated(),
            pushed_error(old(self).log(), final(self).log(), message@),
            final(self).spec_last_fraction() == old(self).spec_last_fraction(),
    {
        self.events.push(ProgressEvent::Error { message });
        self.terminated = true;
        proof {
            assert(self.events@.subrange(0, old(self).events@.len() as int) =~= old(self).events@);
            assert forall|i: int|
                0 <= i < self.log().len() && ev_is_terminal(#[trigger] self.log()[i]) implies i
                == self.log().len() - 1 by {
                if i < old(self).log().len() {
                    assert(self.log()[i] == old(self).log()[i]);
                }
            }
        }
    }

    /// How many events have been recorded.
    pub fn len(&self) -> (n: usize)
        ensures
            n == self.log().len(),
    {
        self.events.len()
    }

    /// The event at position `i`.
    pub fn get(&self, i: usize) -> (e: &ProgressEvent)
        requires
            i < self.log().len(),
        ensures
            *e == self.log()[i as int],
    {
        &self.events[i]
    }

    /// Whether a terminal event has been recorded.
    pub fn is_terminated(&self) -> (b: bool)
        ensures
            b == self.spec_terminated(),
    {
        self.terminated
    }

    /// The fraction of the most recent update that was recorded.
    pub fn last_emitted_fraction(&self) -> (f: u32)
        ensures
            f == self.spec_last_fraction(),
    {
        self.last_fraction
    }

    /// Every update event's fraction lies on the reported scale: none
    /// exceeds full.
    pub proof fn lemma_fractions_within_scale(&self, i: int)
        requires
            self.inv(),
            0 <= i < self.log().len(),
            ev_is_update(self.log()[i]),
        ensures
            ev_fraction(self.log()[i]) <= FRACTION_FULL,
    {
    }

    /// Monotonic progress: along one stream, the fractions of any two update
    /// events never decrease.
    pub proof fn lemma_updates_monotonic(&self, i: int, j: int)
        requires
            self.inv(),
            0 <= i <= j < self.log().len(),
            ev_is_update(self.log()[i]),
            ev_is_update(self.log()[j]),
        ensures
            ev_fraction(self.log()[i]) <= ev_fraction(self.log()[j]),
    {
    }

    /// Exactly one terminal event: once the stream is terminated, its log
    /// holds one `Finished` or `Error`, and it is the last element.
    pub proof fn lemma_single_terminal(&self)
        requires
            self.inv(),
            self.spec_terminated(),
        ensures
            self.log().len() > 0,
            ev_is_terminal(self.log().last()),
            forall|i: int|
                0 <= i < self.log().len() - 1 ==> !ev_is_terminal(#[trigger] self.log()[i]),
    {
    }
}

} // verus!
