//! The event multiplexer: one bounded FIFO channel shared by every
//! session's forwarder.
//!
//! Each session has a forwarder that pushes that session's events, in
//! emission order, into the shared queue; the control loop is the single
//! consumer. The queue is bounded on purpose: when the consumer falls
//! behind, a send is refused (the forwarder blocks and retries) rather
//! than an event being dropped, so delivery stays complete and, per
//! session, ordered. The lemmas at the bottom prove that ordering claim:
//! in a FIFO stream, two events of the same session keep their relative
//! order in that session's projection, however other sessions' events
//! interleave with them.

use vstd::prelude::*;

use crate::events::Envelope;
use crate::events::SessionEvent;

verus! {

/// Default bound of the shared channel: how many envelopes may be pending
/// before producers block.
pub const DEFAULT_CAPACITY: usize = 100;

/// The shared bounded FIFO queue of tagged session events.
pub struct Mux {
    pending: Vec<Envelope>,
    capacity: usize,
}

impl View for Mux {
    type V = Seq<Envelope>;

    closed spec fn view(&self) -> Seq<Envelope> {
        self.pending@
    }
}

impl Mux {
    /// The bound the queue was created with.
    pub closed spec fn spec_capacity(&self) -> usize {
        self.capacity
    }

    /// The queue never holds more than its bound.
    pub open spec fn wf(&self) -> bool {
        self@.len() <= self.spec_capacity()
    }

    /// An empty queue bounded at `capacity`.
    pub fn new(capacity: usize) -> (m: Mux)
        requires
            capacity >= 1,
        ensures
            m.wf(),
            m@ == Seq::<Envelope>::empty(),
            m.spec_capacity() == capacity,
    {
        Mux { pending: Vec::new(), capacity }
    }

    /// Number of envelopes waiting to be consumed.
    pub fn len(&self) -> (n: usize)
        ensures
            n == self@.len(),
    {
        self.pending.len()
    }

    /// The bound the queue was created with.
    pub fn capacity(&self) -> (c: usize)
        ensures
            c == self.spec_capacity(),
    {
        self.capacity
    }

    /// A forwarder offers one envelope. The queue accepts it exactly when
    /// it is not full; a refused envelope comes back to the forwarder and
    /// the queue is untouched, so the forwarder holds the event and tries
    /// again — backpressure never loses an event.
    pub fn try_send(&mut self, env: Envelope) -> (refused: Option<Envelope>)
        requires
            old(self).wf(),
        ensures
            final(self).wf(),
            final(self).spec_capacity() == old(self).spec_capacity(),
            old(self)@.len() < old(self).spec_capacity() ==> refused is None && final(self)@
                == old(self)@.push(env),
            old(self)@.len() >= old(self).spec_capacity() ==> refused == Some(env) && final(self)@
                == old(self)@,
    {
        if self.pending.len() < self.capacity {
            self.pending.push(env);
            None
        } else {
            Some(env)
        }
    }

    /// The consumer takes the oldest envelope, or nothing when the queue
    /// is empty: delivery order is exactly arrival order.
    pub fn recv(&mut self) -> (r: Option<Envelope>)
        requires
            old(self).wf(),
        ensures
            final(self).wf(),
            final(self).spec_capacity() == old(self).spec_capacity(),
            old(self)@.len() == 0 ==> r is None && final(self)@ == old(self)@,
            old(self)@.len() > 0 ==> {
                match r {
                    Some(e) => e == old(self)@[0] && final(self)@ == old(self)@.drop_first(),
                    None => false,
                }
            },
    {
        if self.pending.len() == 0 {
            None
        } else {
            let e = self.pending.remove(0);
            proof {
                assert(self@ =~= old(self)@.drop_first());
            }
            Some(e)
        }
    }
}

/// The subsequence of events in `s` that session `id` emitted, in stream
/// order.
pub open spec fn session_events(s: Seq<Envelope>, id: u64) -> Seq<SessionEvent>
    decreases s.len(),
{
    if s.len() == 0 {
        Seq::empty()
    } else {
        let rest = session_events(s.drop_first(), id);
        if s[0].id == id {
            seq![s[0].event] + rest
        } else {
            rest
        }
    }
}

/// Appending one envelope extends exactly its own session's projection,
/// by exactly that event, and leaves every other session's projection
/// unchanged.
pub proof fn lemma_session_events_push(s: Seq<Envelope>, e: Envelope, id: u64)
    ensures
        e.id == id ==> session_events(s.push(e), id) == session_events(s, id).push(e.event),
        e.id != id ==> session_events(s.push(e), id) == session_events(s, id),
    decreases s.len(),
{
    if s.len() == 0 {
        assert(s.push(e).drop_first() =~= s);
        assert(session_events(s, id) =~= Seq::<SessionEvent>::empty());
        if e.id == id {
            assert(session_events(s.push(e), id) =~= session_events(s, id).push(e.event));
        } else {
            assert(session_events(s.push(e), id) =~= session_events(s, id));
        }
    } else {
        assert(s.push(e).drop_first() =~= s.drop_first().push(e));
        lemma_session_events_push(s.drop_first(), e, id);
        if e.id == id {
            assert(session_events(s.push(e), id) =~= session_events(s, id).push(e.event));
        } else {
            assert(session_events(s.push(e), id) =~= session_events(s, id));
        }
    }
}

/// A session's projection distributes over splitting the stream: what a
/// session emitted into the whole stream is what it emitted into the
/// part already consumed followed by what is still pending.
pub proof fn lemma_session_events_concat(a: Seq<Envelope>, b: Seq<Envelope>, id: u64)
    ensures
        session_events(a + b, id) == session_events(a, id) + session_events(b, id),
    decreases a.len(),
{
    if a.len() == 0 {
        assert(a + b =~= b);
        assert(session_events(a, id) + session_events(b, id) =~= session_events(b, id));
    } else {
        assert((a + b).drop_first() =~= a.drop_first() + b);
        assert((a + b)[0] == a[0]);
        lemma_session_events_concat(a.drop_first(), b, id);
        assert(session_events(a + b, id) =~= session_events(a, id) + session_events(b, id));
    }
}

/// Extending the consumed prefix by one envelope extends the projection
/// of that prefix by that envelope's event exactly when it belongs to the
/// session.
pub proof fn lemma_projection_take_step(s: Seq<Envelope>, id: u64, i: int)
    requires
        0 <= i < s.len(),
    ensures
        s[i].id == id ==> session_events(s.take(i + 1), id) == session_events(s.take(i), id).push(
            s[i].event,
        ),
        s[i].id != id ==> session_events(s.take(i + 1), id) == session_events(s.take(i), id),
{
    assert(s.take(i + 1) =~= s.take(i).push(s[i]));
    lemma_session_events_push(s.take(i), s[i], id);
}

/// The projection of a longer consumed prefix is never shorter.
pub proof fn lemma_projection_count_monotone(s: Seq<Envelope>, id: u64, i: int, j: int)
    requires
        0 <= i <= j <= s.len(),
    ensures
        session_events(s.take(i), id).len() <= session_events(s.take(j), id).len(),
    decreases j - i,
{
    if i < j {
        lemma_projection_take_step(s, id, j - 1);
        lemma_projection_count_monotone(s, id, i, j - 1);
    }
}

/// The envelope at position `i` of the stream lands in its session's
/// projection at the position counting that session's earlier envelopes.
pub proof fn lemma_projection_position(s: Seq<Envelope>, id: u64, i: int)
    requires
        0 <= i < s.len(),
        s[i].id == id,
    ensures
        session_events(s.take(i), id).len() < session_events(s, id).len(),
        session_events(s, id)[session_events(s.take(i), id).len() as int] == s[i].event,
    decreases i,
{
    if i == 0 {
        assert(s.take(0) =~= Seq::<Envelope>::empty());
    } else {
        let rest = s.drop_first();
        lemma_projection_position(rest, id, i - 1);
        assert(s.take(i).drop_first() =~= rest.take(i - 1));
        assert(s.take(i)[0] == s[0]);
        assert(rest[i - 1] == s[i]);
    }
}

/// Per-session ordering through the FIFO multiplexer: if session `id`
/// emitted the envelope at stream position `i` before the one at `j`,
/// then in that session's projection of the stream — which is what the
/// control loop observes for that session, however other sessions'
/// envelopes interleave — the first still comes strictly before the
/// second, carrying the same events.
pub proof fn lemma_fifo_preserves_session_order(s: Seq<Envelope>, id: u64, i: int, j: int)
    requires
        0 <= i < j < s.len(),
        s[i].id == id,
        s[j].id == id,
    ensures
        session_events(s.take(i), id).len() < session_events(s.take(j), id).len(),
        session_events(s.take(j), id).len() < session_events(s, id).len(),
        session_events(s, id)[session_events(s.take(i), id).len() as int] == s[i].event,
        session_events(s, id)[session_events(s.take(j), id).len() as int] == s[j].event,
{
    lemma_projection_position(s, id, i);
    lemma_projection_position(s, id, j);
    lemma_projection_take_step(s, id, i);
    lemma_projection_count_monotone(s, id, i + 1, j);
}

} // verus!
