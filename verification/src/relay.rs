//! The bidirectional relay engine, as a verified state machine.
//!
//! A relay session pairs two already-connected byte streams and copies bytes
//! both ways until either direction reaches end-of-stream or an I/O error;
//! then both directions stop and both streams are released.  Any read or
//! write error, or a zero-length read, is an immediate terminate-both signal.
//! The surrounding binary performs the reads and writes and reports each
//! completed transfer (or failure) to a [`RelaySession`]; the model here
//! proves that within one direction no byte is dropped, duplicated or
//! reordered, and that an end-of-stream shutdown is clean, not an error.

use vstd::prelude::*;

verus! {

/// One direction of a relay session.
#[derive(Clone, Copy, Debug, PartialEq, Eq, Structural)]
pub enum Direction {
    AToB,
    BToA,
}

/// The mathematical model of a relay session: the bytes delivered so far in
/// each direction, whether the session has terminated, and whether it
/// terminated by fault rather than by a clean end-of-stream.
#[verifier::ext_equal]
pub struct RelayModel {
    pub forwarded_ab: Seq<u8>,
    pub forwarded_ba: Seq<u8>,
    pub closed: bool,
    pub faulted: bool,
}

/// A model-level event of a relay session: a chunk of bytes fully delivered
/// to the peer in one direction (a zero-length chunk is the end-of-stream
/// marker), or a read/write fault in either direction.
pub enum RelayEvent {
    Delivered(Direction, Seq<u8>),
    Fault,
}

/// The model of a freshly paired session: nothing delivered, both directions
/// live.
pub open spec fn relay_init() -> RelayModel {
    RelayModel { forwarded_ab: Seq::empty(), forwarded_ba: Seq::empty(), closed: false, faulted: false }
}

/// One transition of the relay model.  A delivered chunk extends its
/// direction's stream; a zero-length chunk (end of stream) or a fault closes
/// the whole session, both directions at once.  A closed session ignores
/// every further event.
pub open spec fn relay_step(m: RelayModel, ev: RelayEvent) -> RelayModel {
    if m.closed {
        m
    } else {
        match ev {
            RelayEvent::Delivered(d, data) => RelayModel {
                forwarded_ab: if d == Direction::AToB {
                    m.forwarded_ab + data
                } else {
                    m.forwarded_ab
                },
                forwarded_ba: if d == Direction::BToA {
                    m.forwarded_ba + data
                } else {
                    m.forwarded_ba
                },
                closed: data.len() == 0,
                faulted: m.faulted,
            },
            RelayEvent::Fault => RelayModel { closed: true, faulted: true, ..m },
        }
    }
}

/// The model after a whole sequence of events, applied in order.
pub open spec fn relay_run(m: RelayModel, evs: Seq<RelayEvent>) -> RelayModel
    decreases evs.len(),
{
    if evs.len() == 0 {
        m
    } else {
        relay_run(relay_step(m, evs[0]), evs.drop_first())
    }
}

/// The concatenation of a sequence of byte chunks, in order.
pub open spec fn concat_chunks(chunks: Seq<Seq<u8>>) -> Seq<u8>
    decreases chunks.len(),
{
    if chunks.len() == 0 {
        Seq::empty()
    } else {
        chunks[0] + concat_chunks(chunks.drop_first())
    }
}

/// The chunks delivered in direction `d` among `evs`, in arrival order.
pub open spec fn chunks_of(evs: Seq<RelayEvent>, d: Direction) -> Seq<Seq<u8>>
    decreases evs.len(),
{
    if evs.len() == 0 {
        Seq::empty()
    } else {
        let rest = chunks_of(evs.drop_first(), d);
        match evs[0] {
            RelayEvent::Delivered(d2, data) => if d2 == d {
                seq![data] + rest
            } else {
                rest
            },
            RelayEvent::Fault => rest,
        }
    }
}

/// Stream integrity: however deliveries in the two directions interleave, as
/// long as no fault and no end-of-stream occurs, the bytes forwarded in each
/// direction are exactly the concatenation of that direction's chunks in
/// arrival order — no byte dropped, duplicated or reordered.
pub proof fn lemma_relay_stream_integrity(m: RelayModel, evs: Seq<RelayEvent>)
    requires
        !m.closed,
        forall|i: int|
            0 <= i < evs.len() ==> (#[trigger] evs[i] matches RelayEvent::Delivered(d, data)
                && data.len() > 0),
    ensures
        !relay_run(m, evs).closed,
        relay_run(m, evs).faulted == m.faulted,
        relay_run(m, evs).forwarded_ab == m.forwarded_ab + concat_chunks(
            chunks_of(evs, Direction::AToB),
        ),
        relay_run(m, evs).forwarded_ba == m.forwarded_ba + concat_chunks(
            chunks_of(evs, Direction::BToA),
        ),
    decreases evs.len(),
{
    if evs.len() == 0 {
        assert(m.forwarded_ab + concat_chunks(chunks_of(evs, Direction::AToB)) =~= m.forwarded_ab);
        assert(m.forwarded_ba + concat_chunks(chunks_of(evs, Direction::BToA)) =~= m.forwarded_ba);
    } else {
        let ev0 = evs[0];
        let d0 = ev0->Delivered_0;
        let data = ev0->Delivered_1;
        let m1 = relay_step(m, ev0);
        lemma_relay_stream_integrity(m1, evs.drop_first());
        let rest_ab = chunks_of(evs.drop_first(), Direction::AToB);
        let rest_ba = chunks_of(evs.drop_first(), Direction::BToA);
        if d0 == Direction::AToB {
            assert(chunks_of(evs, Direction::AToB) == seq![data] + rest_ab);
            assert((seq![data] + rest_ab).drop_first() =~= rest_ab);
            assert(concat_chunks(seq![data] + rest_ab) == data + concat_chunks(rest_ab));
            assert(m.forwarded_ab + (data + concat_chunks(rest_ab)) =~= (m.forwarded_ab + data)
                + concat_chunks(rest_ab));
            assert(chunks_of(evs, Direction::BToA) == rest_ba);
        } else {
            assert(chunks_of(evs, Direction::BToA) == seq![data] + rest_ba);
            assert((seq![data] + rest_ba).drop_first() =~= rest_ba);
            assert(concat_chunks(seq![data] + rest_ba) == data + concat_chunks(rest_ba));
            assert(m.forwarded_ba + (data + concat_chunks(rest_ba)) =~= (m.forwarded_ba + data)
                + concat_chunks(rest_ba));
            assert(chunks_of(evs, Direction::AToB) == rest_ab);
        }
    }
}

/// Running one more event is one more step.
pub proof fn lemma_relay_run_snoc(m: RelayModel, evs: Seq<RelayEvent>, ev: RelayEvent)
    ensures
        relay_run(m, evs.push(ev)) == relay_step(relay_run(m, evs), ev),
    decreases evs.len(),
{
    if evs.len() == 0 {
        assert(evs.push(ev)[0] == ev);
        assert(evs.push(ev).drop_first() =~= Seq::<RelayEvent>::empty());
        assert(relay_run(relay_step(m, ev), Seq::<RelayEvent>::empty()) == relay_step(m, ev));
        assert(relay_run(m, evs.push(ev)) == relay_step(m, ev));
    } else {
        assert(evs.push(ev)[0] == evs[0]);
        assert(evs.push(ev).drop_first() =~= evs.drop_first().push(ev));
        lemma_relay_run_snoc(relay_step(m, evs[0]), evs.drop_first(), ev);
    }
}

/// A whole session: after any interleaving of nonempty deliveries in the two
/// directions and one final end-of-stream on either leg, the session is
/// closed cleanly — no fault — and each direction forwarded exactly its own
/// chunks, in arrival order.
pub proof fn lemma_relay_session_complete(evs: Seq<RelayEvent>, d: Direction)
    requires
        forall|i: int|
            0 <= i < evs.len() ==> (#[trigger] evs[i] matches RelayEvent::Delivered(dd, data)
                && data.len() > 0),
    ensures
        ({
            let done = relay_run(relay_init(), evs.push(RelayEvent::Delivered(d, Seq::empty())));
            &&& done.closed
            &&& !done.faulted
            &&& done.forwarded_ab == concat_chunks(chunks_of(evs, Direction::AToB))
            &&& done.forwarded_ba == concat_chunks(chunks_of(evs, Direction::BToA))
        }),
{
    let active = relay_run(relay_init(), evs);
    lemma_relay_stream_integrity(relay_init(), evs);
    lemma_relay_run_snoc(relay_init(), evs, RelayEvent::Delivered(d, Seq::empty()));
    let done = relay_step(active, RelayEvent::Delivered(d, Seq::empty()));
    assert(done.forwarded_ab =~= active.forwarded_ab);
    assert(done.forwarded_ba =~= active.forwarded_ba);
    assert(active.forwarded_ab =~= concat_chunks(chunks_of(evs, Direction::AToB)));
    assert(active.forwarded_ba =~= concat_chunks(chunks_of(evs, Direction::BToA)));
}

/// Closing either leg closes the other at once, and the end-of-stream path
/// (a zero-length read) is not reported as an error.
pub proof fn lemma_eof_closes_both_cleanly(m: RelayModel, d: Direction)
    requires
        !m.closed,
    ensures
        relay_step(m, RelayEvent::Delivered(d, Seq::empty())).closed,
        relay_step(m, RelayEvent::Delivered(d, Seq::empty())).faulted == m.faulted,
{
}

/// Termination is idempotent: a closed session is unchanged by every further
/// event, so the second leg's own shutdown reports nothing new.
pub proof fn lemma_closed_is_final(m: RelayModel, ev: RelayEvent)
    requires
        m.closed,
    ensures
        relay_step(m, ev) == m,
{
}

/// One live relay session, as driven by the binary: after every completed
/// `write_all` of a read chunk it records the delivery, and on any read or
/// write failure it records the fault; the session decides when the loop
/// stops.  The delivered streams themselves are ghost state, tied to the
/// model by the method contracts.
pub struct RelaySession {
    closed: bool,
    faulted: bool,
    forwarded_ab: Ghost<Seq<u8>>,
    forwarded_ba: Ghost<Seq<u8>>,
}

impl View for RelaySession {
    type V = RelayModel;

    closed spec fn view(&self) -> RelayModel {
        RelayModel {
            forwarded_ab: self.forwarded_ab@,
            forwarded_ba: self.forwarded_ba@,
            closed: self.closed,
            faulted: self.faulted,
        }
    }
}

impl RelaySession {
    /// A freshly paired session.
    pub fn new() -> (s: Self)
        ensures
            s@ == relay_init(),
    {
        let s = RelaySession {
            closed: false,
            faulted: false,
            forwarded_ab: Ghost(Seq::empty()),
            forwarded_ba: Ghost(Seq::empty()),
        };
        proof {
            assert(s@ =~= relay_init());
        }
        s
    }

    /// Records that `data` was read in direction `dir` and fully written to
    /// the peer.  A zero-length chunk is the end-of-stream signal and closes
    /// the session cleanly.
    pub fn on_write_done(&mut self, dir: Direction, data: &Vec<u8>)
        requires
            !old(self)@.closed,
        ensures
            final(self)@ == relay_step(old(self)@, RelayEvent::Delivered(dir, data@)),
            final(self)@.closed == (data@.len() == 0),
            final(self)@.faulted == old(self)@.faulted,
    {
        match dir {
            Direction::AToB => {
                self.forwarded_ab = Ghost(self.forwarded_ab@ + data@);
            },
            Direction::BToA => {
                self.forwarded_ba = Ghost(self.forwarded_ba@ + data@);
            },
        }
        self.closed = data.len() == 0;
        proof {
            assert(self@ =~= relay_step(old(self)@, RelayEvent::Delivered(dir, data@)));
        }
    }

    /// Records a read or write failure in either direction: the session
    /// terminates at once, both directions, and the termination is a fault.
    pub fn on_error(&mut self)
        requires
            !old(self)@.closed,
        ensures
            final(self)@ == relay_step(old(self)@, RelayEvent::Fault),
            final(self)@.closed,
            final(self)@.faulted,
    {
        self.closed = true;
        self.faulted = true;
        proof {
            assert(self@ =~= relay_step(old(self)@, RelayEvent::Fault));
        }
    }

    /// Whether the session has terminated (the relay loop must stop).
    pub fn is_closed(&self) -> (b: bool)
        ensures
            b == self@.closed,
    {
        self.closed
    }

    /// Whether the session terminated by fault rather than by a clean
    /// end-of-stream.
    pub fn is_faulted(&self) -> (b: bool)
        ensures
            b == self@.faulted,
    {
        self.faulted
    }
}

} // verus!
