//! The ingestion loop's decisions.
//!
//! The server that owns the socket alternates between receiving a
//! datagram and honoring a shutdown request.  Everything it decides —
//! which decoded records go to the output sink, and when the sink's
//! buffer is flushed — is computed here, from the datagram bytes and the
//! server's own state, as a [`Directive`] that the surrounding loop
//! carries out.  The loop itself (socket, signal channel, sink) stays
//! outside the library.
//!
//! Per cycle: a datagram that is too short is dropped and the loop goes
//! on; a decoded record with the race flag off is not forwarded but
//! forces a flush (a natural batching boundary); a record with the race
//! flag on is forwarded, and every `flush_interval`-th forwarded record
//! forces a periodic flush, bounding data loss on abnormal termination.
//! A shutdown request forces one final flush and terminates the loop;
//! it is the only clean exit.

use vstd::prelude::*;

use crate::packet::{spec_packet, Packet, MIN_PACKET_LEN};

verus! {

/// Records forwarded between two periodic flushes when no interval is
/// configured explicitly.
pub const DEFAULT_FLUSH_INTERVAL: usize = 1000;

/// Whether the receive loop is still running or has honored a shutdown.
#[derive(Clone, Copy, Debug, PartialEq, Eq, Structural)]
pub enum ServerState {
    /// The receive/dispatch cycle is active.
    Running,
    /// A shutdown request was honored; nothing further is received,
    /// forwarded or flushed.
    Terminated,
}

/// What the surrounding loop must do with the sink after one event:
/// forward the record (if any), then flush the sink's buffer (if asked).
#[derive(Clone, Copy, Debug, PartialEq, Eq, Structural)]
pub struct Directive {
    /// The record to hand to the sink's `record`, if any.
    pub forward: Option<Packet>,
    /// Whether to call the sink's `flush` afterwards.
    pub flush: bool,
}

/// The ingestion server's decision state: how many records have been
/// forwarded since the last periodic flush, and whether the loop still
/// runs.
#[derive(Clone, Copy, Debug, PartialEq, Eq, Structural)]
pub struct Server {
    pub state: ServerState,
    /// Periodic flush interval: every `flush_interval`-th forwarded
    /// record forces a flush.  Always positive.
    pub flush_interval: usize,
    /// Records forwarded since the last periodic flush; always below
    /// `flush_interval`.
    pub pending: usize,
}

/// An event the receive loop can observe: a datagram, or the shutdown
/// request (a closed shutdown channel counts as one).
pub enum Event {
    Datagram(Seq<u8>),
    Shutdown,
}

impl Server {
    /// The server's invariant: a positive interval, with fewer records
    /// pending than the interval.
    pub open spec fn wf(self) -> bool {
        0 < self.flush_interval && self.pending < self.flush_interval
    }

    /// A fresh server with nothing forwarded yet.
    pub fn new(flush_interval: usize) -> (s: Server)
        requires
            0 < flush_interval,
        ensures
            s == (Server { state: ServerState::Running, flush_interval, pending: 0 }),
            s.wf(),
    {
        Server { state: ServerState::Running, flush_interval, pending: 0 }
    }

    /// Handles one datagram: exactly [`spec_step`] on the bytes.
    pub fn on_datagram(&mut self, data: &[u8]) -> (d: Directive)
        requires
            old(self).wf(),
            old(self).state is Running,
        ensures
            *final(self) == spec_step(*old(self), data@).0,
            d == spec_step(*old(self), data@).1,
            final(self).wf(),
            final(self).state is Running,
    {
        match Packet::new(data) {
            Err(_) => Directive { forward: None, flush: false },
            Ok(p) => {
                if !p.is_race_on {
                    Directive { forward: None, flush: true }
                } else {
                    let next: usize = self.pending + 1;
                    if next == self.flush_interval {
                        self.pending = 0;
                        Directive { forward: Some(p), flush: true }
                    } else {
                        self.pending = next;
                        Directive { forward: Some(p), flush: false }
                    }
                }
            },
        }
    }

    /// Honors the shutdown request: exactly [`spec_shutdown`].  The one
    /// clean exit: one final flush, then the terminated state, in which
    /// nothing further may be forwarded or flushed.
    pub fn on_shutdown(&mut self) -> (d: Directive)
        requires
            old(self).wf(),
            old(self).state is Running,
        ensures
            *final(self) == spec_shutdown(*old(self)).0,
            d == spec_shutdown(*old(self)).1,
            final(self).wf(),
            final(self).state is Terminated,
            d.flush,
            d.forward is None,
    {
        self.state = ServerState::Terminated;
        self.pending = 0;
        Directive { forward: None, flush: true }
    }
}

/// One datagram's effect on the server, and what the loop must do with
/// the sink for it.
pub open spec fn spec_step(s: Server, data: Seq<u8>) -> (Server, Directive) {
    if data.len() < MIN_PACKET_LEN {
        // Malformed input is absorbed: dropped, no sink call, loop goes on.
        (s, Directive { forward: None, flush: false })
    } else {
        let p = spec_packet(data);
        if !p.is_race_on {
            // Menu/pause sample: not a valid record, but a batching
            // boundary — flush without forwarding.
            (s, Directive { forward: None, flush: true })
        } else if s.pending + 1 == s.flush_interval {
            (
                Server { state: s.state, flush_interval: s.flush_interval, pending: 0 },
                Directive { forward: Some(p), flush: true },
            )
        } else {
            (
                Server {
                    state: s.state,
                    flush_interval: s.flush_interval,
                    pending: (s.pending + 1) as usize,
                },
                Directive { forward: Some(p), flush: false },
            )
        }
    }
}

/// The shutdown request's effect: one final flush, then termination.
pub open spec fn spec_shutdown(s: Server) -> (Server, Directive) {
    (
        Server { state: ServerState::Terminated, flush_interval: s.flush_interval, pending: 0 },
        Directive { forward: None, flush: true },
    )
}

/// One event's effect on the server.
pub open spec fn spec_event_step(s: Server, e: Event) -> (Server, Directive) {
    match e {
        Event::Datagram(data) => spec_step(s, data),
        Event::Shutdown => spec_shutdown(s),
    }
}

/// A whole run of the loop: the directives the sink sees, in order, for
/// a sequence of observed events.  A terminated server sees nothing:
/// the loop has returned, so no further sink call ever happens.
pub open spec fn spec_run(s: Server, events: Seq<Event>) -> (Server, Seq<Directive>)
    decreases events.len(),
{
    if events.len() == 0 || !(s.state is Running) {
        (s, Seq::empty())
    } else {
        let head = spec_event_step(s, events.first());
        let rest = spec_run(head.0, events.drop_first());
        (rest.0, seq![head.1] + rest.1)
    }
}

/// How many times a run of directives flushes the sink.
pub open spec fn count_flushes(ds: Seq<Directive>) -> nat
    decreases ds.len(),
{
    if ds.len() == 0 {
        0
    } else {
        (if ds.first().flush {
            1 as nat
        } else {
            0 as nat
        }) + count_flushes(ds.drop_first())
    }
}

/// How many records a run of directives forwards to the sink.
pub open spec fn count_forwards(ds: Seq<Directive>) -> nat
    decreases ds.len(),
{
    if ds.len() == 0 {
        0
    } else {
        (if ds.first().forward is Some {
            1 as nat
        } else {
            0 as nat
        }) + count_forwards(ds.drop_first())
    }
}

/// A datagram that decodes to a valid sample: long enough for the
/// schema, with the race flag on.
pub open spec fn is_valid_race(data: Seq<u8>) -> bool {
    data.len() >= MIN_PACKET_LEN && spec_packet(data).is_race_on
}

/// Every event is a datagram carrying a valid race-on sample.
pub open spec fn all_valid_race(events: Seq<Event>) -> bool {
    forall|i: int|
        0 <= i < events.len() ==> {
            &&& (#[trigger] events[i]) matches Event::Datagram(data)
            &&& is_valid_race(data)
        }
}

/// A datagram long enough to decode, whatever its race flag says.
pub open spec fn is_well_formed(data: Seq<u8>) -> bool {
    data.len() >= MIN_PACKET_LEN
}

/// Every event is a datagram long enough to decode.
pub open spec fn all_well_formed(events: Seq<Event>) -> bool {
    forall|i: int|
        0 <= i < events.len() ==> {
            &&& (#[trigger] events[i]) matches Event::Datagram(data)
            &&& is_well_formed(data)
        }
}

/// How many events carry a race-on sample (these are forwarded).
pub open spec fn count_race_on(events: Seq<Event>) -> nat
    decreases events.len(),
{
    if events.len() == 0 {
        0
    } else {
        (match events.first() {
            Event::Datagram(data) => if is_valid_race(data) {
                1 as nat
            } else {
                0 as nat
            },
            Event::Shutdown => 0 as nat,
        }) + count_race_on(events.drop_first())
    }
}

/// How many events carry a decodable race-off sample (each one is a
/// race-state transition that flushes without forwarding).
pub open spec fn count_race_off(events: Seq<Event>) -> nat
    decreases events.len(),
{
    if events.len() == 0 {
        0
    } else {
        (match events.first() {
            Event::Datagram(data) => if is_well_formed(data) && !is_valid_race(data) {
                1 as nat
            } else {
                0 as nat
            },
            Event::Shutdown => 0 as nat,
        }) + count_race_off(events.drop_first())
    }
}

/// Law: a decoded record with the race flag off is never forwarded to
/// the sink, but always forces a flush; the server itself is unchanged.
pub proof fn lemma_race_off_flushes(s: Server, data: Seq<u8>)
    requires
        data.len() >= MIN_PACKET_LEN,
        !spec_packet(data).is_race_on,
    ensures
        spec_step(s, data).1.forward is None,
        spec_step(s, data).1.flush,
        spec_step(s, data).0 == s,
{
}

/// Law: a truncated datagram is absorbed — nothing is forwarded,
/// nothing is flushed, and the server is unchanged.
pub proof fn lemma_truncated_absorbed(s: Server, data: Seq<u8>)
    requires
        data.len() < MIN_PACKET_LEN,
    ensures
        spec_step(s, data).1.forward is None,
        !spec_step(s, data).1.flush,
        spec_step(s, data).0 == s,
{
}

/// Law: a terminated server emits nothing more — no record is forwarded
/// and no flush happens, whatever events still arrive.
pub proof fn lemma_terminated_silent(s: Server, events: Seq<Event>)
    requires
        !(s.state is Running),
    ensures
        spec_run(s, events).0 == s,
        spec_run(s, events).1 == Seq::<Directive>::empty(),
        count_flushes(spec_run(s, events).1) == 0,
        count_forwards(spec_run(s, events).1) == 0,
{
}

/// Running a server over `a + b` is running it over `a`, then over `b`,
/// with the directives concatenated.
pub proof fn lemma_run_append(s: Server, a: Seq<Event>, b: Seq<Event>)
    ensures
        spec_run(s, a + b).0 == spec_run(spec_run(s, a).0, b).0,
        spec_run(s, a + b).1 == spec_run(s, a).1 + spec_run(spec_run(s, a).0, b).1,
    decreases a.len(),
{
    if !(s.state is Running) {
        assert(spec_run(s, a + b).1 =~= spec_run(s, a).1 + spec_run(spec_run(s, a).0, b).1);
    } else if a.len() == 0 {
        assert(a + b =~= b);
        assert(spec_run(s, a + b).1 =~= spec_run(s, a).1 + spec_run(spec_run(s, a).0, b).1);
    } else {
        let head = spec_event_step(s, a.first());
        assert((a + b).first() == a.first());
        assert((a + b).drop_first() =~= a.drop_first() + b);
        lemma_run_append(head.0, a.drop_first(), b);
        assert(spec_run(s, a + b).1 =~= spec_run(s, a).1 + spec_run(spec_run(s, a).0, b).1);
    }
}

/// Flush and forward counts add up over concatenated directive runs.
pub proof fn lemma_counts_append(a: Seq<Directive>, b: Seq<Directive>)
    ensures
        count_flushes(a + b) == count_flushes(a) + count_flushes(b),
        count_forwards(a + b) == count_forwards(a) + count_forwards(b),
    decreases a.len(),
{
    if a.len() == 0 {
        assert(a + b =~= b);
    } else {
        assert((a + b).first() == a.first());
        assert((a + b).drop_first() =~= a.drop_first() + b);
        lemma_counts_append(a.drop_first(), b);
    }
}

/// Running a well-formed server over valid race datagrams that do not
/// overrun the flush interval forwards every record, flushes exactly
/// once if the interval is reached exactly — on its last record — and
/// otherwise not at all, and leaves the server running.
pub proof fn lemma_run_counts(s: Server, events: Seq<Event>)
    requires
        s.wf(),
        s.state is Running,
        all_valid_race(events),
        s.pending + events.len() <= s.flush_interval,
    ensures
        spec_run(s, events).0.wf(),
        spec_run(s, events).0.state is Running,
        spec_run(s, events).0.flush_interval == s.flush_interval,
        spec_run(s, events).0.pending == if s.pending + events.len() == s.flush_interval {
            0int
        } else {
            s.pending + events.len()
        },
        count_forwards(spec_run(s, events).1) == events.len(),
        count_flushes(spec_run(s, events).1) == if s.pending + events.len() == s.flush_interval {
            1int
        } else {
            0int
        },
    decreases events.len(),
{
    if events.len() == 0 {
    } else {
        assert({
            &&& events[0] matches Event::Datagram(data)
            &&& is_valid_race(data)
        });
        let head = spec_event_step(s, events.first());
        let rest = events.drop_first();
        assert(forall|i: int|
            0 <= i < rest.len() ==> (#[trigger] rest[i]) == events[i + 1]);
        lemma_run_counts(head.0, rest);
        let ds = spec_run(s, events).1;
        assert(ds == seq![head.1] + spec_run(head.0, rest).1);
        assert(ds.first() == head.1);
        assert(ds.drop_first() =~= spec_run(head.0, rest).1);
    }
}

/// Running a well-formed server over decodable datagrams whose race-on
/// samples do not overrun the flush interval: every race-on sample is
/// forwarded; every race-off sample flushes; and one further, periodic
/// flush happens exactly when the race-on samples fill the interval.
pub proof fn lemma_run_mixed_counts(s: Server, events: Seq<Event>)
    requires
        s.wf(),
        s.state is Running,
        all_well_formed(events),
        s.pending + count_race_on(events) <= s.flush_interval,
    ensures
        spec_run(s, events).0.wf(),
        spec_run(s, events).0.state is Running,
        spec_run(s, events).0.flush_interval == s.flush_interval,
        spec_run(s, events).0.pending == if s.pending + count_race_on(events)
            == s.flush_interval {
            0int
        } else {
            s.pending + count_race_on(events)
        },
        count_forwards(spec_run(s, events).1) == count_race_on(events),
        count_flushes(spec_run(s, events).1) == count_race_off(events) + if s.pending
            + count_race_on(events) == s.flush_interval {
            1int
        } else {
            0int
        },
    decreases events.len(),
{
    if events.len() == 0 {
    } else {
        assert({
            &&& events[0] matches Event::Datagram(data)
            &&& is_well_formed(data)
        });
        let head = spec_event_step(s, events.first());
        let rest = events.drop_first();
        assert(forall|i: int|
            0 <= i < rest.len() ==> (#[trigger] rest[i]) == events[i + 1]);
        lemma_run_mixed_counts(head.0, rest);
        let ds = spec_run(s, events).1;
        assert(ds == seq![head.1] + spec_run(head.0, rest).1);
        assert(ds.first() == head.1);
        assert(ds.drop_first() =~= spec_run(head.0, rest).1);
    }
}

/// Law: forwarding exactly one flush interval's worth of valid race
/// records to a server with nothing pending triggers exactly one
/// periodic flush, and every record is forwarded.
pub proof fn lemma_flush_interval_once(s: Server, events: Seq<Event>)
    requires
        s.wf(),
        s.state is Running,
        s.pending == 0,
        all_valid_race(events),
        events.len() == s.flush_interval,
    ensures
        count_forwards(spec_run(s, events).1) == s.flush_interval,
        count_flushes(spec_run(s, events).1) == 1,
        spec_run(s, events).0.state is Running,
{
    lemma_run_counts(s, events);
}

/// Law: with menu/pause samples interleaved, forwarding exactly one
/// flush interval's worth of race-on samples triggers exactly one flush
/// beyond those of the race-state transitions themselves.
pub proof fn lemma_flush_interval_once_amid_pauses(s: Server, events: Seq<Event>)
    requires
        s.wf(),
        s.state is Running,
        s.pending == 0,
        all_well_formed(events),
        count_race_on(events) == s.flush_interval,
    ensures
        count_forwards(spec_run(s, events).1) == s.flush_interval,
        count_flushes(spec_run(s, events).1) == count_race_off(events) + 1,
        spec_run(s, events).0.state is Running,
{
    lemma_run_mixed_counts(s, events);
}

/// A run consisting of the shutdown request alone: one final flush,
/// nothing forwarded, and the server terminated.
pub proof fn lemma_run_single_shutdown(s: Server)
    requires
        s.state is Running,
    ensures
        spec_run(s, seq![Event::Shutdown]).0 == spec_shutdown(s).0,
        count_flushes(spec_run(s, seq![Event::Shutdown]).1) == 1,
        count_forwards(spec_run(s, seq![Event::Shutdown]).1) == 0,
{
    reveal_with_fuel(spec_run, 2);
    reveal_with_fuel(count_flushes, 2);
    reveal_with_fuel(count_forwards, 2);
    let b = seq![Event::Shutdown];
    assert(b.first() == Event::Shutdown);
    assert(b.drop_first() =~= Seq::<Event>::empty());
    let ds = spec_run(s, b).1;
    assert(ds =~= seq![spec_shutdown(s).1]);
    assert(ds.drop_first() =~= Seq::<Directive>::empty());
}

/// Law: a shutdown after fewer valid records than the flush interval
/// still produces exactly one flush — the final one — before the server
/// reports termination, and nothing is forwarded or flushed afterwards.
#[verifier::spinoff_prover]
pub proof fn lemma_shutdown_final_flush(s: Server, records: Seq<Event>)
    requires
        s.wf(),
        s.state is Running,
        s.pending == 0,
        all_valid_race(records),
        records.len() < s.flush_interval,
    ensures
        spec_run(s, records + seq![Event::Shutdown]).0.state is Terminated,
        count_forwards(spec_run(s, records + seq![Event::Shutdown]).1) == records.len(),
        count_flushes(spec_run(s, records + seq![Event::Shutdown]).1) == 1,
{
    let b = seq![Event::Shutdown];
    lemma_run_append(s, records, b);
    lemma_run_counts(s, records);
    let s1 = spec_run(s, records).0;
    lemma_run_single_shutdown(s1);
    lemma_counts_append(spec_run(s, records).1, spec_run(s1, b).1);
}

} // verus!
