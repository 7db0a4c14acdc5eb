//! The connection lifecycle tracker.
//!
//! One tracker per device slot. Each poll cycle the polling driver hands it
//! the outcome of one raw-state query: a fresh snapshot, "device not
//! present", or a transient error. The tracker drives the per-slot state
//! machine `NotObserved -> Connected <-> Disconnected`, emits exactly one
//! `Connected` or `Disconnected` event per transition edge, and runs the
//! differ only in the steady connected state. A transient error changes
//! nothing and is retried next cycle.

use vstd::prelude::*;

use crate::diff::{compare_state, spec_diff};
use crate::event::{spec_is_conn_event, Event, EventType};
use crate::native_ev_codes::AXIS_CODE_COUNT;
use crate::snapshot::Snapshot;

verus! {

/// The connection state of one device slot.
#[derive(Clone, Copy, Debug, PartialEq, Eq, Structural)]
pub enum Status {
    /// No hardware has ever been confirmed present in this slot.
    NotObserved,
    Connected,
    Disconnected,
}

/// Why a raw-state query returned no snapshot.
#[derive(Clone, Copy, Debug, PartialEq, Eq, Structural)]
pub enum QueryError {
    /// The device is confirmed absent; drives a disconnect transition.
    NotPresent,
    /// The query failed but the device may still be present; ignored and
    /// retried next cycle.
    Transient,
}

/// One successful raw-state query: the hardware's packet counter and the
/// snapshot it delivered. The counter increments whenever the state changes,
/// so an unchanged counter lets a cycle skip the per-field comparison.
pub struct RawInput {
    pub packet: u32,
    pub snapshot: Snapshot,
}

/// A slot is probed every cycle while connected, and every this-many cycles
/// otherwise, so probing absent hardware stays cheap without delaying
/// detection by more than the throttle factor.
pub const ITERATIONS_TO_CHECK_IF_CONNECTED: u64 = 100;

/// Whether a slot is worth querying this cycle.
pub fn should_poll(status: Status, counter: u64) -> (r: bool)
    ensures
        r == (status is Connected || counter % ITERATIONS_TO_CHECK_IF_CONNECTED == 0),
{
    match status {
        Status::Connected => true,
        _ => counter % ITERATIONS_TO_CHECK_IF_CONNECTED == 0,
    }
}

/// The status after one poll cycle: any success connects; "not present"
/// disconnects a connected slot and leaves any other alone; a transient
/// error changes nothing.
pub open spec fn spec_next_status(st: Status, q: Result<RawInput, QueryError>) -> Status {
    match q {
        Ok(_) => Status::Connected,
        Err(QueryError::NotPresent) => if st is Connected {
            Status::Disconnected
        } else {
            st
        },
        Err(QueryError::Transient) => st,
    }
}

/// The connection events of one poll cycle: one `Connected` on the edge into
/// the connected state, one `Disconnected` on the edge out of it, nothing
/// otherwise.
pub open spec fn spec_conn_events(st: Status, q: Result<RawInput, QueryError>) -> Seq<EventType> {
    match q {
        Ok(_) => if st is Connected {
            Seq::empty()
        } else {
            seq![EventType::Connected]
        },
        Err(QueryError::NotPresent) => if st is Connected {
            seq![EventType::Disconnected]
        } else {
            Seq::empty()
        },
        Err(QueryError::Transient) => Seq::empty(),
    }
}

/// Per-slot lifecycle state: the connection status, the last seen packet
/// counter, and the snapshot the next diff will compare against.
pub struct Tracker {
    pub status: Status,
    pub packet: u32,
    pub baseline: Snapshot,
}

/// Everything one poll cycle emits. On the edge into the connected state the
/// differ does not run: there is no meaningful previous state yet, the fresh
/// snapshot only becomes the baseline of the next cycle. In the steady
/// connected state an unchanged packet counter emits nothing, a changed one
/// emits the diff of the new snapshot against the baseline.
pub open spec fn spec_step_events(t: Tracker, q: Result<RawInput, QueryError>) -> Seq<EventType> {
    match q {
        Ok(inp) => if t.status is Connected {
            if inp.packet == t.packet {
                Seq::empty()
            } else {
                spec_diff(t.baseline, inp.snapshot)
            }
        } else {
            seq![EventType::Connected]
        },
        Err(QueryError::NotPresent) => if t.status is Connected {
            seq![EventType::Disconnected]
        } else {
            Seq::empty()
        },
        Err(QueryError::Transient) => Seq::empty(),
    }
}

/// The tracker after one poll cycle: a success installs the new snapshot and
/// packet counter as the baseline (except when the counter is unchanged);
/// everything else keeps the baseline.
pub open spec fn spec_step_tracker(t: Tracker, q: Result<RawInput, QueryError>) -> Tracker {
    match q {
        Ok(inp) => if t.status is Connected && inp.packet == t.packet {
            t
        } else {
            Tracker { status: Status::Connected, packet: inp.packet, baseline: inp.snapshot }
        },
        Err(QueryError::NotPresent) => if t.status is Connected {
            Tracker { status: Status::Disconnected, packet: t.packet, baseline: t.baseline }
        } else {
            t
        },
        Err(QueryError::Transient) => t,
    }
}

impl Tracker {
    pub open spec fn wf(self) -> bool {
        self.baseline.wf()
    }

    /// A fresh slot: `Connected` when the startup probe found hardware,
    /// `NotObserved` otherwise; the all-zero snapshot as baseline.
    /// `Disconnected` is never an initial state.
    pub fn new(connected: bool) -> (t: Tracker)
        ensures
            t.wf(),
            t.status == (if connected {
                Status::Connected
            } else {
                Status::NotObserved
            }),
            t.packet == 0,
            t.baseline.buttons == 0,
            forall|i: int| 0 <= i < AXIS_CODE_COUNT ==> t.baseline.axes@[i] == 0,
    {
        Tracker {
            status: if connected {
                Status::Connected
            } else {
                Status::NotObserved
            },
            packet: 0,
            baseline: Snapshot::zeroed(),
        }
    }

    /// Runs one poll cycle for slot `id` and returns the events it emits,
    /// exactly `spec_step_events`, each carrying `id`.
    pub fn step(&mut self, id: usize, q: Result<RawInput, QueryError>) -> (events: Vec<Event>)
        requires
            old(self).wf(),
            (q matches Ok(inp) ==> inp.snapshot.wf()),
        ensures
            final(self).wf(),
            *final(self) == spec_step_tracker(*old(self), q),
            final(self).status == spec_next_status(old(self).status, q),
            events@.len() == spec_step_events(*old(self), q).len(),
            forall|k: int| 0 <= k < events@.len() ==> #[trigger] events@[k].id == id,
            forall|k: int|
                0 <= k < events@.len() ==> #[trigger] events@[k].event == spec_step_events(
                    *old(self),
                    q,
                )[k],
    {
        match q {
            Ok(inp) => {
                match self.status {
                    Status::Connected => {
                        if inp.packet == self.packet {
                            Vec::new()
                        } else {
                            let events = compare_state(id, &inp.snapshot, &self.baseline);
                            self.baseline = inp.snapshot;
                            self.packet = inp.packet;
                            events
                        }
                    },
                    _ => {
                        self.status = Status::Connected;
                        self.baseline = inp.snapshot;
                        self.packet = inp.packet;
                        let mut events: Vec<Event> = Vec::new();
                        events.push(Event::new(id, EventType::Connected));
                        events
                    },
                }
            },
            Err(QueryError::NotPresent) => {
                let mut events: Vec<Event> = Vec::new();
                match self.status {
                    Status::Connected => {
                        self.status = Status::Disconnected;
                        events.push(Event::new(id, EventType::Disconnected));
                    },
                    _ => {},
                }
                events
            },
            Err(QueryError::Transient) => Vec::new(),
        }
    }
}

/// The tracker's status evolves exactly as the status machine says,
/// whatever the cycle does to the baseline.
pub proof fn lemma_step_tracker_status(t: Tracker, q: Result<RawInput, QueryError>)
    ensures
        spec_step_tracker(t, q).status == spec_next_status(t.status, q),
{
}

/// One cycle's event stream starts with exactly its connection events, and
/// everything behind them is input events: a connection event never comes
/// from the differ, and a cycle emits its `Connected` or `Disconnected`
/// ahead of everything else.
pub proof fn lemma_step_events_kinds(t: Tracker, q: Result<RawInput, QueryError>)
    ensures
        forall|k: int|
            0 <= k < spec_step_events(t, q).len() ==> (spec_is_conn_event(
                #[trigger] spec_step_events(t, q)[k],
            ) <==> k < spec_conn_events(t.status, q).len()),
        forall|k: int|
            0 <= k < spec_conn_events(t.status, q).len() ==> #[trigger] spec_step_events(t, q)[k]
                == spec_conn_events(t.status, q)[k],
{
    match q {
        Ok(inp) => {
            if t.status is Connected && inp.packet != t.packet {
                crate::diff::lemma_diff_no_conn_events(t.baseline, inp.snapshot);
            }
        },
        Err(_) => {},
    }
}

/// The connection events of a whole run of poll cycles, in chronological
/// order.
pub open spec fn spec_run_conn(st: Status, qs: Seq<Result<RawInput, QueryError>>) -> Seq<EventType>
    decreases qs.len(),
{
    if qs.len() == 0 {
        Seq::empty()
    } else {
        spec_conn_events(st, qs[0]) + spec_run_conn(spec_next_status(st, qs[0]), qs.drop_first())
    }
}

/// Lifecycle determinism: over any run of poll cycles, every emitted
/// connection event is `Connected` or `Disconnected`; the first one is
/// `Disconnected` exactly when the run started connected; and adjacent
/// connection events always have opposite kinds - never two of the same kind
/// without the opposite transition in between.
pub proof fn lemma_lifecycle_alternation(st: Status, qs: Seq<Result<RawInput, QueryError>>)
    ensures
        forall|i: int|
            0 <= i < spec_run_conn(st, qs).len() ==> spec_is_conn_event(
                #[trigger] spec_run_conn(st, qs)[i],
            ),
        spec_run_conn(st, qs).len() > 0 ==> (spec_run_conn(st, qs)[0] is Disconnected <==> st is Connected),
        forall|i: int|
            0 <= i && i + 1 < spec_run_conn(st, qs).len() ==> ((#[trigger] spec_run_conn(
                st,
                qs,
            )[i]) is Connected <==> spec_run_conn(st, qs)[i + 1] is Disconnected),
    decreases qs.len(),
{
    if qs.len() > 0 {
        let q0 = qs[0];
        let e0 = spec_conn_events(st, q0);
        let st1 = spec_next_status(st, q0);
        let qs1 = qs.drop_first();
        let rest = spec_run_conn(st1, qs1);
        let evs = spec_run_conn(st, qs);
        lemma_lifecycle_alternation(st1, qs1);
        assert(evs == e0 + rest);
        if e0.len() == 0 {
            assert(evs =~= rest);
            assert(st1 is Connected <==> st is Connected);
        } else {
            assert(e0.len() == 1);
            assert(evs[0] == e0[0]);
            assert(e0[0] is Connected <==> st1 is Connected);
            assert forall|i: int| 0 <= i < evs.len() implies spec_is_conn_event(
                #[trigger] evs[i],
            ) by {
                if i > 0 {
                    assert(evs[i] == rest[i - 1]);
                }
            }
            assert forall|i: int| 0 <= i && i + 1 < evs.len() implies ((#[trigger] evs[i]) is Connected
                <==> evs[i + 1] is Disconnected) by {
                if i == 0 {
                    assert(evs[1] == rest[0]);
                    assert(spec_is_conn_event(rest[0]));
                } else {
                    assert(evs[i] == rest[i - 1]);
                    assert(evs[i + 1] == rest[i]);
                }
            }
        }
    }
}

} // verus!
