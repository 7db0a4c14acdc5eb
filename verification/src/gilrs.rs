//! The device registry and event queue.
//!
//! A fixed-capacity table of device slots, one lifecycle tracker per slot,
//! a shared placeholder for out-of-range and never-observed lookups, and the
//! FIFO event queue a
//! consumer drains. At construction the queue receives a prelude of
//! `Connected` events, in slot order, for every device the startup probe
//! found already attached; live events are appended behind the prelude, so
//! a consumer always observes the prelude first.

use std::collections::VecDeque;

use vstd::prelude::*;

use crate::event::{Event, EventType};
use crate::gamepad::{gamepad_new, Gamepad};
use crate::lifecycle::{
    spec_next_status, spec_step_events, spec_step_tracker, QueryError, RawInput, Status, Tracker,
};
use crate::native_ev_codes::AXIS_CODE_COUNT;

verus! {

broadcast use vstd::std_specs::vecdeque::group_vec_dequeue_axioms;

/// The platform's maximum simultaneous device count.
pub const MAX_GAMEPADS: usize = 4;

/// The events of the startup prelude: one `Connected` per slot whose probe
/// succeeded, in slot order, for the first `n` slots.
pub open spec fn spec_prelude(conn: Seq<bool>, n: int) -> Seq<Event>
    decreases n,
{
    if n <= 0 {
        Seq::empty()
    } else {
        spec_prelude(conn, n - 1) + (if conn[n - 1] {
            seq![Event { id: (n - 1) as usize, event: EventType::Connected }]
        } else {
            Seq::empty()
        })
    }
}

/// A sequence of events all carrying the same slot index.
pub open spec fn spec_with_id(id: usize, evs: Seq<EventType>) -> Seq<Event> {
    Seq::new(evs.len(), |k: int| Event { id: id, event: evs[k] })
}

/// The registry: the fixed slot table, one tracker per slot, the shared
/// placeholder, and the event queue.
pub struct Gilrs {
    pub gamepads: Vec<Gamepad>,
    pub trackers: Vec<Tracker>,
    pub events: VecDeque<Event>,
    pub not_observed: Gamepad,
}

impl Gilrs {
    /// Slot table and trackers have the fixed capacity, every tracker is
    /// well formed and agrees with its slot's status, and the placeholder
    /// has neutral identity.
    pub open spec fn wf(self) -> bool {
        &&& self.gamepads@.len() == MAX_GAMEPADS
        &&& self.trackers@.len() == MAX_GAMEPADS
        &&& forall|i: int| 0 <= i < MAX_GAMEPADS ==> (#[trigger] self.trackers@[i]).wf()
        &&& forall|i: int|
            0 <= i < MAX_GAMEPADS ==> (#[trigger] self.trackers@[i]).status
                == self.gamepads@[i].status
        &&& self.not_observed.is_placeholder()
    }

    /// Builds the registry from the startup probe's outcome per slot, with
    /// the prelude of `Connected` events already queued in slot order.
    pub fn new(connected: Vec<bool>) -> (g: Gilrs)
        requires
            connected@.len() == MAX_GAMEPADS,
        ensures
            g.wf(),
            forall|i: int|
                0 <= i < MAX_GAMEPADS ==> (#[trigger] g.gamepads@[i]).status == (if connected@[i] {
                    Status::Connected
                } else {
                    Status::NotObserved
                }),
            forall|i: int|
                0 <= i < MAX_GAMEPADS ==> (#[trigger] g.gamepads@[i]).id == i as u32
                    && g.gamepads@[i].uuid == 0 && g.gamepads@[i].name@ == "Xbox Controller"@
                    && g.gamepads@[i].ff_supported && g.gamepads@[i].max_ff == 0,
            forall|i: int|
                0 <= i < MAX_GAMEPADS ==> (#[trigger] g.trackers@[i]).packet == 0
                    && g.trackers@[i].baseline.buttons == 0,
            forall|i: int, k: int|
                0 <= i < MAX_GAMEPADS && 0 <= k < AXIS_CODE_COUNT
                    ==> #[trigger] g.trackers@[i].baseline.axes@[k] == 0,
            g.events@ == spec_prelude(connected@, MAX_GAMEPADS as int),
    {
        let mut gamepads: Vec<Gamepad> = Vec::new();
        let mut trackers: Vec<Tracker> = Vec::new();
        let mut events: VecDeque<Event> = VecDeque::new();
        let mut i: usize = 0;
        while i < MAX_GAMEPADS
            invariant
                i <= MAX_GAMEPADS,
                connected@.len() == MAX_GAMEPADS,
                gamepads@.len() == i,
                trackers@.len() == i,
                forall|k: int| 0 <= k < i ==> (#[trigger] trackers@[k]).wf(),
                forall|k: int|
                    0 <= k < i ==> (#[trigger] trackers@[k]).status == gamepads@[k].status,
                forall|k: int|
                    0 <= k < i ==> (#[trigger] trackers@[k]).packet == 0
                        && trackers@[k].baseline.buttons == 0,
                forall|k: int, n: int|
                    0 <= k < i && 0 <= n < AXIS_CODE_COUNT
                        ==> #[trigger] trackers@[k].baseline.axes@[n] == 0,
                forall|k: int|
                    0 <= k < i ==> (#[trigger] gamepads@[k]).status == (if connected@[k] {
                        Status::Connected
                    } else {
                        Status::NotObserved
                    }),
                forall|k: int|
                    0 <= k < i ==> (#[trigger] gamepads@[k]).id == k as u32 && gamepads@[k].uuid
                        == 0 && gamepads@[k].name@ == "Xbox Controller"@
                        && gamepads@[k].ff_supported && gamepads@[k].max_ff == 0,
                events@ == spec_prelude(connected@, i as int),
            decreases MAX_GAMEPADS - i,
        {
            let c: bool = connected[i];
            gamepads.push(gamepad_new(i as u32, c));
            trackers.push(Tracker::new(c));
            if c {
                events.push_back(Event::new(i, EventType::Connected));
            }
            i = i + 1;
            proof {
                assert(events@ =~= spec_prelude(connected@, i as int));
            }
        }
        Gilrs { gamepads, trackers, events, not_observed: Gamepad::none() }
    }

    /// Pops the oldest queued event; `None` when nothing is pending. The
    /// prelude drains before any live event because it was queued first.
    pub fn next_event(&mut self) -> (r: Option<Event>)
        ensures
            final(self).gamepads == old(self).gamepads,
            final(self).trackers == old(self).trackers,
            final(self).not_observed == old(self).not_observed,
            old(self).events@.len() == 0 ==> r is None && final(self).events@ == old(self).events@,
            old(self).events@.len() > 0 ==> r == Some(old(self).events@[0]) && final(self).events@
                == old(self).events@.drop_first(),
    {
        self.events.pop_front()
    }

    /// Drains every pending event at once, oldest first, leaving the queue
    /// empty.
    pub fn pool_events(&mut self) -> (drained: Vec<Event>)
        ensures
            final(self).gamepads == old(self).gamepads,
            final(self).trackers == old(self).trackers,
            final(self).not_observed == old(self).not_observed,
            final(self).events@.len() == 0,
            drained@ == old(self).events@,
    {
        let ghost pre: Seq<Event> = self.events@;
        let ghost mid_trackers: Vec<Tracker> = self.trackers;
        let ghost mid_gamepads: Vec<Gamepad> = self.gamepads;
        let ghost mid_not_observed: Gamepad = self.not_observed;
        let mut drained: Vec<Event> = Vec::new();
        while self.events.len() != 0
            invariant
                self.trackers == mid_trackers,
                self.gamepads == mid_gamepads,
                self.not_observed == mid_not_observed,
                pre == drained@ + self.events@,
            decreases self.events@.len(),
        {
            let e: Option<Event> = self.events.pop_front();
            match e {
                Some(ev) => {
                    drained.push(ev);
                },
                None => {},
            }
            proof {
                assert(pre =~= drained@ + self.events@);
            }
        }
        proof {
            assert(drained@ =~= pre);
        }
        drained
    }

    /// Looks a slot up; an out-of-range or never-observed index resolves to
    /// the shared placeholder with neutral identity, never a failure. A slot
    /// keeps its device identity across disconnect and reconnect: only a
    /// slot in which hardware was never confirmed resolves to the
    /// placeholder.
    pub fn gamepad(&self, id: usize) -> (r: &Gamepad)
        requires
            self.wf(),
        ensures
            id < MAX_GAMEPADS && !(self.gamepads@[id as int].status is NotObserved) ==> *r
                == self.gamepads@[id as int],
            id < MAX_GAMEPADS && self.gamepads@[id as int].status is NotObserved ==> *r
                == self.not_observed,
            id >= MAX_GAMEPADS ==> *r == self.not_observed,
            *r == self.not_observed ==> r.is_placeholder(),
    {
        let observed: bool = if id < MAX_GAMEPADS {
            match self.gamepads[id].status {
                Status::NotObserved => false,
                _ => true,
            }
        } else {
            false
        };
        if observed {
            &self.gamepads[id]
        } else {
            &self.not_observed
        }
    }

    /// Looks a slot up for mutation; an out-of-range or never-observed index
    /// resolves to the shared placeholder, as `gamepad` does. Writing
    /// through the reference may desynchronize the slot's status from its
    /// tracker, so well-formedness is only promised back when the value is
    /// left unchanged.
    pub fn gamepad_mut(&mut self, id: usize) -> (r: &mut Gamepad)
        requires
            old(self).wf(),
        ensures
            final(self).trackers == old(self).trackers,
            final(self).events == old(self).events,
            id < MAX_GAMEPADS && !(old(self).gamepads@[id as int].status is NotObserved) ==> (
            *r == old(self).gamepads@[id as int] && final(self).gamepads@ == old(
                self,
            ).gamepads@.update(id as int, *final(r)) && final(self).not_observed == old(
                self,
            ).not_observed),
            id < MAX_GAMEPADS && old(self).gamepads@[id as int].status is NotObserved ==> (
            *r == old(self).not_observed && final(self).not_observed == *final(r)
                && final(self).gamepads == old(self).gamepads),
            id >= MAX_GAMEPADS ==> *r == old(self).not_observed && final(self).not_observed
                == *final(r) && final(self).gamepads == old(self).gamepads,
            *r == old(self).not_observed ==> (*r).is_placeholder(),
            *final(r) == *r ==> final(self).wf(),
    {
        let observed: bool = if id < MAX_GAMEPADS {
            match self.gamepads[id].status {
                Status::NotObserved => false,
                _ => true,
            }
        } else {
            false
        };
        if observed {
            &mut self.gamepads[id]
        } else {
            &mut self.not_observed
        }
    }

    /// An index no real device will ever exceed.
    pub fn last_gamepad_hint(&self) -> (r: usize)
        ensures
            r == self.gamepads@.len(),
    {
        self.gamepads.len()
    }

    /// Runs one poll cycle for one slot: steps the slot's lifecycle tracker
    /// with the query outcome, mirrors the new status into the slot, and
    /// appends the cycle's events behind whatever is already queued.
    pub fn handle_cycle(&mut self, id: usize, q: Result<RawInput, QueryError>)
        requires
            old(self).wf(),
            id < MAX_GAMEPADS,
            (q matches Ok(inp) ==> inp.snapshot.wf()),
        ensures
            final(self).wf(),
            final(self).trackers@ == old(self).trackers@.update(
                id as int,
                spec_step_tracker(old(self).trackers@[id as int], q),
            ),
            final(self).gamepads@[id as int].status == spec_next_status(
                old(self).gamepads@[id as int].status,
                q,
            ),
            forall|k: int|
                0 <= k < MAX_GAMEPADS && k != id ==> #[trigger] final(self).gamepads@[k] == old(
                    self,
                ).gamepads@[k],
            final(self).gamepads@[id as int].name@ == old(self).gamepads@[id as int].name@,
            final(self).gamepads@[id as int].uuid == old(self).gamepads@[id as int].uuid,
            final(self).gamepads@[id as int].id == old(self).gamepads@[id as int].id,
            final(self).gamepads@[id as int].ff_supported == old(
                self,
            ).gamepads@[id as int].ff_supported,
            final(self).gamepads@[id as int].max_ff == old(self).gamepads@[id as int].max_ff,
            final(self).not_observed == old(self).not_observed,
            final(self).events@ == old(self).events@ + spec_with_id(
                id,
                spec_step_events(old(self).trackers@[id as int], q),
            ),
    {
        let ghost sse: Seq<EventType> = spec_step_events(self.trackers@[id as int], q);
        let mut t: Tracker = self.trackers.remove(id);
        let emitted: Vec<Event> = t.step(id, q);
        let st: Status = t.status;
        let ghost tv: Tracker = t;
        self.trackers.insert(id, t);
        proof {
            assert(tv == spec_step_tracker(old(self).trackers@[id as int], q));
            assert(self.trackers@ =~= old(self).trackers@.update(id as int, tv));
        }
        let mut gp: Gamepad = self.gamepads.remove(id);
        gp.status = st;
        let ghost gpv: Gamepad = gp;
        self.gamepads.insert(id, gp);
        proof {
            assert(self.gamepads@ =~= old(self).gamepads@.update(id as int, gpv));
        }
        let ghost mid_trackers: Seq<Tracker> = self.trackers@;
        let ghost mid_gamepads: Seq<Gamepad> = self.gamepads@;
        let ghost mid_not_observed: Gamepad = self.not_observed;
        let ghost pre_events: Seq<Event> = self.events@;
        let mut k: usize = 0;
        while k < emitted.len()
            invariant
                k <= emitted@.len(),
                self.trackers@ == mid_trackers,
                self.gamepads@ == mid_gamepads,
                self.not_observed == mid_not_observed,
                self.events@.len() == pre_events.len() + k,
                forall|j: int| 0 <= j < pre_events.len() ==> #[trigger] self.events@[j]
                    == pre_events[j],
                forall|j: int|
                    0 <= j < k ==> #[trigger] self.events@[pre_events.len() + j] == emitted@[j],
            decreases emitted@.len() - k,
        {
            let e: Event = emitted[k];
            self.events.push_back(e);
            k = k + 1;
        }
        proof {
            assert forall|j: int| 0 <= j < emitted@.len() implies emitted@[j] == spec_with_id(
                id,
                sse,
            )[j] by {
                assert(emitted@[j].id == id);
                assert(emitted@[j].event == sse[j]);
            }
            assert(emitted@ =~= spec_with_id(id, sse));
            assert forall|idx: int| 0 <= idx < self.events@.len() implies self.events@[idx] == (
            pre_events + emitted@)[idx] by {
                if idx >= pre_events.len() {
                    let j: int = idx - pre_events.len();
                    assert(self.events@[pre_events.len() + j] == emitted@[j]);
                }
            }
            assert(self.events@ =~= pre_events + emitted@);
            assert forall|i: int| 0 <= i < MAX_GAMEPADS implies (#[trigger] self.trackers@[i]).wf()
                && self.trackers@[i].status == self.gamepads@[i].status by {
                if i != id {
                    assert(self.trackers@[i] == old(self).trackers@[i]);
                    assert(self.gamepads@[i] == old(self).gamepads@[i]);
                }
            }
        }
    }
}

} // verus!
