//! The state differ.
//!
//! Given the previous and the current snapshot of one device, the differ
//! emits the ordered sequence of discrete events implied by the difference:
//! first the axis changes, in the declared axis-table order, then the button
//! transitions, in the declared button-table order. A raw axis change whose
//! current reading rests inside the axis's deadzone is suppressed entirely,
//! so analog jitter at rest produces no events. The differ is total: it never
//! fails, it only produces zero or more events.

use vstd::prelude::*;
use vstd::seq_lib::*;

use crate::axis::{in_deadzone, normalize, spec_in_deadzone, spec_normalize, Normalized};
use crate::event::{
    axis_for, button_for, spec_axis_for, spec_button_for, spec_is_button_event,
    spec_is_conn_event, Event, EventType,
};
use crate::native_ev_codes::{
    axes_table, axis_info_of, button_mask, buttons_table, lemma_table_wf, spec_axes,
    spec_axis_info, spec_button_mask, spec_buttons,
};
use crate::snapshot::Snapshot;

verus! {

/// The events the differ emits for one axis code: nothing when the raw
/// reading is unchanged or the current reading rests inside the deadzone;
/// otherwise one `AxisChanged` with the normalized current reading. An axis
/// without calibration data emits its raw reading unscaled.
pub open spec fn spec_axis_event(pg: Snapshot, g: Snapshot, code: u16) -> Seq<EventType> {
    if pg.spec_axis(code) == g.spec_axis(code) {
        Seq::empty()
    } else {
        match spec_axis_info(code) {
            Some(info) => if spec_in_deadzone(g.spec_axis(code), info) {
                Seq::empty()
            } else {
                seq![
                    EventType::AxisChanged(
                        spec_axis_for(code),
                        spec_normalize(g.spec_axis(code), info),
                        code,
                    ),
                ]
            },
            None => seq![
                EventType::AxisChanged(
                    spec_axis_for(code),
                    (Normalized { num: g.spec_axis(code) as i64, den: 1i64 }),
                    code,
                ),
            ],
        }
    }
}

/// The events the differ emits for one button code: nothing when the
/// button's bit agrees between the snapshots, otherwise exactly one
/// `ButtonPressed` or `ButtonReleased`. Only the single bit of that button
/// is compared, never the whole word.
pub open spec fn spec_button_event(pg: Snapshot, g: Snapshot, code: u16) -> Seq<EventType> {
    let mask = spec_button_mask(code);
    if pg.spec_button(mask) == g.spec_button(mask) {
        Seq::empty()
    } else if g.spec_button(mask) {
        seq![EventType::ButtonPressed(spec_button_for(code), code)]
    } else {
        seq![EventType::ButtonReleased(spec_button_for(code), code)]
    }
}

/// The axis events of the first `n` entries of the declared axis table.
pub open spec fn spec_axis_events_upto(pg: Snapshot, g: Snapshot, n: int) -> Seq<EventType>
    decreases n,
{
    if n <= 0 {
        Seq::empty()
    } else {
        spec_axis_events_upto(pg, g, n - 1) + spec_axis_event(pg, g, spec_axes()[n - 1])
    }
}

/// The button events of the first `n` entries of the declared button table.
pub open spec fn spec_button_events_upto(pg: Snapshot, g: Snapshot, n: int) -> Seq<EventType>
    decreases n,
{
    if n <= 0 {
        Seq::empty()
    } else {
        spec_button_events_upto(pg, g, n - 1) + spec_button_event(pg, g, spec_buttons()[n - 1])
    }
}

/// Everything the differ emits: the axis events of the whole axis table,
/// followed by the button events of the whole button table.
pub open spec fn spec_diff(pg: Snapshot, g: Snapshot) -> Seq<EventType> {
    spec_axis_events_upto(pg, g, spec_axes().len() as int)
        + spec_button_events_upto(pg, g, spec_buttons().len() as int)
}

/// Whether the button bit selected by `mask` agrees between the two button
/// words: true when it is set in both or in neither.
pub fn is_mask_eq(l: u16, r: u16, mask: u16) -> (eq: bool)
    ensures
        eq == ((l & mask != 0) == (r & mask != 0)),
{
    (l & mask != 0) == (r & mask != 0)
}

/// Compares the current snapshot `g` against the previous snapshot `pg` and
/// returns the ordered events of slot `id`, exactly `spec_diff(pg, g)`.
pub fn compare_state(id: usize, g: &Snapshot, pg: &Snapshot) -> (events: Vec<Event>)
    requires
        g.wf(),
        pg.wf(),
    ensures
        events@.len() == spec_diff(*pg, *g).len(),
        forall|k: int| 0 <= k < events@.len() ==> #[trigger] events@[k].id == id,
        forall|k: int| 0 <= k < events@.len() ==> #[trigger] events@[k].event == spec_diff(
            *pg,
            *g,
        )[k],
{
    proof {
        lemma_table_wf();
    }
    let axes_tbl: Vec<u16> = axes_table();
    let btns_tbl: Vec<u16> = buttons_table();
    let mut events: Vec<Event> = Vec::new();
    let mut i: usize = 0;
    while i < axes_tbl.len()
        invariant
            i <= axes_tbl@.len(),
            axes_tbl@ == spec_axes(),
            g.wf(),
            pg.wf(),
            events@.len() == spec_axis_events_upto(*pg, *g, i as int).len(),
            forall|k: int| 0 <= k < events@.len() ==> #[trigger] events@[k].id == id,
            forall|k: int|
                0 <= k < events@.len() ==> #[trigger] events@[k].event == spec_axis_events_upto(
                    *pg,
                    *g,
                    i as int,
                )[k],
        decreases axes_tbl@.len() - i,
    {
        let code: u16 = axes_tbl[i];
        proof {
            lemma_table_wf();
        }
        let pr: i32 = pg.axis_value(code);
        let cr: i32 = g.axis_value(code);
        if pr != cr {
            match axis_info_of(code) {
                Some(info) => {
                    if !in_deadzone(cr, &info) {
                        let v: Normalized = normalize(cr, &info);
                        events.push(Event::new(id, EventType::AxisChanged(axis_for(code), v, code)));
                    }
                },
                None => {
                    events.push(
                        Event::new(
                            id,
                            EventType::AxisChanged(
                                axis_for(code),
                                Normalized { num: cr as i64, den: 1 },
                                code,
                            ),
                        ),
                    );
                },
            }
        }
        i = i + 1;
    }
    let ghost axis_part: Seq<EventType> = spec_axis_events_upto(*pg, *g, spec_axes().len() as int);
    let mut j: usize = 0;
    while j < btns_tbl.len()
        invariant
            j <= btns_tbl@.len(),
            btns_tbl@ == spec_buttons(),
            g.wf(),
            pg.wf(),
            axis_part == spec_axis_events_upto(*pg, *g, spec_axes().len() as int),
            events@.len() == axis_part.len() + spec_button_events_upto(*pg, *g, j as int).len(),
            forall|k: int| 0 <= k < events@.len() ==> #[trigger] events@[k].id == id,
            forall|k: int|
                0 <= k < events@.len() ==> #[trigger] events@[k].event == (axis_part
                    + spec_button_events_upto(*pg, *g, j as int))[k],
        decreases btns_tbl@.len() - j,
    {
        let code: u16 = btns_tbl[j];
        let mask: u16 = button_mask(code);
        if !is_mask_eq(g.buttons, pg.buttons, mask) {
            if g.button_pressed(mask) {
                events.push(Event::new(id, EventType::ButtonPressed(button_for(code), code)));
            } else {
                events.push(Event::new(id, EventType::ButtonReleased(button_for(code), code)));
            }
        }
        j = j + 1;
    }
    events
}

/// Repeated diff is idempotent: a snapshot compared against itself yields no
/// events at all.
pub proof fn lemma_diff_self(s: Snapshot)
    ensures
        spec_diff(s, s) == Seq::<EventType>::empty(),
{
    lemma_axis_events_self(s, spec_axes().len() as int);
    lemma_button_events_same_buttons(s, s, spec_buttons().len() as int);
    assert(spec_diff(s, s) =~= Seq::<EventType>::empty());
}

proof fn lemma_axis_events_self(s: Snapshot, n: int)
    ensures
        spec_axis_events_upto(s, s, n).len() == 0,
    decreases n,
{
    if n > 0 {
        lemma_axis_events_self(s, n - 1);
    }
}

proof fn lemma_button_events_same_buttons(pg: Snapshot, g: Snapshot, n: int)
    requires
        pg.buttons == g.buttons,
    ensures
        spec_button_events_upto(pg, g, n).len() == 0,
    decreases n,
{
    if n > 0 {
        lemma_button_events_same_buttons(pg, g, n - 1);
    }
}

/// Whether the current reading of an axis code rests inside its deadzone,
/// so that the differ suppresses it.
pub open spec fn spec_suppressed(g: Snapshot, code: u16) -> bool {
    match spec_axis_info(code) {
        Some(info) => spec_in_deadzone(g.spec_axis(code), info),
        None => false,
    }
}

/// A single suppressed axis emits nothing, whatever the previous reading.
pub proof fn lemma_axis_event_suppressed(pg: Snapshot, g: Snapshot, code: u16)
    requires
        spec_suppressed(g, code),
    ensures
        spec_axis_event(pg, g, code) == Seq::<EventType>::empty(),
{
}

/// Deadzone suppression: two snapshots that agree on every button bit and
/// differ only on axes whose current reading rests inside the deadzone
/// produce no events at all.
pub proof fn lemma_deadzone_suppression(pg: Snapshot, g: Snapshot)
    requires
        pg.buttons == g.buttons,
        forall|j: int|
            0 <= j < spec_axes().len() ==> pg.spec_axis(#[trigger] spec_axes()[j]) == g.spec_axis(
                spec_axes()[j],
            ) || spec_suppressed(g, spec_axes()[j]),
    ensures
        spec_diff(pg, g) == Seq::<EventType>::empty(),
{
    lemma_axis_events_suppressed(pg, g, spec_axes().len() as int);
    lemma_button_events_same_buttons(pg, g, spec_buttons().len() as int);
    assert(spec_diff(pg, g) =~= Seq::<EventType>::empty());
}

proof fn lemma_axis_events_suppressed(pg: Snapshot, g: Snapshot, n: int)
    requires
        n <= spec_axes().len(),
        forall|j: int|
            0 <= j < spec_axes().len() ==> pg.spec_axis(#[trigger] spec_axes()[j]) == g.spec_axis(
                spec_axes()[j],
            ) || spec_suppressed(g, spec_axes()[j]),
    ensures
        spec_axis_events_upto(pg, g, n).len() == 0,
    decreases n,
{
    if n > 0 {
        lemma_axis_events_suppressed(pg, g, n - 1);
    }
}

/// The number of button codes among the first `n` table entries whose bit
/// differs between the snapshots.
pub open spec fn spec_changed_buttons(pg: Snapshot, g: Snapshot, n: int) -> int
    decreases n,
{
    if n <= 0 {
        0
    } else {
        spec_changed_buttons(pg, g, n - 1) + (
        if pg.spec_button(spec_button_mask(spec_buttons()[n - 1])) != g.spec_button(
            spec_button_mask(spec_buttons()[n - 1]),
        ) {
            1int
        } else {
            0int
        })
    }
}

proof fn lemma_axis_events_kind(pg: Snapshot, g: Snapshot, n: int)
    ensures
        forall|k: int|
            0 <= k < spec_axis_events_upto(pg, g, n).len() ==> #[trigger] spec_axis_events_upto(
                pg,
                g,
                n,
            )[k] is AxisChanged,
    decreases n,
{
    if n > 0 {
        lemma_axis_events_kind(pg, g, n - 1);
        let s = spec_axis_events_upto(pg, g, n);
        let s0 = spec_axis_events_upto(pg, g, n - 1);
        let e = spec_axis_event(pg, g, spec_axes()[n - 1]);
        assert forall|k: int| 0 <= k < s.len() implies #[trigger] s[k] is AxisChanged by {
            if k < s0.len() {
                assert(s[k] == s0[k]);
            } else {
                assert(s[k] == e[k - s0.len()]);
            }
        }
    }
}

proof fn lemma_button_events_shape(pg: Snapshot, g: Snapshot, n: int)
    requires
        0 <= n <= spec_buttons().len(),
    ensures
        spec_button_events_upto(pg, g, n).len() == spec_changed_buttons(pg, g, n),
        forall|k: int|
            0 <= k < spec_button_events_upto(pg, g, n).len() ==> spec_is_button_event(
                #[trigger] spec_button_events_upto(pg, g, n)[k],
            ),
        forall|k: int|
            0 <= k < spec_button_events_upto(pg, g, n).len() ==> match #[trigger] spec_button_events_upto(
                pg,
                g,
                n,
            )[k] {
                EventType::ButtonPressed(b, c) => {
                    &&& pg.spec_button(spec_button_mask(c)) != g.spec_button(spec_button_mask(c))
                    &&& g.spec_button(spec_button_mask(c))
                    &&& b == spec_button_for(c)
                },
                EventType::ButtonReleased(b, c) => {
                    &&& pg.spec_button(spec_button_mask(c)) != g.spec_button(spec_button_mask(c))
                    &&& !g.spec_button(spec_button_mask(c))
                    &&& b == spec_button_for(c)
                },
                _ => false,
            },
    decreases n,
{
    if n > 0 {
        lemma_button_events_shape(pg, g, n - 1);
        let s = spec_button_events_upto(pg, g, n);
        let s0 = spec_button_events_upto(pg, g, n - 1);
        let e = spec_button_event(pg, g, spec_buttons()[n - 1]);
        assert forall|k: int| 0 <= k < s.len() implies spec_is_button_event(#[trigger] s[k]) by {
            if k < s0.len() {
                assert(s[k] == s0[k]);
            } else {
                assert(s[k] == e[k - s0.len()]);
            }
        }
    }
}

/// Diff completeness for buttons: the differ emits exactly one button event
/// per button code whose bit differs between the snapshots, and every button
/// event it emits names a code whose bit really differs, with the press /
/// release direction given by the current snapshot. No unchanged button ever
/// appears.
pub proof fn lemma_diff_button_completeness(pg: Snapshot, g: Snapshot)
    ensures
        spec_diff(pg, g).filter(|e: EventType| spec_is_button_event(e)).len()
            == spec_changed_buttons(pg, g, spec_buttons().len() as int),
        forall|k: int|
            0 <= k < spec_diff(pg, g).len() ==> match #[trigger] spec_diff(pg, g)[k] {
                EventType::ButtonPressed(b, c) => {
                    &&& pg.spec_button(spec_button_mask(c)) != g.spec_button(spec_button_mask(c))
                    &&& g.spec_button(spec_button_mask(c))
                    &&& b == spec_button_for(c)
                },
                EventType::ButtonReleased(b, c) => {
                    &&& pg.spec_button(spec_button_mask(c)) != g.spec_button(spec_button_mask(c))
                    &&& !g.spec_button(spec_button_mask(c))
                    &&& b == spec_button_for(c)
                },
                _ => true,
            },
{
    let pred = |e: EventType| spec_is_button_event(e);
    let na: int = spec_axes().len() as int;
    let nb: int = spec_buttons().len() as int;
    let axis_part = spec_axis_events_upto(pg, g, na);
    let button_part = spec_button_events_upto(pg, g, nb);
    lemma_axis_events_kind(pg, g, na);
    lemma_button_events_shape(pg, g, nb);
    Seq::filter_distributes_over_add(axis_part, button_part, pred);
    lemma_filter_all_false(axis_part, pred);
    lemma_filter_all_true(button_part, pred);
    assert forall|k: int| 0 <= k < spec_diff(pg, g).len() implies match #[trigger] spec_diff(
        pg,
        g,
    )[k] {
        EventType::ButtonPressed(b, c) => {
            &&& pg.spec_button(spec_button_mask(c)) != g.spec_button(spec_button_mask(c))
            &&& g.spec_button(spec_button_mask(c))
            &&& b == spec_button_for(c)
        },
        EventType::ButtonReleased(b, c) => {
            &&& pg.spec_button(spec_button_mask(c)) != g.spec_button(spec_button_mask(c))
            &&& !g.spec_button(spec_button_mask(c))
            &&& b == spec_button_for(c)
        },
        _ => true,
    } by {
        if k < axis_part.len() {
            assert(spec_diff(pg, g)[k] == axis_part[k]);
        } else {
            assert(spec_diff(pg, g)[k] == button_part[k - axis_part.len()]);
        }
    }
}

/// The differ never emits connection events; those come only from the
/// lifecycle tracker.
pub proof fn lemma_diff_no_conn_events(pg: Snapshot, g: Snapshot)
    ensures
        forall|k: int|
            0 <= k < spec_diff(pg, g).len() ==> !spec_is_conn_event(#[trigger] spec_diff(pg, g)[k]),
{
    let na: int = spec_axes().len() as int;
    let nb: int = spec_buttons().len() as int;
    let axis_part = spec_axis_events_upto(pg, g, na);
    let button_part = spec_button_events_upto(pg, g, nb);
    lemma_axis_events_kind(pg, g, na);
    lemma_button_events_shape(pg, g, nb);
    assert forall|k: int| 0 <= k < spec_diff(pg, g).len() implies !spec_is_conn_event(
        #[trigger] spec_diff(pg, g)[k],
    ) by {
        if k < axis_part.len() {
            assert(spec_diff(pg, g)[k] == axis_part[k]);
        } else {
            assert(spec_diff(pg, g)[k] == button_part[k - axis_part.len()]);
        }
    }
}

proof fn lemma_filter_all_false(s: Seq<EventType>, pred: spec_fn(EventType) -> bool)
    requires
        forall|k: int| 0 <= k < s.len() ==> !pred(#[trigger] s[k]),
    ensures
        s.filter(pred).len() == 0,
    decreases s.len(),
{
    reveal(Seq::filter);
    if s.len() > 0 {
        lemma_filter_all_false(s.drop_last(), pred);
    }
}

proof fn lemma_filter_all_true(s: Seq<EventType>, pred: spec_fn(EventType) -> bool)
    requires
        forall|k: int| 0 <= k < s.len() ==> pred(#[trigger] s[k]),
    ensures
        s.filter(pred).len() == s.len(),
    decreases s.len(),
{
    reveal(Seq::filter);
    if s.len() > 0 {
        lemma_filter_all_true(s.drop_last(), pred);
    }
}

} // verus!
