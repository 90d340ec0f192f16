//! What holds of the dashboard's state after any number of ticks.

use crate::events::{
    lemma_rotated_keeps_elements, lemma_rotated_mod, lemma_rotated_times, lemma_rotated_twice,
    lemma_rotation_round_trip, rotated,
};
use crate::signal::{lemma_samples_join, samples_from};
use crate::state::{
    AppModel, DECRYPT_FULL, DECRYPT_STEP, SAMPLES_PER_TICK, SCROLL_PERIOD, WINDOW_STEP,
};
use vstd::prelude::*;

verus! {

/// The smaller of two numbers.
pub open spec fn lesser(a: int, b: int) -> int {
    if a <= b {
        a
    } else {
        b
    }
}

/// The gauge never falls and never exceeds its full mark: `t` ticks on it
/// shows the steps it has gained, or full. From empty it is full after 25
/// ticks and at every later tick.
pub proof fn lemma_progress_after_ticks(m: AppModel, t: nat)
    requires
        0 <= m.progress <= DECRYPT_FULL,
    ensures
        m.ticked_times(t).progress == lesser(m.progress + DECRYPT_STEP * t, DECRYPT_FULL as int),
        0 <= m.ticked_times(t).progress <= DECRYPT_FULL,
        m.ticked_times(t).progress <= m.ticked_times(t + 1).progress,
        m.progress == 0 && t >= 25 ==> m.ticked_times(t).progress == DECRYPT_FULL,
    decreases t,
{
    if t > 0 {
        lemma_progress_after_ticks(m, (t - 1) as nat);
    }
    assert(m.ticked_times(t + 1) == m.ticked_times(t).ticked());
}

/// The scroll offset stays below its period and comes back to where it was
/// after a full period.
pub proof fn lemma_scroll_periodic(m: AppModel, t: nat)
    requires
        0 <= m.scroll < SCROLL_PERIOD,
    ensures
        m.ticked_times(t + SCROLL_PERIOD as nat).scroll == m.ticked_times(t).scroll,
        m.ticked_times(t).scroll == (m.scroll + t) % (SCROLL_PERIOD as int),
        0 <= m.ticked_times(t).scroll < SCROLL_PERIOD,
{
    lemma_scroll_after_ticks(m, t);
    lemma_scroll_after_ticks(m, t + SCROLL_PERIOD as nat);
}

proof fn lemma_scroll_after_ticks(m: AppModel, t: nat)
    requires
        0 <= m.scroll < SCROLL_PERIOD,
    ensures
        m.ticked_times(t).scroll == (m.scroll + t) % (SCROLL_PERIOD as int),
    decreases t,
{
    if t > 0 {
        lemma_scroll_after_ticks(m, (t - 1) as nat);
    }
}

/// The events `t` ticks on are the first events turned by `t` places, and
/// so by `t` modulo their number: after as many ticks as there are events
/// the queue is in its first order again. No event is ever lost or doubled.
pub proof fn lemma_events_after_ticks(m: AppModel, t: nat)
    ensures
        m.ticked_times(t).events == rotated(m.events, t),
        m.events.len() > 0 ==> m.ticked_times(t).events == rotated(m.events, t % m.events.len()),
        m.ticked_times(m.events.len()).events == m.events,
        m.ticked_times(t).events.to_multiset() == m.events.to_multiset(),
{
    lemma_events_turned(m, t);
    lemma_events_turned(m, m.events.len());
    lemma_rotated_keeps_elements(m.events, t);
    lemma_rotation_round_trip(m.events);
    lemma_rotated_times(m.events, m.events.len());
    if m.events.len() > 0 {
        lemma_rotated_mod(m.events, t);
    }
}

proof fn lemma_events_turned(m: AppModel, t: nat)
    ensures
        m.ticked_times(t).events == rotated(m.events, t),
    decreases t,
{
    if t == 0 {
        lemma_rotated_times(m.events, 0);
    } else {
        lemma_events_turned(m, (t - 1) as nat);
        lemma_rotated_twice(m.events, (t - 1) as nat, 1);
    }
}

/// The buffer only grows: `t` ticks on it holds what it held, followed by
/// the samples that the signal has emitted since, a fixed number for each
/// tick.
pub proof fn lemma_buffer_grows(m: AppModel, t: nat)
    ensures
        m.ticked_times(t).samples.len() == m.samples.len() + t * SAMPLES_PER_TICK,
        m.ticked_times(t).samples.len() < m.ticked_times(t + 1).samples.len(),
        m.ticked_times(t).samples.subrange(0, m.samples.len() as int) == m.samples,
        m.ticked_times(t).samples == m.samples + samples_from(
            m.signal.time,
            m.signal.interval,
            SAMPLES_PER_TICK as nat * t,
        ),
        m.ticked_times(t).signal == m.signal.advanced(SAMPLES_PER_TICK as nat * t),
    decreases t,
{
    let d = m.signal.interval;
    let per_tick = SAMPLES_PER_TICK as nat;
    let grown = m.samples + samples_from(m.signal.time, d, per_tick * t);
    if t == 0 {
        assert(per_tick * t == 0);
        assert(0 * d == 0);
        assert(grown =~= m.samples);
    } else {
        let u = (t - 1) as nat;
        let before = m.ticked_times(u);
        lemma_buffer_grows(m, u);
        assert(per_tick * t == per_tick * u + per_tick);
        assert((per_tick * u) * d + per_tick * d == (per_tick * t) * d) by (nonlinear_arith)
            requires
                per_tick * t == per_tick * u + per_tick,
        ;
        assert(before.signal.time == m.signal.time + (per_tick * u) * d);
        assert(before.ticked().signal.time == before.signal.time + per_tick * d);
        lemma_samples_join(m.signal.time, d, per_tick * u, per_tick);
        assert(before.ticked().samples =~= grown);
    }
    assert(m.ticked_times(t + 1) == m.ticked_times(t).ticked());
    assert(m.ticked_times(t).samples.subrange(0, m.samples.len() as int) =~= m.samples);
}

/// With room for `t` ticks there is room for any smaller number of them.
proof fn lemma_room_for_fewer(m: AppModel, u: nat, t: nat)
    requires
        m.signal.wf(),
        m.can_tick_times(t),
        u <= t,
    ensures
        m.can_tick_times(u),
{
    let d = m.signal.interval;
    let per_tick = SAMPLES_PER_TICK as nat;
    assert((per_tick * u) * d <= (per_tick * t) * d) by (nonlinear_arith)
        requires
            u <= t,
            0 < d,
            0 < per_tick,
    ;
}

/// The window keeps its width at every tick and has moved by one step for
/// each tick.
pub proof fn lemma_window_slides(m: AppModel, t: nat)
    ensures
        m.ticked_times(t).window.width() == m.window.width(),
        m.ticked_times(t).window.start == m.window.start + WINDOW_STEP * t,
        m.ticked_times(t).window.end == m.window.end + WINDOW_STEP * t,
        m.ticked_times(t).window == m.window.shifted(WINDOW_STEP * t),
    decreases t,
{
    if t > 0 {
        lemma_window_slides(m, (t - 1) as nat);
    }
}

/// A valid state with room for `t` ticks is a valid state `t` ticks on, and
/// can tick at every step on the way.
pub proof fn lemma_ticks_keep_wf(m: AppModel, t: nat)
    requires
        m.wf(),
        m.can_tick_times(t),
    ensures
        m.ticked_times(t).wf(),
        forall|u: nat| u < t ==> (#[trigger] m.ticked_times(u)).can_tick(),
{
    let d = m.signal.interval;
    let n = m.samples.len();
    let per_tick = SAMPLES_PER_TICK as nat;
    let after = m.ticked_times(t);
    lemma_progress_after_ticks(m, t);
    lemma_scroll_periodic(m, t);
    lemma_window_slides(m, t);
    lemma_buffer_grows(m, t);
    assert(after.signal.time == (n + per_tick * t) * d) by (nonlinear_arith)
        requires
            after.signal.time == m.signal.time + (per_tick * t) * d,
            m.signal.time == n * d,
    ;
    lemma_samples_join(0, d, n, per_tick * t);
    assert forall|u: nat| u < t implies (#[trigger] m.ticked_times(u)).can_tick() by {
        let at = m.ticked_times(u);
        lemma_room_for_fewer(m, u + 1, t);
        lemma_room_for_fewer(m, u, t);
        lemma_window_slides(m, u);
        lemma_buffer_grows(m, u);
        assert((per_tick * u) * d + (per_tick * 1) * d == (per_tick * (u + 1)) * d)
            by (nonlinear_arith);
    }
}

} // verus!
