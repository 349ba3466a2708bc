//! What holds of the state machine as a whole.

use vstd::prelude::*;
use crate::interval::clamped;
use crate::model::{ActionView, EventView, State, TimerView};

verus! {

/// Two timer states are alike when both are empty, or both hold a timer and
/// the two timers were armed with the same delay.
pub open spec fn same_timer_state(a: Option<TimerView>, b: Option<TimerView>) -> bool {
    match (a, b) {
        (None, None) => true,
        (Some(x), Some(y)) => x.delay_ms == y.delay_ms,
        _ => false,
    }
}

/// The initial state meets the scheduling invariant.
pub proof fn invariant_holds_initially<T>(window: nat, min_images: nat, interval_ms: nat)
    ensures
        State::<T>::init(window, min_images, interval_ms).inv(),
{
}

/// Every event leads from a state that meets the scheduling invariant to
/// one that meets it.
pub proof fn invariant_is_kept<T>(s: State<T>, event: EventView<T>)
    requires
        s.inv(),
    ensures
        s.step(event).inv(),
{
}

/// In every state that can be reached from the initial state, a timer is
/// pending if and only if playback is running over a non-empty list.
pub proof fn invariant_holds_in_reachable_states<T>(
    window: nat,
    min_images: nat,
    interval_ms: nat,
    events: Seq<EventView<T>>,
)
    ensures
        State::<T>::init(window, min_images, interval_ms).run(events).inv(),
        ({
            let s = State::<T>::init(window, min_images, interval_ms).run(events);
            s.pending is Some <==> s.running && s.images.len() > 0
        }),
    decreases events.len(),
{
    let first = State::<T>::init(window, min_images, interval_ms);
    if events.len() > 0 {
        invariant_holds_in_reachable_states::<T>(
            window,
            min_images,
            interval_ms,
            events.drop_last(),
        );
        invariant_is_kept(first.run(events.drop_last()), events.last());
    }
}

/// The position is a counter.  An event leaves it where it is or moves it
/// on by one; no event takes it back, and none but the speed control, the
/// run button and the pending timer moves it.
pub proof fn position_only_counts_up<T>(s: State<T>, event: EventView<T>)
    ensures
        s.position <= s.step(event).position <= s.position + 1,
        event is ImagesSelected || event is BackgroundSelected ==> s.step(event).position
            == s.position,
{
}

/// Recomputing twice in a row gives the timer state that recomputing once
/// gives: a timer is pending after the second step exactly if one was after
/// the first, and with the same delay.  Nothing else changes but the token:
/// the timer of the first step is no longer the pending one, so one timer
/// is alive and not two.
pub proof fn recompute_is_idempotent<T>(s: State<T>)
    ensures
        same_timer_state(s.recompute().recompute().pending, s.recompute().pending),
        s.recompute().recompute() == (State {
            pending: s.recompute().recompute().pending,
            next_token: s.recompute().recompute().next_token,
            ..s.recompute()
        }),
        s.recompute().pending matches Some(t) ==> !s.recompute().recompute().is_pending(t.token),
{
}

/// Performing the action of an event leaves the platform with exactly the
/// timer that the scheduler holds as pending, if that was so before the
/// event.
pub proof fn action_carries_pending_timer<T>(s: State<T>, event: EventView<T>)
    ensures
        s.step_action(event).apply(s.pending) == s.step(event).pending,
{
}

/// A platform that starts with the pending timer of the scheduler and
/// performs the action of every event has, after any sequence of events,
/// exactly the timer armed that the scheduler holds as pending: one timer
/// at most, and never one that the scheduler has dropped.
pub proof fn platform_holds_pending_timer<T>(s: State<T>, events: Seq<EventView<T>>)
    ensures
        s.platform_after(s.pending, events) == s.run(events).pending,
    decreases events.len(),
{
    if events.len() > 0 {
        platform_holds_pending_timer(s, events.drop_last());
        action_carries_pending_timer(s.run(events.drop_last()), events.last());
    }
}

/// A change of speed while running replaces the timer.  The timer that was
/// pending is cancelled: its firing, should it still be reported, changes
/// nothing and advances nothing.  The timer that is pending afterwards, if
/// there are images to show, is a new one armed with the new interval.
pub proof fn speed_change_replaces_timer<T>(s: State<T>, ms: nat)
    requires
        s.inv(),
        s.running,
    ensures
        s.set_interval(ms).pending is Some <==> s.images.len() > 0,
        s.set_interval(ms).pending matches Some(t) ==> t.delay_ms == clamped(ms),
        s.set_interval(ms).pending matches Some(t) ==> t.token == s.next_token,
        s.set_interval(ms).pending matches Some(t) ==> s.set_interval(ms).command()
            == ActionView::Arm(t),
        s.pending matches Some(t) ==> !s.set_interval(ms).is_pending(t.token),
        s.pending matches Some(t) ==> s.set_interval(ms).timer_fired(t.token) == s.set_interval(ms),
        s.pending matches Some(t) ==> s.set_interval(ms).step_action(
            EventView::TimerFired(t.token),
        ) == ActionView::Keep,
{
}

/// A token that was issued and is not pending stays out for good: whatever
/// events follow, it never names the pending timer again, so the firing of
/// a cancelled timer is never taken for a tick.
pub proof fn cancelled_timer_never_ticks<T>(s: State<T>, events: Seq<EventView<T>>, token: nat)
    requires
        s.inv(),
        token < s.next_token,
        !s.is_pending(token),
    ensures
        !s.run(events).is_pending(token),
        s.run(events).timer_fired(token) == s.run(events),
        s.run(events).inv(),
        s.next_token <= s.run(events).next_token,
    decreases events.len(),
{
    if events.len() > 0 {
        cancelled_timer_never_ticks(s, events.drop_last(), token);
    }
}

/// The render window wraps around: a position that is further on by the
/// length of the list shows the same images.
pub proof fn window_repeats_after_one_round<T>(s: State<T>, i: int)
    requires
        s.images.len() > 0,
        0 <= i,
    ensures
        (State { position: s.position + s.images.len(), ..s }).slot(i) == s.slot(i),
        0 <= (s.position + i) % (s.images.len() as int) < s.images.len(),
{
    let n = s.images.len() as int;
    assert((s.position + n + i) % n == (s.position + i) % n) by (nonlinear_arith)
        requires
            n > 0;
}

} // verus!
