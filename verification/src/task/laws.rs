//! What holds of every run of a background task, whatever happens to it.

use crate::task::{Action, Event, Phase, TaskState};
use vstd::prelude::*;

verus! {

/// Whether `action` may be the next thing that a task in `state` does: out
/// of a delay it calls the installer, with its own request; the installer's
/// return it answers with a delay of one full period or with the hand-over;
/// once finished it does nothing.
pub open spec fn may_do<P>(state: TaskState, action: Action<P>) -> bool {
    match state.phase {
        Phase::Splaying | Phase::Delaying => action == Action::<P>::Install(state.request()),
        Phase::Installing => action == Action::<P>::Sleep(state.runner.period)
            || action is Signal,
        Phase::Finished => false,
    }
}

/// Whether `next` may come directly after `action` in one task's run: a
/// call of the installer after every delay, a delay of one full period or
/// the hand-over after every call, and nothing after the hand-over.
pub open spec fn may_follow<P>(state: TaskState, action: Action<P>, next: Action<P>) -> bool {
    match action {
        Action::Sleep(_) => next == Action::<P>::Install(state.request()),
        Action::Install(_) => next == Action::<P>::Sleep(state.runner.period) || next is Signal,
        Action::Signal(_) => false,
    }
}

/// No event changes the settings of a task, and a finished task stays
/// finished and does nothing more.
pub proof fn settings_stay_and_finished_is_final<P>(state: TaskState, events: Seq<Event<P>>)
    ensures
        state.after(events).runner == state.runner,
        state.phase == Phase::Finished ==> state.after(events) == state && state.actions(
            events,
        ).len() == 0,
    decreases events.len(),
{
    if events.len() > 0 {
        settings_stay_and_finished_is_final(state.next(events[0]), events.drop_first());
    }
}

/// The run of a task is paced: whatever happens, in whatever order, the
/// task calls the installer only out of a delay, delays exactly one full
/// period after each call that brought no newer build, and does nothing
/// after it has handed a build over.
pub proof fn run_is_paced<P>(state: TaskState, events: Seq<Event<P>>)
    ensures
        state.actions(events).len() > 0 ==> may_do(state, state.actions(events)[0]),
        forall|i: int|
            0 <= i < state.actions(events).len() - 1 ==> may_follow(
                state,
                #[trigger] state.actions(events)[i],
                state.actions(events)[i + 1],
            ),
    decreases events.len(),
{
    if events.len() > 0 {
        let then = state.next(events[0]);
        let rest = then.actions(events.drop_first());
        run_is_paced(then, events.drop_first());
        let all = state.actions(events);
        match state.action(events[0]) {
            Some(action) => {
                assert(all == seq![action] + rest);
                assert(all[0] == action);
                assert forall|i: int| 0 <= i < all.len() - 1 implies may_follow(
                    state,
                    #[trigger] all[i],
                    all[i + 1],
                ) by {
                    if i == 0 {
                        assert(all[1] == rest[0]);
                        assert(may_do(then, rest[0]));
                    } else {
                        assert(all[i] == rest[i - 1]);
                        assert(all[i + 1] == rest[i]);
                        assert(may_follow(then, rest[i - 1], rest[i]));
                    }
                }
            },
            None => {
                assert(all == rest);
                assert(then == state);
            },
        }
    }
}

/// A task hands over at most one build, and the hand-over is the last thing
/// it does.
pub proof fn signal_comes_once_and_last<P>(state: TaskState, events: Seq<Event<P>>)
    ensures
        forall|i: int|
            0 <= i < state.actions(events).len() && (#[trigger] state.actions(events)[i])
                is Signal ==> i == state.actions(events).len() - 1,
{
    run_is_paced(state, events);
    let all = state.actions(events);
    assert forall|i: int| 0 <= i < all.len() && (#[trigger] all[i]) is Signal implies i
        == all.len() - 1 by {
        if i < all.len() - 1 {
            assert(may_follow(state, all[i], all[i + 1]));
        }
    }
}

/// A build is handed over only because the installer returned it and found
/// it strictly newer than the running one: every hand-over in a run has
/// such an event behind it.
pub proof fn signal_needs_newer_build<P>(state: TaskState, events: Seq<Event<P>>, i: int)
    requires
        0 <= i < state.actions(events).len(),
        state.actions(events)[i] is Signal,
    ensures
        exists|j: int|
            0 <= j < events.len() && #[trigger] events[j] == Event::Installed(
                state.actions(events)[i]->Signal_0,
                crate::task::VersionOrder::Newer,
            ),
    decreases events.len(),
{
    let then = state.next(events[0]);
    let tail = events.drop_first();
    let rest = then.actions(tail);
    let all = state.actions(events);
    match state.action(events[0]) {
        Some(action) => {
            assert(all == seq![action] + rest);
            if i == 0 {
                assert(events[0] == Event::Installed(
                    all[0]->Signal_0,
                    crate::task::VersionOrder::Newer,
                ));
            } else {
                assert(all[i] == rest[i - 1]);
                signal_needs_newer_build(then, tail, i - 1);
                let j = choose|j: int|
                    0 <= j < tail.len() && #[trigger] tail[j] == Event::Installed(
                        rest[i - 1]->Signal_0,
                        crate::task::VersionOrder::Newer,
                    );
                assert(events[j + 1] == tail[j]);
            }
        },
        None => {
            assert(all == rest);
            signal_needs_newer_build(then, tail, i);
            let j = choose|j: int|
                0 <= j < tail.len() && #[trigger] tail[j] == Event::Installed(
                    rest[i]->Signal_0,
                    crate::task::VersionOrder::Newer,
                );
            assert(events[j + 1] == tail[j]);
        },
    }
}

} // verus!
