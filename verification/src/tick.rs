//! What the supervision cycle guarantees over whole runs of events: a tick
//! visits every adapter once and in order, an adapter of unknown type ends
//! supervision on the spot, and a shutdown request ends it before anything is
//! touched.

use crate::configs::{resolve, AdapterView};
use crate::supervisor::{
    reconcile, spawn_request, unresolved_message, ActionView, Cursor, Event, SupervisorView,
};
use vstd::prelude::*;

verus! {

/// The state reached from `s` after `events`, taken in order.
pub open spec fn run(s: SupervisorView, events: Seq<Event>) -> SupervisorView
    decreases events.len(),
{
    if events.len() == 0 {
        s
    } else {
        run(s, events.drop_last()).transition(events.last())
    }
}

/// Whether `event` is one of the reports that `action` can end in.
pub open spec fn answers(action: ActionView, event: Event) -> bool {
    match action {
        ActionView::PollShutdown => event is ShutdownRequested || event is NoShutdown,
        ActionView::CheckStatus { .. } => event is Exited || event is StillRunning
            || event is StatusUnknown,
        ActionView::Spawn { .. } => event is Spawned || event is SpawnFailed,
        ActionView::Stop(_) => false,
    }
}

/// An adapter after the report on its action: an observed exit clears the
/// process, a successful launch records it, anything else leaves it alone.
pub open spec fn settled(adapter: AdapterView, event: Event) -> AdapterView {
    match event {
        Event::Exited => adapter.with_child(None),
        Event::Spawned(handle) => adapter.with_child(Some(handle)),
        _ => adapter,
    }
}

/// The events of a tick that is not shut down: the poll's answer, then one
/// report for each adapter visited.
pub open spec fn tick_events(outcomes: Seq<Event>) -> Seq<Event> {
    seq![Event::NoShutdown] + outcomes
}

/// A transition keeps the state well formed and never touches the launcher
/// settings nor the number of adapters.
pub proof fn lemma_transition_wf(s: SupervisorView, event: Event)
    requires
        s.wf(),
    ensures
        s.transition(event).wf(),
        s.transition(event).launcher == s.launcher,
        s.transition(event).adapters.len() == s.adapters.len(),
{
}

/// Once the pending action is to stop, no event changes anything.
pub proof fn lemma_stop_is_final(s: SupervisorView, events: Seq<Event>)
    requires
        s.pending() is Stop,
    ensures
        run(s, events) == s,
    decreases events.len(),
{
    if events.len() > 0 {
        lemma_stop_is_final(s, events.drop_last());
    }
}

/// Running `first` and then `rest` is running `rest` from where `first` ends.
pub proof fn lemma_run_concat(s: SupervisorView, first: Seq<Event>, rest: Seq<Event>)
    ensures
        run(s, first + rest) == run(run(s, first), rest),
    decreases rest.len(),
{
    if rest.len() == 0 {
        assert(first + rest =~= first);
    } else {
        lemma_run_concat(s, first, rest.drop_last());
        assert((first + rest).drop_last() =~= first + rest.drop_last());
        assert((first + rest).last() == rest.last());
    }
}

/// A tick visits the adapters in declaration order, one report each. After
/// the reports on the first `outcomes.len()` adapters, exactly those have
/// settled, every later adapter is as the tick found it, and the supervisor
/// stands at the next adapter, or at the top of the next tick once all are
/// done.
pub proof fn lemma_tick_prefix(s: SupervisorView, outcomes: Seq<Event>)
    requires
        s.wf(),
        s.cursor == Cursor::TickStart,
        outcomes.len() <= s.adapters.len(),
        forall|i: int|
            0 <= i < outcomes.len() ==> answers(
                reconcile(i as usize, s.adapters[i]),
                #[trigger] outcomes[i],
            ),
    ensures
        run(s, tick_events(outcomes)).wf(),
        run(s, tick_events(outcomes)).launcher == s.launcher,
        run(s, tick_events(outcomes)).adapters.len() == s.adapters.len(),
        forall|i: int|
            0 <= i < outcomes.len() ==> #[trigger] run(s, tick_events(outcomes)).adapters[i]
                == settled(s.adapters[i], outcomes[i]),
        forall|i: int|
            outcomes.len() <= i < s.adapters.len() ==> #[trigger] run(
                s,
                tick_events(outcomes),
            ).adapters[i] == s.adapters[i],
        run(s, tick_events(outcomes)).cursor == if outcomes.len() < s.adapters.len() {
            Cursor::At(outcomes.len() as usize)
        } else {
            Cursor::TickStart
        },
    decreases outcomes.len(),
{
    let events = tick_events(outcomes);
    if outcomes.len() == 0 {
        assert(events.drop_last() =~= Seq::<Event>::empty());
        assert(run(s, events.drop_last()) == s);
        assert(events.last() == Event::NoShutdown);
    } else {
        let k = outcomes.len() - 1;
        let before = outcomes.drop_last();
        assert forall|i: int| 0 <= i < before.len() implies answers(
            reconcile(i as usize, s.adapters[i]),
            #[trigger] before[i],
        ) by {
            assert(before[i] == outcomes[i]);
        }
        lemma_tick_prefix(s, before);
        assert(events.drop_last() =~= tick_events(before));
        assert(events.last() == outcomes[k]);
        let mid = run(s, tick_events(before));
        assert(mid.cursor == Cursor::At(k as usize));
        assert(mid.adapters[k] == s.adapters[k]);
        assert(mid.pending() == reconcile(k as usize, s.adapters[k]));
        let end = mid.transition(outcomes[k]);
        assert(run(s, events) == end);
        assert forall|i: int| 0 <= i < outcomes.len() implies #[trigger] end.adapters[i]
            == settled(s.adapters[i], outcomes[i]) by {
            if i < k {
                assert(mid.adapters[i] == settled(s.adapters[i], before[i]));
            }
        }
    }
}

/// An idle adapter of a known type is launched at its turn: with its
/// resolved executable, `-c` and its configuration path. Once the launch is
/// reported to have succeeded the adapter is running under the reported
/// handle, and the tick ends with it so.
pub proof fn lemma_idle_adapter_is_launched(s: SupervisorView, outcomes: Seq<Event>, i: int)
    requires
        s.wf(),
        s.cursor == Cursor::TickStart,
        outcomes.len() == s.adapters.len(),
        forall|j: int|
            0 <= j < outcomes.len() ==> answers(
                reconcile(j as usize, s.adapters[j]),
                #[trigger] outcomes[j],
            ),
        0 <= i < s.adapters.len(),
        s.adapters[i].is_idle(),
    ensures
        resolve(s.adapters[i].typ) is Some,
        run(s, tick_events(outcomes.take(i))).pending() == (ActionView::Spawn {
            index: i as usize,
            request: spawn_request(resolve(s.adapters[i].typ)->0, s.adapters[i].config),
        }),
        outcomes[i] matches Event::Spawned(handle) ==> run(s, tick_events(outcomes)).adapters[i]
            == s.adapters[i].with_child(Some(handle)) && run(
            s,
            tick_events(outcomes),
        ).adapters[i].is_running(),
        outcomes[i] is SpawnFailed ==> run(s, tick_events(outcomes)).adapters[i].is_idle(),
        run(s, tick_events(outcomes)).cursor == Cursor::TickStart,
{
    let before = outcomes.take(i);
    assert forall|j: int| 0 <= j < before.len() implies answers(
        reconcile(j as usize, s.adapters[j]),
        #[trigger] before[j],
    ) by {
        assert(before[j] == outcomes[j]);
    }
    lemma_tick_prefix(s, before);
    lemma_tick_prefix(s, outcomes);
    assert(answers(reconcile(i as usize, s.adapters[i]), outcomes[i]));
    let mid = run(s, tick_events(before));
    assert(mid.adapters[i] == s.adapters[i]);
}

/// A running adapter has its process queried at its turn. Once the process
/// is reported to have exited the adapter is idle, and the tick ends with it
/// so; no other report changes it. The tick that follows therefore launches
/// it again, as it does every idle adapter of a known type.
pub proof fn lemma_exited_adapter_becomes_idle(s: SupervisorView, outcomes: Seq<Event>, i: int)
    requires
        s.wf(),
        s.cursor == Cursor::TickStart,
        outcomes.len() == s.adapters.len(),
        forall|j: int|
            0 <= j < outcomes.len() ==> answers(
                reconcile(j as usize, s.adapters[j]),
                #[trigger] outcomes[j],
            ),
        0 <= i < s.adapters.len(),
        s.adapters[i].is_running(),
    ensures
        run(s, tick_events(outcomes.take(i))).pending() == (ActionView::CheckStatus {
            index: i as usize,
            handle: s.adapters[i].child->0,
        }),
        outcomes[i] is Exited ==> run(s, tick_events(outcomes)).adapters[i]
            == s.adapters[i].with_child(None) && run(s, tick_events(outcomes)).adapters[i].is_idle(),
        !(outcomes[i] is Exited) ==> run(s, tick_events(outcomes)).adapters[i] == s.adapters[i],
        run(s, tick_events(outcomes)).cursor == Cursor::TickStart,
        run(s, tick_events(outcomes)).wf(),
{
    let before = outcomes.take(i);
    assert forall|j: int| 0 <= j < before.len() implies answers(
        reconcile(j as usize, s.adapters[j]),
        #[trigger] before[j],
    ) by {
        assert(before[j] == outcomes[j]);
    }
    lemma_tick_prefix(s, before);
    lemma_tick_prefix(s, outcomes);
    assert(answers(reconcile(i as usize, s.adapters[i]), outcomes[i]));
    let mid = run(s, tick_events(before));
    assert(mid.adapters[i] == s.adapters[i]);
}

/// No adapter stays idle: one whose process is seen to exit in a tick is
/// launched again at its turn in the tick that follows.
pub proof fn lemma_exited_adapter_is_relaunched(
    s: SupervisorView,
    outcomes: Seq<Event>,
    next_outcomes: Seq<Event>,
    i: int,
)
    requires
        s.wf(),
        s.cursor == Cursor::TickStart,
        outcomes.len() == s.adapters.len(),
        next_outcomes.len() == s.adapters.len(),
        forall|j: int|
            0 <= j < outcomes.len() ==> answers(
                reconcile(j as usize, s.adapters[j]),
                #[trigger] outcomes[j],
            ),
        forall|j: int|
            0 <= j < next_outcomes.len() ==> answers(
                reconcile(j as usize, run(s, tick_events(outcomes)).adapters[j]),
                #[trigger] next_outcomes[j],
            ),
        0 <= i < s.adapters.len(),
        s.adapters[i].is_running(),
        outcomes[i] is Exited,
    ensures
        resolve(s.adapters[i].typ) is Some,
        run(
            s,
            tick_events(outcomes) + tick_events(next_outcomes.take(i)),
        ).pending() == (ActionView::Spawn {
            index: i as usize,
            request: spawn_request(resolve(s.adapters[i].typ)->0, s.adapters[i].config),
        }),
{
    lemma_tick_prefix(s, outcomes);
    lemma_exited_adapter_becomes_idle(s, outcomes, i);
    let t = run(s, tick_events(outcomes));
    lemma_idle_adapter_is_launched(t, next_outcomes, i);
    lemma_run_concat(s, tick_events(outcomes), tick_events(next_outcomes.take(i)));
}

/// An idle adapter of unknown type ends supervision at its turn, with an
/// error that names it. Whatever is reported afterwards, the adapters before
/// it stay as the tick settled them, so those that were launched keep their
/// processes, and the adapters from it onwards are never touched.
pub proof fn lemma_unknown_type_stops_tick(
    s: SupervisorView,
    outcomes: Seq<Event>,
    later: Seq<Event>,
)
    requires
        s.wf(),
        s.cursor == Cursor::TickStart,
        outcomes.len() < s.adapters.len(),
        forall|j: int|
            0 <= j < outcomes.len() ==> answers(
                reconcile(j as usize, s.adapters[j]),
                #[trigger] outcomes[j],
            ),
        s.adapters[outcomes.len() as int].is_idle(),
        resolve(s.adapters[outcomes.len() as int].typ) is None,
    ensures
        run(s, tick_events(outcomes) + later) == run(s, tick_events(outcomes)),
        run(s, tick_events(outcomes)).pending() == ActionView::Stop(
            Err(unresolved_message(s.adapters[outcomes.len() as int].name)),
        ),
        run(s, tick_events(outcomes)).adapters.len() == s.adapters.len(),
        forall|j: int|
            0 <= j < outcomes.len() ==> #[trigger] run(s, tick_events(outcomes)).adapters[j]
                == settled(s.adapters[j], outcomes[j]),
        forall|j: int|
            outcomes.len() <= j < s.adapters.len() ==> #[trigger] run(
                s,
                tick_events(outcomes),
            ).adapters[j] == s.adapters[j],
{
    lemma_tick_prefix(s, outcomes);
    let stopped = run(s, tick_events(outcomes));
    assert(stopped.adapters[outcomes.len() as int] == s.adapters[outcomes.len() as int]);
    lemma_run_concat(s, tick_events(outcomes), later);
    lemma_stop_is_final(stopped, later);
}

/// A shutdown request found at the top of a tick ends supervision with
/// success. No adapter is touched, and whatever is reported afterwards
/// nothing is queried or launched any more.
pub proof fn lemma_shutdown_stops_before_tick(s: SupervisorView, later: Seq<Event>)
    requires
        s.wf(),
        s.cursor == Cursor::TickStart,
    ensures
        run(s, seq![Event::ShutdownRequested] + later) == s.at(Cursor::ShutDown),
        s.at(Cursor::ShutDown).pending() == ActionView::Stop(Ok(())),
        s.at(Cursor::ShutDown).adapters == s.adapters,
{
    let first = seq![Event::ShutdownRequested];
    assert(first.drop_last() =~= Seq::<Event>::empty());
    assert(run(s, first.drop_last()) == s);
    assert(first.last() == Event::ShutdownRequested);
    assert(run(s, first) == s.at(Cursor::ShutDown));
    lemma_run_concat(s, first, later);
    lemma_stop_is_final(s.at(Cursor::ShutDown), later);
}

} // verus!
