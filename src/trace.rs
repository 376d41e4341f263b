use vstd::prelude::*;

use crate::driver::{accepts, step, Action, Event, Phase};

verus! {

/// The phase in which a driver waits for `events[k]`, once it has handled
/// the events before it (it starts out polling).
pub open spec fn phase_before<I, E, R>(report_send_failures: bool, events: Seq<Event<I, E, R>>, k: int) -> Phase {
    if k == 0 {
        Phase::Polling
    } else {
        step(report_send_failures, events[k - 1]).0
    }
}

/// Whether a fresh driver accepts each of `events` in turn.
pub open spec fn is_run<I, E, R>(report_send_failures: bool, events: Seq<Event<I, E, R>>) -> bool {
    forall|k: int| 0 <= k < events.len() ==> accepts(#[trigger] phase_before(report_send_failures, events, k), events[k])
}

/// The actions that a driver returns for `events`, one for each.
pub open spec fn actions<I, E, R>(report_send_failures: bool, events: Seq<Event<I, E, R>>) -> Seq<Action<I, E, R>> {
    events.map_values(|e: Event<I, E, R>| step(report_send_failures, e).1)
}

/// The items pulled from the source, in order.
pub open spec fn pulled_items<I, E, R>(events: Seq<Event<I, E, R>>) -> Seq<I>
    decreases events.len(),
{
    if events.len() == 0 {
        Seq::empty()
    } else {
        let rest = pulled_items(events.drop_last());
        match events.last() {
            Event::Pulled(item) => rest.push(item),
            _ => rest,
        }
    }
}

/// The outputs that `process` produced, in order.
pub open spec fn produced_outputs<I, E, R>(events: Seq<Event<I, E, R>>) -> Seq<R>
    decreases events.len(),
{
    if events.len() == 0 {
        Seq::empty()
    } else {
        let rest = produced_outputs(events.drop_last());
        match events.last() {
            Event::Processed(out) => rest.push(out),
            _ => rest,
        }
    }
}

/// The items handed to `process`, in order.
pub open spec fn processed_items<I, E, R>(acts: Seq<Action<I, E, R>>) -> Seq<I>
    decreases acts.len(),
{
    if acts.len() == 0 {
        Seq::empty()
    } else {
        let rest = processed_items(acts.drop_last());
        match acts.last() {
            Action::Process(item) => rest.push(item),
            _ => rest,
        }
    }
}

/// The outputs handed to the sink's `send`, in order.
pub open spec fn sent_outputs<I, E, R>(acts: Seq<Action<I, E, R>>) -> Seq<R>
    decreases acts.len(),
{
    if acts.len() == 0 {
        Seq::empty()
    } else {
        let rest = sent_outputs(acts.drop_last());
        match acts.last() {
            Action::Send(out) => rest.push(out),
            _ => rest,
        }
    }
}

/// `stopped` is asked for exactly when the sources are exhausted, at most once
/// in a run, as the run's last action, and only while the driver was polling:
/// every earlier item had been dispatched or its error reported.
pub proof fn lemma_stop_is_last<I, E, R>(report_send_failures: bool, events: Seq<Event<I, E, R>>)
    requires
        is_run(report_send_failures, events),
    ensures
        forall|k: int| 0 <= k < events.len() ==>
            (#[trigger] actions(report_send_failures, events)[k] is Stop <==> events[k] is Exhausted),
        forall|k: int| 0 <= k < events.len() && #[trigger] events[k] is Exhausted ==> k == events.len() - 1,
        forall|k: int| 0 <= k < events.len() && events[k] is Exhausted ==>
            #[trigger] phase_before(report_send_failures, events, k) == Phase::Polling,
        forall|i: int, j: int| 0 <= i < events.len() && 0 <= j < events.len()
            && #[trigger] actions(report_send_failures, events)[i] is Stop
            && #[trigger] actions(report_send_failures, events)[j] is Stop ==> i == j,
{
    let acts = actions(report_send_failures, events);
    assert forall|k: int| 0 <= k < events.len() && #[trigger] events[k] is Exhausted implies k == events.len() - 1 by {
        if k + 1 < events.len() {
            assert(accepts(phase_before(report_send_failures, events, k + 1), events[k + 1]));
        }
    }
    assert forall|k: int| 0 <= k < events.len() && events[k] is Exhausted implies
        #[trigger] phase_before(report_send_failures, events, k) == Phase::Polling by {
        assert(accepts(phase_before(report_send_failures, events, k), events[k]));
    }
    assert forall|i: int, j: int| 0 <= i < events.len() && 0 <= j < events.len()
        && #[trigger] acts[i] is Stop && #[trigger] acts[j] is Stop implies i == j by {
        assert(events[i] is Exhausted);
        assert(events[j] is Exhausted);
    }
}

/// An error from the source goes to `on_error` as it is, and polling resumes
/// once `on_error` returns: `process` is never asked for in that slot.
pub proof fn lemma_source_error_reported<I, E, R>(report_send_failures: bool, events: Seq<Event<I, E, R>>)
    requires
        is_run(report_send_failures, events),
    ensures
        forall|k: int| 0 <= k < events.len() && #[trigger] events[k] is PullFailed ==>
            actions(report_send_failures, events)[k] == Action::<I, E, R>::Report(events[k]->PullFailed_0),
        forall|k: int| 0 <= k && k + 1 < events.len() && #[trigger] events[k] is PullFailed ==>
            events[k + 1] is Reported && actions(report_send_failures, events)[k + 1] is Pull,
{
    assert forall|k: int| 0 <= k && k + 1 < events.len() && #[trigger] events[k] is PullFailed implies
        events[k + 1] is Reported && actions(report_send_failures, events)[k + 1] is Pull by {
        assert(accepts(phase_before(report_send_failures, events, k + 1), events[k + 1]));
    }
}

/// An error from `process` goes to `on_error` as it is, and polling resumes
/// once `on_error` returns: nothing is sent in that slot.
pub proof fn lemma_process_error_reported<I, E, R>(report_send_failures: bool, events: Seq<Event<I, E, R>>)
    requires
        is_run(report_send_failures, events),
    ensures
        forall|k: int| 0 <= k < events.len() && #[trigger] events[k] is ProcessFailed ==>
            actions(report_send_failures, events)[k] == Action::<I, E, R>::Report(events[k]->ProcessFailed_0),
        forall|k: int| 0 <= k && k + 1 < events.len() && #[trigger] events[k] is ProcessFailed ==>
            events[k + 1] is Reported && actions(report_send_failures, events)[k + 1] is Pull,
{
    assert forall|k: int| 0 <= k && k + 1 < events.len() && #[trigger] events[k] is ProcessFailed implies
        events[k + 1] is Reported && actions(report_send_failures, events)[k + 1] is Pull by {
        assert(accepts(phase_before(report_send_failures, events, k + 1), events[k + 1]));
    }
}

/// Each output is sent at once; a flush is asked for only after the sink
/// accepted the output just before it; and the next pull is asked for only
/// once the flush is over, the send failed, or `on_error` returned.
pub proof fn lemma_send_then_flush_then_pull<I, E, R>(report_send_failures: bool, events: Seq<Event<I, E, R>>)
    requires
        is_run(report_send_failures, events),
    ensures
        forall|k: int| 0 <= k < events.len() && #[trigger] events[k] is Processed ==>
            actions(report_send_failures, events)[k] == Action::<I, E, R>::Send(events[k]->Processed_0),
        forall|k: int| 0 <= k && k + 1 < events.len() && #[trigger] actions(report_send_failures, events)[k] is Send ==>
            events[k + 1] is Sent || events[k + 1] is SendFailed,
        forall|k: int| 0 <= k < events.len() && #[trigger] actions(report_send_failures, events)[k] is Flush ==>
            events[k] is Sent && k > 0 && actions(report_send_failures, events)[k - 1] is Send,
        forall|k: int| 0 <= k && k + 1 < events.len() && #[trigger] actions(report_send_failures, events)[k] is Flush ==>
            events[k + 1] is Flushed || events[k + 1] is FlushFailed,
        forall|k: int| 0 <= k < events.len() && #[trigger] actions(report_send_failures, events)[k] is Pull ==>
            events[k] is Flushed || events[k] is SendFailed || events[k] is Reported,
{
    let acts = actions(report_send_failures, events);
    assert forall|k: int| 0 <= k && k + 1 < events.len() && #[trigger] acts[k] is Send implies
        events[k + 1] is Sent || events[k + 1] is SendFailed by {
        assert(accepts(phase_before(report_send_failures, events, k + 1), events[k + 1]));
    }
    assert forall|k: int| 0 <= k < events.len() && #[trigger] acts[k] is Flush implies
        events[k] is Sent && k > 0 && acts[k - 1] is Send by {
        assert(accepts(phase_before(report_send_failures, events, k), events[k]));
        if k > 0 {
            assert(acts[k - 1] == step(report_send_failures, events[k - 1]).1);
        }
    }
    assert forall|k: int| 0 <= k && k + 1 < events.len() && #[trigger] acts[k] is Flush implies
        events[k + 1] is Flushed || events[k + 1] is FlushFailed by {
        assert(accepts(phase_before(report_send_failures, events, k + 1), events[k + 1]));
    }
}

/// Order is kept end to end: items go to `process` in the order they were
/// pulled, and outputs go to the sink in the order `process` produced them.
pub proof fn lemma_order_kept<I, E, R>(report_send_failures: bool, events: Seq<Event<I, E, R>>)
    ensures
        processed_items(actions(report_send_failures, events)) == pulled_items(events),
        sent_outputs(actions(report_send_failures, events)) == produced_outputs(events),
    decreases events.len(),
{
    if events.len() > 0 {
        let rest = events.drop_last();
        lemma_order_kept(report_send_failures, rest);
        assert(actions(report_send_failures, events).drop_last() =~= actions(report_send_failures, rest));
    }
}

} // verus!
