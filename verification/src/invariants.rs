//! What holds of every run, whatever the events it is fed.

use crate::baseline::captured;
use crate::correctness::{all_match, batch_fault, first_failure_is_first};
use crate::run::{after, transition, Action, Event, RunState};
use crate::stage::Stage;
use crate::verdict::TransportFault;
use vstd::prelude::*;

verus! {

/// No event leads a run out of the states it can be in.
pub proof fn transition_keeps_wf(s: RunState, event: Event)
    requires
        s.wf(),
    ensures
        transition(s, event).state.wf(),
{
    let next = transition(s, event).state;
    assert forall|i: int| 0 <= i < next.cases.len() implies (#[trigger] next.cases[i]).0
        == next.urls[i] by {
        if i < s.cases.len() {
            assert(s.cases[i].0 == s.urls[i]);
        }
    }
}

/// The same, for a series of events.
pub proof fn run_keeps_wf(s: RunState, events: Seq<Event>)
    requires
        s.wf(),
    ensures
        after(s, events).wf(),
    decreases events.len(),
{
    if events.len() > 0 {
        run_keeps_wf(s, events.drop_last());
        transition_keeps_wf(after(s, events.drop_last()), events.last());
    }
}

/// The stages come in their fixed order: an event leaves the run where it
/// is, moves it to the very next stage, or ends it.
pub proof fn stages_come_in_order(s: RunState, event: Event)
    requires
        s.wf(),
    ensures
        ({
            let next = transition(s, event).state;
            ||| next.stage == s.stage
            ||| next.stage.rank() == s.stage.rank() + 1
            ||| next.stage == Stage::Terminated
        }),
        transition(s, event).state.stage.rank() >= s.stage.rank(),
{
}

/// The configuration is never touched: the URLs, their order, the rate, the
/// port and the fan-out are the same after every event.
pub proof fn configuration_is_fixed(s: RunState, event: Event)
    ensures
        transition(s, event).state.urls == s.urls,
        transition(s, event).state.rps == s.rps,
        transition(s, event).state.port == s.port,
        transition(s, event).state.clients == s.clients,
{
}

/// The baseline only ever grows, one URL at a time and in the configured
/// order, and is never altered once the correctness phase has begun: each
/// body that a later phase compares with is the one that the direct fetch of
/// the same URL brought.
pub proof fn baseline_is_kept(s: RunState, event: Event)
    requires
        s.wf(),
    ensures
        transition(s, event).state.cases.take(s.cases.len() as int) == s.cases,
        s.stage != Stage::Baseline ==> transition(s, event).state.cases == s.cases,
        transition(s, event).state.cases.len() <= s.cases.len() + 1,
        forall|i: int|
            0 <= i < transition(s, event).state.cases.len() ==> (#[trigger] transition(
                s,
                event,
            ).state.cases[i]).0 == s.urls[i],
{
    let next = transition(s, event).state;
    transition_keeps_wf(s, event);
    assert(next.cases.take(s.cases.len() as int) =~= s.cases);
}

/// A run that is over stays over: no event changes it and none is answered
/// with anything to do.
pub proof fn terminated_is_final(s: RunState, event: Event)
    requires
        s.stage == Stage::Terminated,
    ensures
        transition(s, event).state == s,
        transition(s, event).action == Action::Ignore,
        transition(s, event).print == Seq::<Seq<char>>::empty(),
{
}

/// The same, for a series of events.
pub proof fn terminated_stays_terminated(s: RunState, events: Seq<Event>)
    requires
        s.stage == Stage::Terminated,
    ensures
        after(s, events) == s,
    decreases events.len(),
{
    if events.len() > 0 {
        terminated_stays_terminated(s, events.drop_last());
        terminated_is_final(s, events.last());
    }
}

/// A proxy that corrupts a single response stops the run: the batch with
/// that response is answered with an abort, the fault is recorded, and
/// whatever happens afterwards the load phase is never reached.
pub proof fn corruption_stops_the_run(
    s: RunState,
    responses: Vec<Result<String, TransportFault>>,
    later: Seq<Event>,
)
    requires
        s.wf(),
        s.stage == Stage::Correctness,
        responses@.len() == s.clients,
        !all_match(responses@, s.cases[s.cursor as int].1),
    ensures
        ({
            let answer = transition(s, Event::ProxiedResponses(responses));
            &&& answer.state.stage == Stage::Terminated
            &&& answer.state.failure == batch_fault(
                responses@,
                s.cases[s.cursor as int].1,
                s.cursor as usize,
            )
            &&& answer.state.failure matches Some(fault)
            &&& answer.action == Action::Abort(fault)
            &&& after(answer.state, later).stage == Stage::Terminated
        }),
{
    first_failure_is_first(responses@, s.cases[s.cursor as int].1);
    let answer = transition(s, Event::ProxiedResponses(responses));
    terminated_stays_terminated(answer.state, later);
}

/// The batches are answers of a proxy that hands every response through
/// unchanged: one batch for each URL from the `from`-th on, each of
/// `clients` responses, each response the expected body of its URL.
pub open spec fn faithful(s: RunState, from: int, batches: Seq<Event>) -> bool {
    forall|k: int|
        0 <= k < batches.len() ==> (#[trigger] batches[k] matches Event::ProxiedResponses(responses)
            && responses@.len() == s.clients && all_match(responses@, s.cases[from + k].1))
}

/// With a faithful proxy the correctness phase moves on by one URL per
/// batch and fails on none.
pub proof fn faithful_proxy_advances(s: RunState, batches: Seq<Event>)
    requires
        s.wf(),
        s.stage == Stage::Correctness,
        batches.len() <= s.urls.len() - s.cursor,
        faithful(s, s.cursor as int, batches),
    ensures
        after(s, batches).failure is None,
        after(s, batches).cases == s.cases,
        after(s, batches).urls == s.urls,
        after(s, batches).clients == s.clients,
        batches.len() < s.urls.len() - s.cursor ==> after(s, batches).stage == Stage::Correctness
            && after(s, batches).cursor == s.cursor + batches.len(),
        batches.len() == s.urls.len() - s.cursor ==> after(s, batches).stage == Stage::Load,
    decreases batches.len(),
{
    if batches.len() > 0 {
        let head = batches.drop_last();
        assert forall|k: int| 0 <= k < head.len() implies (#[trigger] head[k] matches Event::ProxiedResponses(
            responses,
        ) && responses@.len() == s.clients && all_match(responses@, s.cases[s.cursor + k].1)) by {
            assert(head[k] == batches[k]);
        }
        faithful_proxy_advances(s, head);
        run_keeps_wf(s, head);
        let mid = after(s, head);
        let last = batches.last();
        assert(last == batches[batches.len() - 1]);
        if let Event::ProxiedResponses(responses) = last {
            first_failure_is_first(responses@, mid.cases[mid.cursor as int].1);
        }
    }
}

/// With a faithful proxy the correctness phase passes: after one batch per
/// URL, all of them matching, the run stands in the load phase with no
/// fault.
pub proof fn faithful_proxy_passes(s: RunState, batches: Seq<Event>)
    requires
        s.wf(),
        s.stage == Stage::Correctness,
        s.cursor == 0,
        batches.len() == s.urls.len(),
        faithful(s, 0, batches),
    ensures
        after(s, batches).stage == Stage::Load,
        after(s, batches).failure is None,
{
    faithful_proxy_advances(s, batches);
}

/// The events are the ends of direct fetches that brought the given bodies,
/// in order.
pub open spec fn answers_with(events: Seq<Event>, bodies: Seq<Seq<char>>) -> bool {
    &&& events.len() == bodies.len()
    &&& forall|k: int|
        0 <= k < events.len() ==> (#[trigger] events[k] matches Event::DirectResponse(Ok(body))
            && body@ == bodies[k])
}

/// The state of a run whose baseline phase, begun in `s`, has seen the
/// given bodies come in.
pub open spec fn with_baseline(s: RunState, bodies: Seq<Seq<char>>) -> RunState {
    if bodies.len() < s.urls.len() {
        RunState { cases: captured(s.urls, bodies), ..s }
    } else {
        RunState { cases: captured(s.urls, bodies), stage: Stage::Correctness, cursor: 0, ..s }
    }
}

/// The baseline is the bodies that the direct fetches brought, each beside
/// its URL and in the configured order, and nothing else: the state after
/// the fetches is a function of the bodies. Once the last URL has answered,
/// the correctness phase begins.
pub proof fn baseline_follows_responses(s: RunState, events: Seq<Event>, bodies: Seq<Seq<char>>)
    requires
        s.wf(),
        s.stage == Stage::Baseline,
        s.cases.len() == 0,
        bodies.len() <= s.urls.len(),
        answers_with(events, bodies),
    ensures
        after(s, events) == with_baseline(s, bodies),
    decreases events.len(),
{
    if events.len() == 0 {
        assert(captured(s.urls, bodies) =~= s.cases);
    } else {
        let head = events.drop_last();
        let seen = bodies.drop_last();
        assert forall|k: int| 0 <= k < head.len() implies (#[trigger] head[k] matches Event::DirectResponse(
            Ok(body),
        ) && body@ == seen[k]) by {
            assert(head[k] == events[k]);
        }
        baseline_follows_responses(s, head, seen);
        let mid = after(s, head);
        let last = events.last();
        assert(last == events[events.len() - 1]);
        if let Event::DirectResponse(Ok(body)) = last {
            assert(mid.cases.push((mid.urls[mid.cases.len() as int], body@)) =~= captured(
                s.urls,
                bodies,
            ));
        }
    }
}

/// Capturing the baseline twice gives the same baseline whenever the
/// targets answer the same both times.
pub proof fn baseline_is_repeatable(
    s: RunState,
    first: Seq<Event>,
    second: Seq<Event>,
    bodies: Seq<Seq<char>>,
)
    requires
        s.wf(),
        s.stage == Stage::Baseline,
        s.cases.len() == 0,
        bodies.len() <= s.urls.len(),
        answers_with(first, bodies),
        answers_with(second, bodies),
    ensures
        after(s, first) == after(s, second),
        after(s, first).cases == captured(s.urls, bodies),
{
    baseline_follows_responses(s, first, bodies);
    baseline_follows_responses(s, second, bodies);
}

/// A fault is always answered with an abort and always recorded, and
/// nothing else is: the run holds a fault exactly when an event was
/// answered with `Abort`, and then it is over.
pub proof fn aborts_are_recorded(s: RunState, event: Event)
    requires
        s.wf(),
    ensures
        transition(s, event).action matches Action::Abort(fault) ==> s.failure is None
            && transition(s, event).state.failure == Some(fault) && transition(
            s,
            event,
        ).state.stage == Stage::Terminated,
        !(transition(s, event).action is Abort) ==> transition(s, event).state.failure
            == s.failure,
{
}

/// The load phase is entered in one way only: by the batch for the last URL
/// in which every response is the expected body, all batches before it
/// having passed.
pub proof fn load_needs_a_passed_check(s: RunState, event: Event)
    requires
        s.wf(),
        s.stage != Stage::Load,
        transition(s, event).state.stage == Stage::Load,
    ensures
        s.stage == Stage::Correctness,
        s.cursor + 1 == s.urls.len(),
        event matches Event::ProxiedResponses(responses) && responses@.len() == s.clients
            && all_match(responses@, s.cases[s.cursor as int].1),
        transition(s, event).action == (Action::LaunchLoops { port: s.port, rps: s.rps }),
{
    if let Event::ProxiedResponses(responses) = event {
        first_failure_is_first(responses@, s.cases[s.cursor as int].1);
    }
}

/// The report is drawn up in one way only: after the cancellation signal,
/// from the readings that were taken then.
pub proof fn report_needs_cancellation(s: RunState, event: Event)
    requires
        s.wf(),
        transition(s, event).action == Action::Halt,
    ensures
        s.stage == Stage::Reporting,
        event is Readings,
        s.failure is None,
{
}

/// The run turns to reporting on the cancellation signal and on nothing
/// else.
pub proof fn reporting_follows_cancellation(s: RunState, event: Event)
    requires
        s.wf(),
        s.stage != Stage::Reporting,
        transition(s, event).state.stage == Stage::Reporting,
    ensures
        s.stage == Stage::AwaitingCancellation,
        event is Cancelled,
        transition(s, event).action == Action::TakeReadings,
{
}

} // verus!
