//! What the facts of a run refer to: spans that have begun in the run, and facts that the hub has
//! accepted before.
use crate::context::{
    Attempt, DiagnosticProducerError, DiagnosticRunContext, SpanEventAdmission,
};
use crate::event::{EventBody, EventCandidate};
use vstd::prelude::*;

verus! {

/// The event begins a span.
pub open spec fn begins_span(body: EventBody) -> bool {
    body is SpanStarted || body is CustomSpanStarted
}

/// The span that the event ends.
pub open spec fn ended_span(body: EventBody) -> Option<u64> {
    match body {
        EventBody::SpanFinished { span_id, .. } => Some(span_id),
        EventBody::CustomSpanFinished { custom_span_id, .. } => Some(custom_span_id),
        _ => None,
    }
}

/// The span that the event lies in.
pub open spec fn outer_span(body: EventBody) -> Option<u64> {
    match body {
        EventBody::SpanStarted { parent_span_id, .. } => parent_span_id,
        EventBody::InstantOccurred { containing_span_id, .. } => containing_span_id,
        EventBody::CustomSpanStarted { parent_id, .. } => parent_id,
        EventBody::CustomInstantOccurred { containing_id, .. } => containing_id,
        _ => None,
    }
}

/// The attempt was accepted under this sequence.
pub open spec fn was_accepted(attempt: Attempt, sequence: u64) -> bool {
    attempt.reply == Ok::<u64, DiagnosticProducerError>(sequence)
}

/// A fact with this sequence was accepted.
pub open spec fn accepted_in(trace: Seq<Attempt>, sequence: u64) -> bool {
    exists|i: int| 0 <= i < trace.len() && was_accepted(#[trigger] trace[i], sequence)
}

/// A span with this identifier has begun.
pub open spec fn begun_in(trace: Seq<Attempt>, span_id: u64) -> bool {
    exists|i: int|
        0 <= i < trace.len() && was_accepted(#[trigger] trace[i], span_id) && begins_span(
            trace[i].candidate.body,
        )
}

/// The event refers only to what is in the trace.
pub open spec fn refers_to(event: EventCandidate, trace: Seq<Attempt>) -> bool {
    &&& ended_span(event.body) matches Some(span_id) ==> begun_in(trace, span_id)
    &&& outer_span(event.body) matches Some(span_id) ==> begun_in(trace, span_id)
    &&& event.cause matches Some(cause) ==> accepted_in(trace, cause.sequence)
}

/// Every fact refers only to what came before it.
pub open spec fn refer_back(trace: Seq<Attempt>) -> bool {
    forall|i: int|
        0 <= i < trace.len() ==> refers_to((#[trigger] trace[i]).candidate, trace.take(i))
}

/// A trace goes on: nothing in it is forgotten.
pub open spec fn goes_on(trace: Seq<Attempt>, later: Seq<Attempt>) -> bool {
    &&& trace.len() <= later.len()
    &&& later.take(trace.len() as int) =~= trace
    &&& forall|sequence: u64|
        #![trigger accepted_in(later, sequence)]
        accepted_in(trace, sequence) ==> accepted_in(later, sequence)
    &&& forall|span_id: u64|
        #![trigger begun_in(later, span_id)]
        begun_in(trace, span_id) ==> begun_in(later, span_id)
}

/// What was accepted and what has begun stays so while a trace goes on.
pub proof fn what_began_stays_begun(trace: Seq<Attempt>, later: Seq<Attempt>)
    requires
        trace.len() <= later.len(),
        later.take(trace.len() as int) =~= trace,
    ensures
        goes_on(trace, later),
{
    assert forall|sequence: u64| accepted_in(trace, sequence) implies #[trigger] accepted_in(
        later,
        sequence,
    ) by {
        let i = choose|i: int|
            0 <= i < trace.len() && was_accepted(#[trigger] trace[i], sequence);
        assert(later.take(trace.len() as int)[i] == later[i]);
        assert(was_accepted(later[i], sequence));
    }
    assert forall|span_id: u64| begun_in(trace, span_id) implies #[trigger] begun_in(
        later,
        span_id,
    ) by {
        let i = choose|i: int|
            0 <= i < trace.len() && was_accepted(#[trigger] trace[i], span_id) && begins_span(
                trace[i].candidate.body,
            );
        assert(later.take(trace.len() as int)[i] == later[i]);
        assert(was_accepted(later[i], span_id));
    }
}

/// A trace that goes on twice goes on.
pub proof fn goes_on_and_on(trace: Seq<Attempt>, later: Seq<Attempt>, latest: Seq<Attempt>)
    requires
        goes_on(trace, later),
        goes_on(later, latest),
    ensures
        goes_on(trace, latest),
{
    assert(latest.take(trace.len() as int) =~= later.take(trace.len() as int));
    what_began_stays_begun(trace, latest);
}

/// The event of the plan at this place begins a span.
pub open spec fn starts_at(
    plan: spec_fn(Seq<u64>) -> Option<EventCandidate>,
    accepted: Seq<u64>,
    place: int,
) -> bool {
    plan(accepted.take(place)) matches Some(event) && begins_span(event.body)
}

/// The plan has begun the span before.
pub open spec fn begun_by(
    plan: spec_fn(Seq<u64>) -> Option<EventCandidate>,
    accepted: Seq<u64>,
    span_id: u64,
) -> bool {
    exists|place: int|
        0 <= place < accepted.len() && accepted[place] == span_id && #[trigger] starts_at(
            plan,
            accepted,
            place,
        )
}

/// The next event of the plan refers only to what is in the trace, or what the plan has brought
/// forth before.
pub open spec fn sound_after(
    plan: spec_fn(Seq<u64>) -> Option<EventCandidate>,
    trace: Seq<Attempt>,
    accepted: Seq<u64>,
) -> bool {
    plan(accepted) matches Some(event) ==> {
        &&& ended_span(event.body) matches Some(span_id) ==> begun_in(trace, span_id)
        &&& outer_span(event.body) matches Some(span_id) ==> begun_in(trace, span_id) || begun_by(
            plan,
            accepted,
            span_id,
        )
        &&& event.cause matches Some(cause) ==> accepted_in(trace, cause.sequence)
            || accepted.contains(cause.sequence)
    }
}

/// The plan refers only to what is in the trace, or what it has brought forth itself.
pub open spec fn is_sound(
    plan: spec_fn(Seq<u64>) -> Option<EventCandidate>,
    trace: Seq<Attempt>,
) -> bool {
    forall|accepted: Seq<u64>| #[trigger] sound_after(plan, trace, accepted)
}

/// What a plan has brought forth is in the trace.
pub open spec fn brought_forth<A: SpanEventAdmission>(
    context: DiagnosticRunContext<A>,
    before: DiagnosticRunContext<A>,
    plan: spec_fn(Seq<u64>) -> Option<EventCandidate>,
) -> bool {
    let accepted = context.accepted_since(before);
    forall|place: int|
        0 <= place < accepted.len() ==> {
            &&& accepted_in(context.trace(), #[trigger] accepted[place])
            &&& starts_at(plan, accepted, place) ==> begun_in(context.trace(), accepted[place])
        }
}

/// The place of a step within the whole trace.
proof fn step_at<A: SpanEventAdmission>(
    context: DiagnosticRunContext<A>,
    before: DiagnosticRunContext<A>,
    plan: spec_fn(Seq<u64>) -> Option<EventCandidate>,
    place: int,
)
    requires
        context.reports(before, plan),
        0 <= place < context.steps_since(before).len(),
    ensures
        context.trace()[before.trace().len() + place] == context.steps_since(before)[place],
        Attempt::accepted(context.steps_since(before).take(place)).len() == place,
        plan(Attempt::accepted(context.steps_since(before).take(place))) == Some(
            context.steps_since(before)[place].candidate,
        ),
        forall|k: int|
            0 <= k < place ==> was_accepted(
                context.steps_since(before)[k],
                (#[trigger] Attempt::accepted(context.steps_since(before).take(place))[k]),
            ),
{
    let steps = context.steps_since(before);
    let earlier = steps.take(place);
    if place > 0 {
        assert(earlier.last() == steps[place - 1]);
        assert(steps[place - 1].reply is Ok);
    }
    assert(!Attempt::stopped(earlier));
    assert(Attempt::accepted(earlier).len() == place);
    assert forall|k: int| 0 <= k < place implies was_accepted(
        steps[k],
        (#[trigger] Attempt::accepted(earlier)[k]),
    ) by {
        assert(earlier[k] == steps[k]);
        assert(steps[k].reply is Ok);
    }
}

/// A new fact of a sound plan refers only to what came before it.
proof fn new_fact_refers_back<A: SpanEventAdmission>(
    context: DiagnosticRunContext<A>,
    before: DiagnosticRunContext<A>,
    plan: spec_fn(Seq<u64>) -> Option<EventCandidate>,
    place: int,
)
    requires
        is_sound(plan, before.trace()),
        context.reports(before, plan),
        0 <= place < context.steps_since(before).len(),
    ensures
        refers_to(
            context.steps_since(before)[place].candidate,
            context.trace().take(before.trace().len() + place),
        ),
{
    let reported = before.trace().len() as int;
    let steps = context.steps_since(before);
    let earlier = context.trace().take(reported + place);
    let accepted = Attempt::accepted(steps.take(place));
    let event = steps[place].candidate;
    step_at(context, before, plan, place);
    assert(sound_after(plan, before.trace(), accepted));
    assert(earlier.take(reported) =~= before.trace());
    what_began_stays_begun(before.trace(), earlier);
    assert forall|k: int| 0 <= k < place implies earlier[reported + k] == #[trigger] steps[k] by {}
    if let Some(span_id) = outer_span(event.body) {
        if begun_by(plan, accepted, span_id) {
            begun_before(context, before, plan, place, span_id);
        }
        assert(begun_in(earlier, span_id));
    }
    if let Some(cause) = event.cause {
        if accepted.contains(cause.sequence) {
            let k = choose|k: int| 0 <= k < accepted.len() && accepted[k] == cause.sequence;
            assert(was_accepted(steps[k], accepted[k]));
            assert(was_accepted(earlier[reported + k], cause.sequence));
        }
        assert(accepted_in(earlier, cause.sequence));
    }
}

/// A span that a plan has begun is in the trace when the plan goes on.
proof fn begun_before<A: SpanEventAdmission>(
    context: DiagnosticRunContext<A>,
    before: DiagnosticRunContext<A>,
    plan: spec_fn(Seq<u64>) -> Option<EventCandidate>,
    place: int,
    span_id: u64,
)
    requires
        context.reports(before, plan),
        0 <= place < context.steps_since(before).len(),
        begun_by(plan, Attempt::accepted(context.steps_since(before).take(place)), span_id),
    ensures
        begun_in(context.trace().take(before.trace().len() + place), span_id),
{
    let reported = before.trace().len() as int;
    let steps = context.steps_since(before);
    let earlier = context.trace().take(reported + place);
    let accepted = Attempt::accepted(steps.take(place));
    step_at(context, before, plan, place);
    let k = choose|k: int|
        0 <= k < accepted.len() && accepted[k] == span_id && #[trigger] starts_at(
            plan,
            accepted,
            k,
        );
    step_at(context, before, plan, k);
    assert(was_accepted(steps[k], accepted[k]));
    assert(accepted.take(k) =~= Attempt::accepted(steps.take(k))) by {
        assert forall|j: int| 0 <= j < k implies accepted[j] == #[trigger] Attempt::accepted(
            steps.take(k),
        )[j] by {
            assert(was_accepted(steps[j], accepted[j]));
            assert(was_accepted(steps[j], Attempt::accepted(steps.take(k))[j]));
        }
    }
    assert(earlier[reported + k] == steps[k]);
    assert(was_accepted(earlier[reported + k], span_id));
}

/// What a plan has brought forth at a place is in the trace.
proof fn brought_forth_at<A: SpanEventAdmission>(
    context: DiagnosticRunContext<A>,
    before: DiagnosticRunContext<A>,
    plan: spec_fn(Seq<u64>) -> Option<EventCandidate>,
    place: int,
)
    requires
        context.reports(before, plan),
        0 <= place < context.accepted_since(before).len(),
    ensures
        accepted_in(context.trace(), context.accepted_since(before)[place]),
        starts_at(plan, context.accepted_since(before), place) ==> begun_in(
            context.trace(),
            context.accepted_since(before)[place],
        ),
{
    let reported = before.trace().len() as int;
    let steps = context.steps_since(before);
    let accepted = context.accepted_since(before);
    step_at(context, before, plan, place);
    assert(steps[place].reply is Ok);
    assert(accepted.take(place) =~= Attempt::accepted(steps.take(place))) by {
        assert forall|j: int| 0 <= j < place implies accepted[j] == #[trigger] Attempt::accepted(
            steps.take(place),
        )[j] by {
            assert(was_accepted(steps[j], Attempt::accepted(steps.take(place))[j]));
        }
    }
    assert(context.trace()[reported + place] == steps[place]);
    assert(was_accepted(context.trace()[reported + place], accepted[place]));
}

/// The facts of a sound plan refer only to what came before them.
pub proof fn sound_plans_refer_back<A: SpanEventAdmission>(
    context: DiagnosticRunContext<A>,
    before: DiagnosticRunContext<A>,
    plan: spec_fn(Seq<u64>) -> Option<EventCandidate>,
)
    requires
        refer_back(before.trace()),
        is_sound(plan, before.trace()),
        context.reports(before, plan),
    ensures
        refer_back(context.trace()),
        goes_on(before.trace(), context.trace()),
        brought_forth(context, before, plan),
{
    let trace = context.trace();
    let reported = before.trace().len() as int;
    assert(trace.take(reported) =~= before.trace());
    what_began_stays_begun(before.trace(), trace);
    assert forall|i: int| 0 <= i < trace.len() implies refers_to(
        (#[trigger] trace[i]).candidate,
        trace.take(i),
    ) by {
        if i < reported {
            assert(trace.take(reported)[i] == trace[i]);
            assert(before.trace()[i] == trace[i]);
            assert(before.trace().take(i) =~= trace.take(i));
        } else {
            assert(context.steps_since(before)[i - reported] == trace[i]);
            new_fact_refers_back(context, before, plan, i - reported);
        }
    }
    let accepted = context.accepted_since(before);
    assert forall|place: int| 0 <= place < accepted.len() implies {
        &&& accepted_in(trace, #[trigger] accepted[place])
        &&& starts_at(plan, accepted, place) ==> begun_in(trace, accepted[place])
    } by {
        brought_forth_at(context, before, plan, place);
    }
}

/// A fact that refers only to what is in the trace leaves a trace whose facts refer back.
pub proof fn one_fact_refers_back<A: SpanEventAdmission>(
    context: DiagnosticRunContext<A>,
    before: DiagnosticRunContext<A>,
    event: EventCandidate,
)
    requires
        refer_back(before.trace()),
        refers_to(event, before.trace()),
        context.reports(before, event.alone()),
    ensures
        refer_back(context.trace()),
        goes_on(before.trace(), context.trace()),
        Attempt::nth(context.accepted_since(before), 0) matches Some(sequence) ==> {
            &&& accepted_in(context.trace(), sequence)
            &&& begins_span(event.body) ==> begun_in(context.trace(), sequence)
        },
{
    let plan = event.alone();
    assert forall|accepted: Seq<u64>| #[trigger] sound_after(plan, before.trace(), accepted) by {}
    sound_plans_refer_back(context, before, plan);
    let accepted = context.accepted_since(before);
    if accepted.len() > 0 {
        assert(accepted_in(context.trace(), accepted[0]));
        if begins_span(event.body) {
            assert(starts_at(plan, accepted, 0));
        }
    }
}

/// A plan whose facts refer only to what is in the trace leaves a trace whose facts refer back.
pub proof fn plain_plans_refer_back<A: SpanEventAdmission>(
    context: DiagnosticRunContext<A>,
    before: DiagnosticRunContext<A>,
    plan: spec_fn(Seq<u64>) -> Option<EventCandidate>,
)
    requires
        refer_back(before.trace()),
        forall|accepted: Seq<u64>|
            #[trigger] plan(accepted) matches Some(event) ==> refers_to(event, before.trace()),
        context.reports(before, plan),
    ensures
        refer_back(context.trace()),
        goes_on(before.trace(), context.trace()),
{
    assert forall|accepted: Seq<u64>| #[trigger] sound_after(plan, before.trace(), accepted) by {
        assert(plan(accepted) == plan(accepted));
    }
    sound_plans_refer_back(context, before, plan);
}

/// A fact that refers only to what is in the trace, appended to it, leaves a trace whose facts refer
/// back.
pub proof fn appended_fact_refers_back(trace: Seq<Attempt>, attempt: Attempt)
    requires
        refer_back(trace),
        refers_to(attempt.candidate, trace),
    ensures
        refer_back(trace.push(attempt)),
        goes_on(trace, trace.push(attempt)),
        attempt.reply matches Ok(sequence) ==> {
            &&& accepted_in(trace.push(attempt), sequence)
            &&& begins_span(attempt.candidate.body) ==> begun_in(trace.push(attempt), sequence)
        },
{
    let later = trace.push(attempt);
    let reported = trace.len() as int;
    assert(later.take(reported) =~= trace);
    what_began_stays_begun(trace, later);
    assert forall|i: int| 0 <= i < later.len() implies refers_to(
        (#[trigger] later[i]).candidate,
        later.take(i),
    ) by {
        if i < reported {
            assert(trace[i] == later[i]);
            assert(trace.take(i) =~= later.take(i));
        }
    }
    if let Ok(sequence) = attempt.reply {
        assert(was_accepted(later[reported], sequence));
    }
}

/// The sequences that the hub gave to the first `count` of the facts.
pub open spec fn sequences(facts: Seq<Attempt>, count: int) -> Seq<u64> {
    Seq::new(count as nat, |i: int| facts[i].reply->Ok_0)
}

/// The facts of a plan, one by one: each is what the plan gives after those before it, all before it
/// were accepted, and a plan that nothing was refused of is told to its end.
pub proof fn planned_facts<A: SpanEventAdmission>(
    before: DiagnosticRunContext<A>,
    context: DiagnosticRunContext<A>,
    plan: spec_fn(Seq<u64>) -> Option<EventCandidate>,
)
    requires
        context.reports(before, plan),
    ensures
        ({
            let facts = context.steps_since(before);
            let count = facts.len() as int;
            &&& context.trace() =~= before.trace() + facts
            &&& forall|i: int|
                0 <= i < count ==> plan(sequences(facts, i)) == Some(
                    (#[trigger] facts[i]).candidate,
                )
            &&& forall|i: int| 0 <= i < count - 1 ==> (#[trigger] facts[i]).reply is Ok
            &&& context.stopped_since(before) <==> count > 0 && facts.last().reply is Err
            &&& !context.stopped_since(before) ==> plan(sequences(facts, count)) is None
            &&& !context.stopped_since(before) ==> context.accepted_since(before) == sequences(
                facts,
                count,
            )
        }),
{
    let facts = context.steps_since(before);
    let count = facts.len() as int;
    assert forall|i: int| 0 <= i < count implies plan(sequences(facts, i)) == Some(
        (#[trigger] facts[i]).candidate,
    ) by {
        assert(Attempt::accepted(facts.take(i)) =~= sequences(facts, i));
    }
    if !context.stopped_since(before) {
        assert(Attempt::accepted(facts) =~= sequences(facts, count));
    }
    assert(context.trace() =~= before.trace() + facts);
}

/// A plan of one event is one fact.
pub proof fn lone_fact<A: SpanEventAdmission>(
    before: DiagnosticRunContext<A>,
    context: DiagnosticRunContext<A>,
    event: EventCandidate,
)
    requires
        context.reports(before, event.alone()),
    ensures
        context.steps_since(before).len() == 1,
        context.steps_since(before)[0].candidate == event,
        context.trace() =~= before.trace().push(context.steps_since(before)[0]),
        context.stopped_since(before) <==> context.steps_since(before)[0].reply is Err,
        Attempt::nth(context.accepted_since(before), 0)
            == match context.steps_since(before)[0].reply {
            Ok(sequence) => Some(sequence),
            Err(_) => None,
        },
{
    let plan = event.alone();
    planned_facts(before, context, plan);
    let facts = context.steps_since(before);
    if facts.len() == 0 {
        assert(plan(sequences(facts, 0)) is Some);
    }
    if facts.len() > 1 {
        assert(plan(sequences(facts, 1)) == Some(facts[1].candidate));
        assert(plan(sequences(facts, 1)) is None);
    }
}

} // verus!
