use crate::apidoc::documented_post_responses;
use crate::evaluation::{
    accepts, answered, awaited_dependency, awaits, computed, event_fits, initial,
    names_elements_below, remaining_steps, state_fits, transition, Action, EvalRequest, Event,
    Operand, Stage, State,
};
use crate::outcome::{outcome_of, DepReply};
use crate::reply::{reply_status, Reply, STATUS_OK, STATUS_UNPROCESSABLE_ENTITY};
use crate::service::Dependency;
use vstd::prelude::*;

verus! {

/// The status and body of a dependency's answer that an event carries.
pub open spec fn answer_of<T, F, B>(event: Event<T, F, B>) -> Option<(u16, B)> {
    match event {
        Event::Sorted(DepReply::Answered { status, body, .. }) => Some((status, body)),
        Event::Answered(DepReply::Answered { status, body, .. }) => Some((status, body)),
        _ => None,
    }
}

/// Whether an event reports that a dependency could not be reached.
pub open spec fn reports_unreachable<T, F, B>(event: Event<T, F, B>) -> bool {
    match event {
        Event::Sorted(DepReply::Unreachable) => true,
        Event::Answered(DepReply::Unreachable) => true,
        _ => false,
    }
}

/// Whether an event reports success of what it answers: the sorting
/// dependency answered `200` with a non-empty list, an arithmetic dependency
/// answered `200` with a number, or the element read is a number.
pub open spec fn succeeded<T, F, B>(event: Event<T, F, B>) -> bool {
    match event {
        Event::Sorted(DepReply::Answered { status, result: Some(list), .. }) => status == STATUS_OK
            && list@.len() > 0,
        Event::Answered(DepReply::Answered { status, result: Some(_), .. }) => status == STATUS_OK,
        Event::ElementRead(value) => value is Some,
        Event::Ranked { .. } => true,
        _ => false,
    }
}

/// The number an event carries: the element read, or an arithmetic
/// dependency's result.
pub open spec fn number_of<T, F, B>(event: Event<T, F, B>) -> Option<F> {
    match event {
        Event::ElementRead(value) => value,
        Event::Answered(DepReply::Answered { result, .. }) => result,
        _ => None,
    }
}

/// Whether each event of `events`, handed in turn to an evaluation that starts
/// in `state`, is one that the evaluation waits for.
pub open spec fn accepted_run<T, F, B>(state: State<T, F>, events: Seq<Event<T, F, B>>) -> bool
    decreases events.len(),
{
    if events.len() == 0 {
        true
    } else {
        event_fits(state.0, state.1.len(), events[0]) && accepted_run(
            transition(state, events[0]).0,
            events.drop_first(),
        )
    }
}

/// The state and last action after handing each event of `events` in turn to
/// an evaluation that starts in `state`.
pub open spec fn run<T, F, B>(state: State<T, F>, events: Seq<Event<T, F, B>>) -> Option<
    (State<T, F>, Action<T, F, B>),
>
    decreases events.len(),
{
    if events.len() == 0 {
        None
    } else if events.len() == 1 {
        Some(transition(state, events[0]))
    } else {
        run(transition(state, events[0]).0, events.drop_first())
    }
}

/// Every step keeps the state consistent, names only elements of the sorted
/// list, brings the evaluation closer to its reply, and asks for exactly the
/// kind of event that the next stage waits for; the request is kept
/// unchanged until the evaluation answers.
pub proof fn law_step_progresses<T, F, B>(state: State<T, F>, event: Event<T, F, B>)
    requires
        state_fits(state),
        event_fits(state.0, state.1.len(), event),
    ensures
        ({
            let (next, action) = transition(state, event);
            &&& state_fits(next)
            &&& names_elements_below(action, next.1.len())
            &&& remaining_steps(next.0) < remaining_steps(state.0)
            &&& forall|e: Event<T, F, B>| accepts(next.0, e) == awaits(action, e)
            &&& (next.0 is Finished <==> action is Respond)
            &&& (!(next.0 is Finished) ==> next.2 == state.2)
        }),
{
}

/// An evaluation answers within five events: no run of events that it waits
/// for, from any consistent state, is longer than the steps its stage has
/// left (five from the start).
pub proof fn law_evaluation_answers_within_bound<T, F, B>(
    state: State<T, F>,
    events: Seq<Event<T, F, B>>,
)
    requires
        state_fits(state),
        accepted_run(state, events),
    ensures
        events.len() <= remaining_steps(state.0),
        events.len() <= 5,
    decreases events.len(),
{
    if events.len() > 0 {
        law_step_progresses(state, events[0]);
        law_evaluation_answers_within_bound(transition(state, events[0]).0, events.drop_first());
    }
}

/// From any consistent state with the request still held, a run of events
/// that ends in a successful answer succeeded at every event, and that answer
/// echoes the request and carries the number of the last event.
proof fn lemma_success_run<T, F, B>(state: State<T, F>, events: Seq<Event<T, F, B>>)
    requires
        state_fits(state),
        state.2 is Some,
        accepted_run(state, events),
        run(state, events) matches Some((_, Action::Respond(Reply::Computed(_)))),
    ensures
        events.len() > 0,
        forall|i: int| 0 <= i < events.len() ==> succeeded(#[trigger] events[i]),
        run(state, events) matches Some((_, Action::Respond(Reply::Computed(response))))
            && response.values == state.2->Some_0.values && response.p == state.2->Some_0.p
            && number_of(events.last()) == Some(response.result),
    decreases events.len(),
{
    let next = transition(state, events[0]);
    law_step_progresses(state, events[0]);
    if events.len() > 1 {
        let rest = events.drop_first();
        reveal_with_fuel(accepted_run, 2);
        lemma_success_run(next.0, rest);
        assert forall|i: int| 0 <= i < events.len() implies succeeded(#[trigger] events[i]) by {
            if i > 0 {
                assert(events[i] == rest[i - 1]);
            }
        }
        assert(events.last() == rest.last());
    }
}

/// A `200` answer is given only when the request's list is non-empty, the
/// sorting dependency answered `200` with a non-empty list, and every other
/// call it asked for succeeded; the answer echoes the request's values as
/// they were sent and its percentile, and its result is the number of the
/// last event: the element read, or what the adding dependency returned.
pub proof fn law_success_needs_every_call_to_succeed<T, F, B>(
    request: EvalRequest<T, F>,
    events: Seq<Event<T, F, B>>,
)
    requires
        accepted_run(initial::<T, F, B>(request).0, events),
        run(initial::<T, F, B>(request).0, events) matches Some(
            (_, Action::Respond(Reply::Computed(_))),
        ),
    ensures
        request.values@.len() > 0,
        events.len() > 0,
        events[0] is Sorted,
        forall|i: int| 0 <= i < events.len() ==> succeeded(#[trigger] events[i]),
        run(initial::<T, F, B>(request).0, events) matches Some(
            (_, Action::Respond(Reply::Computed(response))),
        ) && response.values == request.values && response.p == request.p && number_of(
            events.last(),
        ) == Some(response.result),
{
    let start = initial::<T, F, B>(request).0;
    if request.values@.len() == 0 {
        assert(!event_fits(start.0, start.1.len(), events[0]));
    }
    lemma_success_run(start, events);
}

/// The service does no arithmetic of its own: when the rank falls between two
/// elements, it asks for `sorted[lo + 1] - sorted[lo]`, then for `frac` times
/// that difference, then for `sorted[lo]` plus that product, and answers with
/// exactly the sum the adding dependency returned, beside the request's
/// values and percentile.
pub proof fn law_interpolation_is_delegated<T, F, B>(
    sorted: Seq<T>,
    request: EvalRequest<T, F>,
    lo: usize,
    frac: F,
    diff: F,
    scaled: F,
    sum: F,
    bodies: (B, B, B),
)
    requires
        lo + 1 < sorted.len(),
    ensures
        ({
            let e1 = Event::<T, F, B>::Ranked { lo, frac };
            let e2 = Event::<T, F, B>::Answered(
                DepReply::Answered { status: STATUS_OK, result: Some(diff), body: bodies.0 },
            );
            let e3 = Event::<T, F, B>::Answered(
                DepReply::Answered { status: STATUS_OK, result: Some(scaled), body: bodies.1 },
            );
            let e4 = Event::<T, F, B>::Answered(
                DepReply::Answered { status: STATUS_OK, result: Some(sum), body: bodies.2 },
            );
            let s0: State<T, F> = (Stage::Ranking, sorted, Some(request));
            let (s1, a1) = transition(s0, e1);
            let (s2, a2) = transition(s1, e2);
            let (s3, a3) = transition(s2, e3);
            let (s4, a4) = transition(s3, e4);
            &&& a1 == Action::<T, F, B>::CallFloat {
                dependency: Dependency::FloatSubtract,
                a: Operand::Element((lo + 1) as usize),
                b: Operand::Element(lo),
            }
            &&& a2 == Action::<T, F, B>::CallFloat {
                dependency: Dependency::FloatMultiply,
                a: Operand::Number(frac),
                b: Operand::Number(diff),
            }
            &&& a3 == Action::<T, F, B>::CallFloat {
                dependency: Dependency::FloatAdd,
                a: Operand::Element(lo),
                b: Operand::Number(scaled),
            }
            &&& a4 == Action::<T, F, B>::Respond(computed(Some(request), sum))
            &&& s4 == (Stage::<F>::Finished, sorted, None::<EvalRequest<T, F>>)
            &&& accepted_run(s0, seq![e1, e2, e3, e4])
        }),
{
    reveal_with_fuel(accepted_run, 5);
}

/// When the rank falls on the last element (a single value, or the 100th
/// percentile), no arithmetic dependency is called: the answer is that
/// element read as a number, beside the request's values and percentile, or,
/// where it is not a number, a report that the sorting dependency gave no
/// usable result.
pub proof fn law_last_rank_reads_element<T, F, B>(
    sorted: Seq<T>,
    request: EvalRequest<T, F>,
    lo: usize,
    frac: F,
    value: Option<F>,
)
    requires
        lo + 1 == sorted.len(),
    ensures
        ({
            let s0: State<T, F> = (Stage::Ranking, sorted, Some(request));
            let (s1, a1) = transition(s0, Event::<T, F, B>::Ranked { lo, frac });
            let (s2, a2) = transition(s1, Event::<T, F, B>::ElementRead(value));
            &&& a1 == Action::<T, F, B>::ReadElement { index: lo }
            &&& s2.0 is Finished
            &&& a2 == Action::<T, F, B>::Respond(
                match value {
                    Some(v) => computed(Some(request), v),
                    None => Reply::NoResult { dependency: Dependency::SortAscending },
                },
            )
        }),
{
}

/// A `422` from any dependency ends the evaluation with that same answer,
/// body unchanged.
pub proof fn law_rejection_is_forwarded<T, F, B>(
    state: State<T, F>,
    event: Event<T, F, B>,
    body: B,
)
    requires
        accepts(state.0, event),
        answer_of(event) == Some((STATUS_UNPROCESSABLE_ENTITY, body)),
    ensures
        transition(state, event) == answered(
            state.1,
            Reply::<T, F, B>::Forwarded { status: STATUS_UNPROCESSABLE_ENTITY, body },
        ),
{
}

/// A dependency that cannot be reached ends the evaluation with a report that
/// names exactly the dependency the evaluation was waiting for.
pub proof fn law_unreachable_is_named<T, F, B>(state: State<T, F>, event: Event<T, F, B>)
    requires
        accepts(state.0, event),
        reports_unreachable(event),
    ensures
        awaited_dependency(state.0) is Some,
        transition(state, event) == answered(
            state.1,
            Reply::<T, F, B>::Degraded { dependency: awaited_dependency(state.0)->Some_0 },
        ),
{
}

/// Every reply an evaluation gives, at its start or at any step, has a status
/// that the library's hand-kept description of the OpenAPI document
/// (`ApiDoc::openapi`, not the document the server derives) lists for
/// `POST /`.
pub proof fn law_replies_are_documented<T, F, B>(
    request: EvalRequest<T, F>,
    state: State<T, F>,
    event: Event<T, F, B>,
)
    requires
        event_fits(state.0, state.1.len(), event),
    ensures
        initial::<T, F, B>(request).1 matches Action::Respond(r) ==> documented_post_responses().contains(
            reply_status(r),
        ),
        transition(state, event).1 matches Action::Respond(r) ==> documented_post_responses().contains(
            reply_status(r),
        ),
{
}


/// An evaluation refuses its request at once exactly when the request's list
/// is empty; any non-empty list, of any length, is sent to the sorting
/// dependency, with the request held unchanged.
pub proof fn law_start_refuses_only_empty_lists<T, F, B>(request: EvalRequest<T, F>)
    ensures
        request.values@.len() == 0 ==> initial::<T, F, B>(request) == (
            (Stage::<F>::Finished, Seq::<T>::empty(), None::<EvalRequest<T, F>>),
            Action::<T, F, B>::Respond(Reply::EmptyValues),
        ),
        request.values@.len() > 0 ==> initial::<T, F, B>(request) == (
            (Stage::<F>::Sorting, Seq::<T>::empty(), Some(request)),
            Action::<T, F, B>::CallSort,
        ),
        (initial::<T, F, B>(request).1 == Action::<T, F, B>::Respond(Reply::EmptyValues)) <==> (
        request.values@.len() == 0),
{
}

/// A `200` answer of the sorting dependency with a non-empty list moves the
/// evaluation to ranking over exactly that list, and asks for the rank among
/// as many values as the list holds; an empty list is refused.
pub proof fn law_sorted_list_is_ranked<T, F, B>(
    sorted: Seq<T>,
    request: Option<EvalRequest<T, F>>,
    list: Vec<T>,
    body: B,
)
    ensures
        ({
            let state: State<T, F> = (Stage::Sorting, sorted, request);
            let event = Event::<T, F, B>::Sorted(
                DepReply::Answered { status: STATUS_OK, result: Some(list), body },
            );
            &&& list@.len() > 0 ==> transition(state, event) == (
                (Stage::<F>::Ranking, list@, request),
                Action::<T, F, B>::ComputeRank { n: list.len() },
            )
            &&& list@.len() == 0 ==> transition(state, event) == answered(
                sorted,
                Reply::<T, F, B>::EmptyValues,
            )
        }),
{
}

/// Whenever a step asks for a rank among `n` values, `n` is the length of the
/// sorted list the evaluation holds, and that list is not empty.
pub proof fn law_rank_is_among_the_sorted_list<T, F, B>(state: State<T, F>, event: Event<T, F, B>)
    requires
        state_fits(state),
        event_fits(state.0, state.1.len(), event),
    ensures
        transition(state, event).1 matches Action::ComputeRank { n } ==> n == transition(
            state,
            event,
        ).0.1.len() && n > 0,
{
}

/// For every dependency: a `200` answer with a result gives that result, a
/// `200` answer without a usable result is reported as no usable result from
/// that dependency, and a `422` is forwarded with its body.
pub proof fn law_answers_of_every_dependency<R, T, F, B>(
    dependency: Dependency,
    result: R,
    ignored: Option<R>,
    body: B,
)
    ensures
        outcome_of::<R, T, F, B>(
            dependency,
            DepReply::Answered { status: STATUS_OK, result: Some(result), body },
        ) == Ok::<R, Reply<T, F, B>>(result),
        outcome_of::<R, T, F, B>(
            dependency,
            DepReply::Answered { status: STATUS_OK, result: None, body },
        ) == Err::<R, Reply<T, F, B>>(Reply::NoResult { dependency }),
        outcome_of::<R, T, F, B>(
            dependency,
            DepReply::Answered { status: STATUS_UNPROCESSABLE_ENTITY, result: ignored, body },
        ) == Err::<R, Reply<T, F, B>>(
            Reply::Forwarded { status: STATUS_UNPROCESSABLE_ENTITY, body },
        ),
{
}

/// For every dependency: no answer, or an answer whose status is neither
/// `200` nor `422`, is reported as that dependency being unavailable,
/// whatever the answer's result and body.
pub proof fn law_unexpected_answers_degrade<R, T, F, B>(
    dependency: Dependency,
    status: u16,
    result: Option<R>,
    body: B,
)
    ensures
        outcome_of::<R, T, F, B>(dependency, DepReply::Unreachable) == Err::<R, Reply<T, F, B>>(
            Reply::Degraded { dependency },
        ),
        status != STATUS_OK && status != STATUS_UNPROCESSABLE_ENTITY ==> outcome_of::<R, T, F, B>(
            dependency,
            DepReply::Answered { status, result, body },
        ) == Err::<R, Reply<T, F, B>>(Reply::Degraded { dependency }),
{
}

/// In the evaluation: an answer from the awaited dependency whose status is
/// neither `200` nor `422` ends it with a report that names that dependency
/// as unavailable, and a `200` without a usable result ends it with a report
/// that names that dependency as giving no usable result.
pub proof fn law_failed_answers_name_the_awaited_dependency<T, F, B>(
    state: State<T, F>,
    event: Event<T, F, B>,
)
    requires
        accepts(state.0, event),
        answer_of(event) is Some,
    ensures
        awaited_dependency(state.0) is Some,
        ({
            let dependency = awaited_dependency(state.0)->Some_0;
            let status = answer_of(event)->Some_0.0;
            &&& status != STATUS_OK && status != STATUS_UNPROCESSABLE_ENTITY ==> transition(
                state,
                event,
            ) == answered(state.1, Reply::<T, F, B>::Degraded { dependency })
            &&& (event matches Event::Sorted(DepReply::Answered { status: 200, result: None, .. })
                ==> transition(state, event) == answered(
                state.1,
                Reply::<T, F, B>::NoResult { dependency },
            ))
            &&& (event matches Event::Answered(DepReply::Answered { status: 200, result: None, .. })
                ==> transition(state, event) == answered(
                state.1,
                Reply::<T, F, B>::NoResult { dependency },
            ))
        }),
{
}

} // verus!
