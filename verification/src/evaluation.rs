use crate::outcome::{dependency_outcome, outcome_of, DepReply};
use crate::reply::{PercentileResponse, Reply};
use crate::service::Dependency;
use vstd::prelude::*;

verus! {

/// An argument of a call on an arithmetic dependency.
pub enum Operand<F> {
    /// The element at this index of the sorted list, as the sorting
    /// dependency returned it.
    Element(usize),
    /// A number that an earlier step produced.
    Number(F),
}

/// How far one evaluation has come, and what it waits for.
pub enum Stage<F> {
    /// Waiting for the sorting dependency.
    Sorting,
    /// Waiting for the interpolation rank within the sorted list.
    Ranking,
    /// The rank falls on the last element: waiting for it as a number.
    Reading { lo: usize },
    /// Waiting for `sorted[lo + 1] - sorted[lo]`; `frac` is the rank's
    /// fractional part.
    Subtracting { lo: usize, frac: F },
    /// Waiting for `frac * diff`.
    Multiplying { lo: usize },
    /// Waiting for `sorted[lo] + scaled`.
    Adding,
    /// The reply has been given.
    Finished,
}

/// A request for the `p`-th percentile of `values`.
pub struct EvalRequest<T, F> {
    pub values: Vec<T>,
    pub p: F,
}

/// What the outside world hands back to an evaluation.
pub enum Event<T, F, B> {
    /// The answer of the sorting dependency; its result is the sorted list.
    Sorted(DepReply<Vec<T>, B>),
    /// The interpolation rank: its integer part `lo` and fractional part `frac`.
    Ranked { lo: usize, frac: F },
    /// The element asked for, read as a number, where it is one.
    ElementRead(Option<F>),
    /// The answer of an arithmetic dependency.
    Answered(DepReply<F, B>),
}

/// What an evaluation asks the outside world to do next.
pub enum Action<T, F, B> {
    /// Send the request's values, as they were sent and in their order, to
    /// the sorting dependency: the values of `Evaluation::request`, which the
    /// evaluation keeps unchanged until it answers.
    CallSort,
    /// Compute the interpolation rank of the request's percentile `p` among
    /// `n` sorted values.
    ComputeRank { n: usize },
    /// Read the sorted list's element at `index` as a number.
    ReadElement { index: usize },
    /// Call an arithmetic dependency on `a` and `b`.
    CallFloat { dependency: Dependency, a: Operand<F>, b: Operand<F> },
    /// Answer the request.
    Respond(Reply<T, F, B>),
}

/// Whether a stage waits for this kind of event.
pub open spec fn accepts<T, F, B>(stage: Stage<F>, event: Event<T, F, B>) -> bool {
    match stage {
        Stage::Sorting => event is Sorted,
        Stage::Ranking => event is Ranked,
        Stage::Reading { .. } => event is ElementRead,
        Stage::Subtracting { .. } => event is Answered,
        Stage::Multiplying { .. } => event is Answered,
        Stage::Adding => event is Answered,
        Stage::Finished => false,
    }
}

/// Whether an action is answered by this kind of event.
pub open spec fn awaits<T, F, B>(action: Action<T, F, B>, event: Event<T, F, B>) -> bool {
    match action {
        Action::CallSort => event is Sorted,
        Action::ComputeRank { .. } => event is Ranked,
        Action::ReadElement { .. } => event is ElementRead,
        Action::CallFloat { .. } => event is Answered,
        Action::Respond(_) => false,
    }
}

/// Whether a stage is consistent with a sorted list of `n` elements.
pub open spec fn stage_fits<F>(stage: Stage<F>, n: nat) -> bool {
    match stage {
        Stage::Ranking => n > 0,
        Stage::Reading { lo } => lo + 1 == n,
        Stage::Subtracting { lo, .. } => lo + 1 < n,
        Stage::Multiplying { lo } => lo + 1 < n,
        _ => true,
    }
}

/// Whether every element that an action names lies within a sorted list of
/// `n` elements.
pub open spec fn names_elements_below<T, F, B>(action: Action<T, F, B>, n: nat) -> bool {
    &&& (action matches Action::ReadElement { index } ==> index < n)
    &&& (action matches Action::CallFloat { a: Operand::Element(i), .. } ==> i < n)
    &&& (action matches Action::CallFloat { b: Operand::Element(i), .. } ==> i < n)
}

/// An upper bound on the number of events a stage still waits for.
pub open spec fn remaining_steps<F>(stage: Stage<F>) -> nat {
    match stage {
        Stage::Sorting => 5,
        Stage::Ranking => 4,
        Stage::Subtracting { .. } => 3,
        Stage::Multiplying { .. } => 2,
        Stage::Reading { .. } => 1,
        Stage::Adding => 1,
        Stage::Finished => 0,
    }
}

/// The dependency whose answer a stage waits for.
pub open spec fn awaited_dependency<F>(stage: Stage<F>) -> Option<Dependency> {
    match stage {
        Stage::Sorting => Some(Dependency::SortAscending),
        Stage::Subtracting { .. } => Some(Dependency::FloatSubtract),
        Stage::Multiplying { .. } => Some(Dependency::FloatMultiply),
        Stage::Adding => Some(Dependency::FloatAdd),
        _ => None,
    }
}

/// Whether `event` may be handed to an evaluation at `stage` over a sorted
/// list of `n` elements: it is of the kind the stage waits for, and a rank
/// lies within the list.
pub open spec fn event_fits<T, F, B>(stage: Stage<F>, n: nat, event: Event<T, F, B>) -> bool {
    &&& accepts(stage, event)
    &&& (event matches Event::Ranked { lo, .. } ==> lo < n)
}

/// The successful answer to `request`: its values as they were sent, its
/// percentile, and `result`.
pub open spec fn computed<T, F, B>(request: Option<EvalRequest<T, F>>, result: F) -> Reply<T, F, B> {
    Reply::Computed(
        PercentileResponse { values: request->Some_0.values, p: request->Some_0.p, result },
    )
}

/// Where an evaluation stands: its stage, its sorted list, and the request
/// it answers (given up once it has answered).
pub type State<T, F> = (Stage<F>, Seq<T>, Option<EvalRequest<T, F>>);

/// The state after an answer: finished, with the request given up.
pub open spec fn answered<T, F, B>(sorted: Seq<T>, reply: Reply<T, F, B>) -> (
    State<T, F>,
    Action<T, F, B>,
) {
    ((Stage::Finished, sorted, None), Action::Respond(reply))
}

/// The state and action at which an evaluation of `request` starts: an
/// empty list is refused at once, any other is sent to the sorting
/// dependency.
pub open spec fn initial<T, F, B>(request: EvalRequest<T, F>) -> (State<T, F>, Action<T, F, B>) {
    if request.values@.len() == 0 {
        answered(Seq::empty(), Reply::EmptyValues)
    } else {
        ((Stage::Sorting, Seq::empty(), Some(request)), Action::CallSort)
    }
}

/// One step of an evaluation: from its state and an event of the kind its
/// stage waits for, to the next state and the action to perform.
pub open spec fn transition<T, F, B>(state: State<T, F>, event: Event<T, F, B>) -> (
    State<T, F>,
    Action<T, F, B>,
) {
    let (stage, sorted, request) = state;
    match event {
        Event::Sorted(reply) => match outcome_of::<Vec<T>, T, F, B>(
            Dependency::SortAscending,
            reply,
        ) {
            Err(r) => answered(sorted, r),
            Ok(list) => if list@.len() == 0 {
                answered(sorted, Reply::EmptyValues)
            } else {
                ((Stage::Ranking, list@, request), Action::ComputeRank { n: list.len() })
            },
        },
        Event::Ranked { lo, frac } => if lo + 1 >= sorted.len() {
            ((Stage::Reading { lo }, sorted, request), Action::ReadElement { index: lo })
        } else {
            (
                (Stage::Subtracting { lo, frac }, sorted, request),
                Action::CallFloat {
                    dependency: Dependency::FloatSubtract,
                    a: Operand::Element((lo + 1) as usize),
                    b: Operand::Element(lo),
                },
            )
        },
        Event::ElementRead(value) => match value {
            Some(v) => answered(sorted, computed(request, v)),
            None => answered(sorted, Reply::NoResult { dependency: Dependency::SortAscending }),
        },
        Event::Answered(reply) => match stage {
            Stage::Subtracting { lo, frac } => match outcome_of::<F, T, F, B>(
                Dependency::FloatSubtract,
                reply,
            ) {
                Err(r) => answered(sorted, r),
                Ok(diff) => (
                    (Stage::Multiplying { lo }, sorted, request),
                    Action::CallFloat {
                        dependency: Dependency::FloatMultiply,
                        a: Operand::Number(frac),
                        b: Operand::Number(diff),
                    },
                ),
            },
            Stage::Multiplying { lo } => match outcome_of::<F, T, F, B>(
                Dependency::FloatMultiply,
                reply,
            ) {
                Err(r) => answered(sorted, r),
                Ok(scaled) => (
                    (Stage::Adding, sorted, request),
                    Action::CallFloat {
                        dependency: Dependency::FloatAdd,
                        a: Operand::Element(lo),
                        b: Operand::Number(scaled),
                    },
                ),
            },
            _ => match outcome_of::<F, T, F, B>(Dependency::FloatAdd, reply) {
                Err(r) => answered(sorted, r),
                Ok(sum) => answered(sorted, computed(request, sum)),
            },
        },
    }
}

/// Whether a state is consistent: the stage fits the sorted list, and the
/// request is kept exactly until the evaluation has answered.
pub open spec fn state_fits<T, F>(state: State<T, F>) -> bool {
    &&& stage_fits(state.0, state.1.len())
    &&& (state.0 is Finished <==> state.2 is None)
}

/// One evaluation of the `p`-th percentile of a list: the request, the
/// sorted list once the sorting dependency has given it, and the stage
/// reached.
pub struct Evaluation<T, F> {
    stage: Stage<F>,
    sorted: Vec<T>,
    request: Option<EvalRequest<T, F>>,
}

impl<T, F> Evaluation<T, F> {
    #[verifier::type_invariant]
    spec fn well_formed(self) -> bool {
        state_fits(self.state())
    }

    /// The state of this evaluation.
    pub closed spec fn state(&self) -> State<T, F> {
        (self.stage, self.sorted@, self.request)
    }

    /// Starts evaluating `request` (see `initial`).
    pub fn start<B>(request: EvalRequest<T, F>) -> (res: (Self, Action<T, F, B>))
        ensures
            (res.0.state(), res.1) == initial::<T, F, B>(request),
            state_fits(res.0.state()),
            forall|e: Event<T, F, B>| accepts(res.0.state().0, e) == awaits(res.1, e),
    {
        let sorted: Vec<T> = Vec::new();
        if request.values.len() == 0 {
            (
                Evaluation { stage: Stage::Finished, sorted, request: None },
                Action::Respond(Reply::EmptyValues),
            )
        } else {
            (Evaluation { stage: Stage::Sorting, sorted, request: Some(request) }, Action::CallSort)
        }
    }

    /// The request being evaluated: its values are what the sorting
    /// dependency is sent, its percentile what the rank is computed for.
    pub fn request(&self) -> (request: &EvalRequest<T, F>)
        requires
            !(self.state().0 is Finished),
        ensures
            self.state().2 == Some(*request),
    {
        proof {
            use_type_invariant(self);
        }
        self.request.as_ref().unwrap()
    }

    /// The element at `index` of the sorted list.
    pub fn element(&self, index: usize) -> (element: &T)
        requires
            index < self.state().1.len(),
        ensures
            *element == self.state().1[index as int],
    {
        &self.sorted[index]
    }

    /// Hands `event` to the evaluation: gives the next evaluation and the
    /// action to perform (see `transition`).
    pub fn step<B>(self, event: Event<T, F, B>) -> (res: (Self, Action<T, F, B>))
        requires
            event_fits(self.state().0, self.state().1.len(), event),
        ensures
            (res.0.state(), res.1) == transition(self.state(), event),
            state_fits(res.0.state()),
            names_elements_below(res.1, res.0.state().1.len()),
            remaining_steps(res.0.state().0) < remaining_steps(self.state().0),
            forall|e: Event<T, F, B>| accepts(res.0.state().0, e) == awaits(res.1, e),
    {
        proof {
            use_type_invariant(&self);
        }
        let Evaluation { stage, sorted, request } = self;
        match event {
            Event::Sorted(reply) => match dependency_outcome::<Vec<T>, T, F, B>(
                Dependency::SortAscending,
                reply,
            ) {
                Err(r) => (
                    Evaluation { stage: Stage::Finished, sorted, request: None },
                    Action::Respond(r),
                ),
                Ok(list) => {
                    if list.len() == 0 {
                        (
                            Evaluation { stage: Stage::Finished, sorted, request: None },
                            Action::Respond(Reply::EmptyValues),
                        )
                    } else {
                        let n = list.len();
                        (
                            Evaluation { stage: Stage::Ranking, sorted: list, request },
                            Action::ComputeRank { n },
                        )
                    }
                },
            },
            Event::Ranked { lo, frac } => {
                let len = sorted.len();
                if lo + 1 >= len {
                    (
                        Evaluation { stage: Stage::Reading { lo }, sorted, request },
                        Action::ReadElement { index: lo },
                    )
                } else {
                    (
                        Evaluation { stage: Stage::Subtracting { lo, frac }, sorted, request },
                        Action::CallFloat {
                            dependency: Dependency::FloatSubtract,
                            a: Operand::Element(lo + 1),
                            b: Operand::Element(lo),
                        },
                    )
                }
            },
            Event::ElementRead(value) => match value {
                Some(v) => {
                    let EvalRequest { values, p } = request.unwrap();
                    (
                        Evaluation { stage: Stage::Finished, sorted, request: None },
                        Action::Respond(
                            Reply::Computed(PercentileResponse { values, p, result: v }),
                        ),
                    )
                },
                None => (
                    Evaluation { stage: Stage::Finished, sorted, request: None },
                    Action::Respond(Reply::NoResult { dependency: Dependency::SortAscending }),
                ),
            },
            Event::Answered(reply) => match stage {
                Stage::Subtracting { lo, frac } => match dependency_outcome::<F, T, F, B>(
                    Dependency::FloatSubtract,
                    reply,
                ) {
                    Err(r) => (
                        Evaluation { stage: Stage::Finished, sorted, request: None },
                        Action::Respond(r),
                    ),
                    Ok(diff) => (
                        Evaluation { stage: Stage::Multiplying { lo }, sorted, request },
                        Action::CallFloat {
                            dependency: Dependency::FloatMultiply,
                            a: Operand::Number(frac),
                            b: Operand::Number(diff),
                        },
                    ),
                },
                Stage::Multiplying { lo } => match dependency_outcome::<F, T, F, B>(
                    Dependency::FloatMultiply,
                    reply,
                ) {
                    Err(r) => (
                        Evaluation { stage: Stage::Finished, sorted, request: None },
                        Action::Respond(r),
                    ),
                    Ok(scaled) => (
                        Evaluation { stage: Stage::Adding, sorted, request },
                        Action::CallFloat {
                            dependency: Dependency::FloatAdd,
                            a: Operand::Element(lo),
                            b: Operand::Number(scaled),
                        },
                    ),
                },
                _ => match dependency_outcome::<F, T, F, B>(Dependency::FloatAdd, reply) {
                    Err(r) => (
                        Evaluation { stage: Stage::Finished, sorted, request: None },
                        Action::Respond(r),
                    ),
                    Ok(sum) => {
                        let EvalRequest { values, p } = request.unwrap();
                        (
                            Evaluation { stage: Stage::Finished, sorted, request: None },
                            Action::Respond(
                                Reply::Computed(PercentileResponse { values, p, result: sum }),
                            ),
                        )
                    },
                },
            },
        }
    }
}

} // verus!
