use crate::reply::{
    degraded, forward, no_result, Reply, STATUS_OK, STATUS_UNPROCESSABLE_ENTITY,
};
use crate::service::Dependency;
use vstd::prelude::*;

verus! {

/// What came back from one call on a dependency.
///
/// `R` is the type of the `result` field this service reads from a successful
/// answer, `B` that of the answer's body.
pub enum DepReply<R, B> {
    /// The dependency could not be reached.
    Unreachable,
    /// The dependency answered with `status`; `result` is the usable `result`
    /// field of `body`, where it has one.
    Answered { status: u16, result: Option<R>, body: B },
}

/// What a call on `dependency` comes to: the result it gave, or the reply
/// with which this service answers instead.
///
/// A `200` with a usable result gives that result; a `200` without one is
/// reported as no usable result; a `422` is passed on verbatim; anything else,
/// and no answer at all, counts as the dependency being unavailable.
pub open spec fn outcome_of<R, T, F, B>(dependency: Dependency, reply: DepReply<R, B>) -> Result<
    R,
    Reply<T, F, B>,
> {
    match reply {
        DepReply::Unreachable => Err(Reply::Degraded { dependency }),
        DepReply::Answered { status, result, body } => if status == STATUS_OK {
            match result {
                Some(r) => Ok(r),
                None => Err(Reply::NoResult { dependency }),
            }
        } else if status == STATUS_UNPROCESSABLE_ENTITY {
            Err(Reply::Forwarded { status: STATUS_UNPROCESSABLE_ENTITY, body })
        } else {
            Err(Reply::Degraded { dependency })
        },
    }
}

/// Decides what a call on `dependency` comes to (see `outcome_of`).
pub fn dependency_outcome<R, T, F, B>(dependency: Dependency, reply: DepReply<R, B>) -> (outcome:
    Result<R, Reply<T, F, B>>)
    ensures
        outcome == outcome_of::<R, T, F, B>(dependency, reply),
{
    match reply {
        DepReply::Unreachable => Err(degraded(dependency)),
        DepReply::Answered { status, result, body } => {
            if status == STATUS_OK {
                match result {
                    Some(r) => Ok(r),
                    None => Err(no_result(dependency)),
                }
            } else if status == STATUS_UNPROCESSABLE_ENTITY {
                let reply = forward(STATUS_UNPROCESSABLE_ENTITY, body);
                Err(reply)
            } else {
                Err(degraded(dependency))
            }
        },
    }
}

} // verus!
