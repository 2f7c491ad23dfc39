use crate::context::SyncContext;
use crate::message::{Request, Response};
use vstd::prelude::*;

verus! {

/// What one turn of an actor loop finds when it looks for work.
#[derive(Debug, PartialEq, Eq)]
pub enum Incoming<Q> {
    /// A message was taken from the queue; this is its request.
    Request(Request<Q>),
    /// The queue is closed and empty: every handle is gone.
    Exhausted,
    /// A coordinator has sent the order to terminate.
    Terminate,
}

/// What one turn of an actor loop leaves behind.
#[derive(Debug, PartialEq, Eq)]
pub enum Outcome<S, E> {
    /// The answer owed to the message that was taken.
    Reply(Response<S, E>),
    /// The state was finalized with nobody to answer; this is what the finalization returned.
    Finalized(Result<(), E>),
    /// The actor had stopped before, and nothing was owed.
    Nothing,
}

/// The record of one turn: the state before it (`None` once the state has been finalized),
/// what the turn found, the state after it, and what it left behind.
pub struct Step<C: SyncContext> {
    pub pre: Option<C>,
    pub incoming: Incoming<C::Req>,
    pub post: Option<C>,
    pub outcome: Outcome<C::Res, C::Err>,
}

/// Whether the answer `answer` and the state `post` are what an operation on `req` may
/// leave of the state `pre`.
pub open spec fn answers_exec<C: SyncContext>(
    pre: C,
    req: C::Req,
    post: C,
    answer: Response<C::Res, C::Err>,
) -> bool {
    match answer {
        Response::Value(v) => C::exec_spec(pre, req, post, Ok(v)),
        Response::Failure(e) => C::exec_spec(pre, req, post, Err(e)),
        Response::Closed => false,
    }
}

/// Whether the answer `answer` is what the finalization of the state `pre` may give to the
/// caller who asked for it.
pub open spec fn answers_close<C: SyncContext>(pre: C, answer: Response<C::Res, C::Err>) -> bool {
    match answer {
        Response::Value(_) => false,
        Response::Failure(e) => C::close_spec(pre, Err(e)),
        Response::Closed => C::close_spec(pre, Ok(())),
    }
}

/// The rule of one turn of an actor loop.
///
/// While the state lives, a request for an operation is performed on it and answered with
/// the outcome, and the state lives on; a close signal finalizes the state and is answered
/// with the outcome; an exhausted queue and an order to terminate finalize the state with
/// nobody to answer. Once the state is finalized it stays so: a message is answered
/// `Closed`, and nothing else happens.
pub open spec fn serve_spec<C: SyncContext>(
    pre: Option<C>,
    incoming: Incoming<C::Req>,
    post: Option<C>,
    outcome: Outcome<C::Res, C::Err>,
) -> bool {
    match pre {
        None => {
            &&& post is None
            &&& outcome == (match incoming {
                Incoming::Request(_) => Outcome::<C::Res, C::Err>::Reply(Response::Closed),
                _ => Outcome::<C::Res, C::Err>::Nothing,
            })
        },
        Some(ctx) => match incoming {
            Incoming::Request(Request::Exec(req)) => {
                &&& post matches Some(next)
                &&& outcome matches Outcome::Reply(answer)
                &&& answers_exec(ctx, req, next, answer)
            },
            Incoming::Request(Request::CloseSignal) => {
                &&& post is None
                &&& outcome matches Outcome::Reply(answer)
                &&& answers_close(ctx, answer)
            },
            _ => {
                &&& post is None
                &&& outcome matches Outcome::Finalized(out)
                &&& C::close_spec(ctx, out)
            },
        },
    }
}

/// Whether `step` obeys the rule of one turn.
pub open spec fn lawful<C: SyncContext>(step: Step<C>) -> bool {
    serve_spec(step.pre, step.incoming, step.post, step.outcome)
}

/// Whether `steps` is what an actor that was created with the state `origin` can have done,
/// turn after turn: every turn obeys the rule, the first starts from `origin`, and each
/// later one starts from what the turn before it left.
pub open spec fn is_run<C: SyncContext>(origin: C, steps: Seq<Step<C>>) -> bool {
    &&& forall|i: int| 0 <= i < steps.len() ==> lawful(#[trigger] steps[i])
    &&& steps.len() > 0 ==> steps[0].pre == Some(origin)
    &&& forall|i: int| 0 < i < steps.len() ==> (#[trigger] steps[i]).pre == steps[i - 1].post
}

/// The state that the turns `steps` leave of an actor created with `origin`.
pub open spec fn state_after<C: SyncContext>(origin: C, steps: Seq<Step<C>>) -> Option<C> {
    if steps.len() == 0 {
        Some(origin)
    } else {
        steps.last().post
    }
}

/// Whether the turn finalized the state: it found the state alive and left it gone.
pub open spec fn finalizes<C: SyncContext>(step: Step<C>) -> bool {
    step.pre is Some && step.post is None
}

/// The number of turns among `steps` that finalized the state.
pub open spec fn finalizations<C: SyncContext>(steps: Seq<Step<C>>) -> nat
    decreases steps.len(),
{
    if steps.len() == 0 {
        0
    } else {
        finalizations(steps.drop_last()) + (if finalizes(steps.last()) {
            1nat
        } else {
            0nat
        })
    }
}

} // verus!
