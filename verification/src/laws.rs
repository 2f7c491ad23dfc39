use crate::context::SyncContext;
use crate::error::ClosedError;
use crate::message::{Request, Response};
use crate::protocol::{
    finalizations, finalizes, is_run, lawful, state_after, Incoming, Outcome, Step,
};
use vstd::prelude::*;
use vstd::std_specs::convert::FromSpec;

verus! {

/// A run without its last turn is a run, and it ends in the state that the last turn found.
pub proof fn lemma_run_without_last<C: SyncContext>(origin: C, steps: Seq<Step<C>>)
    requires
        is_run(origin, steps),
        steps.len() > 0,
    ensures
        is_run(origin, steps.drop_last()),
        state_after(origin, steps.drop_last()) == steps.last().pre,
        lawful(steps.last()),
{
    let front = steps.drop_last();
    assert forall|i: int| 0 <= i < front.len() implies lawful(#[trigger] front[i]) by {
        assert(front[i] == steps[i]);
    }
    assert forall|i: int| 0 < i < front.len() implies (#[trigger] front[i]).pre == front[i
        - 1].post by {
        assert(front[i] == steps[i]);
        assert(front[i - 1] == steps[i - 1]);
    }
    if front.len() > 0 {
        assert(front[0] == steps[0]);
        assert(front.last() == steps[steps.len() - 2]);
        assert(steps[steps.len() - 1].pre == steps[steps.len() - 2].post);
    }
}

/// The state of an actor is finalized exactly once, or not at all.
///
/// Whatever an actor finds turn after turn (requests, close signals from any number of
/// handles, an exhausted queue, orders to terminate), at most one of its turns finalizes the
/// state; and the actor has stopped if and only if one turn did.
pub proof fn law_finalized_exactly_once<C: SyncContext>(origin: C, steps: Seq<Step<C>>)
    requires
        is_run(origin, steps),
    ensures
        finalizations(steps) <= 1,
        state_after(origin, steps) is None <==> finalizations(steps) == 1,
    decreases steps.len(),
{
    if steps.len() > 0 {
        lemma_run_without_last(origin, steps);
        law_finalized_exactly_once(origin, steps.drop_last());
    }
}

/// The turn that finalizes the state is the one that calls the state's `close`: it happens
/// on a close signal, on an exhausted queue or on an order to terminate, never on a request
/// for an operation, and what it leaves behind is what `close` returned.
pub proof fn law_finalization_is_close<C: SyncContext>(step: Step<C>)
    requires
        lawful(step),
        step.pre is Some,
    ensures
        finalizes(step) <==> !(step.incoming matches Incoming::Request(Request::Exec(_))),
        finalizes(step) ==> match step.outcome {
            Outcome::Reply(Response::Closed) => C::close_spec(step.pre->0, Ok(())),
            Outcome::Reply(Response::Failure(e)) => C::close_spec(step.pre->0, Err(e)),
            Outcome::Finalized(out) => C::close_spec(step.pre->0, out),
            _ => false,
        },
        finalizes(step) ==> (step.outcome is Reply <==> step.incoming is Request),
{
}

/// Once the state is finalized, it stays so, and every message is answered `Closed`.
///
/// The caller of a request reads that answer as the closed error, and the caller of a close
/// as success.
pub proof fn law_closed_rejects<C: SyncContext>(origin: C, steps: Seq<Step<C>>, i: int, j: int)
    requires
        is_run(origin, steps),
        0 <= i < j < steps.len(),
        steps[i].post is None,
    ensures
        steps[j].pre is None,
        steps[j].post is None,
        steps[j].incoming is Request ==> steps[j].outcome == Outcome::<C::Res, C::Err>::Reply(
            Response::Closed,
        ),
        !(steps[j].incoming is Request) ==> steps[j].outcome == Outcome::<C::Res, C::Err>::Nothing,
        Response::<C::Res, C::Err>::Closed.request_result() == Err::<C::Res, C::Err>(
            C::Err::from_spec(ClosedError),
        ),
        Response::<C::Res, C::Err>::Closed.close_result() == Some(Ok::<(), C::Err>(())),
    decreases j - i,
{
    assert(lawful(steps[j]));
    assert(steps[j].pre == steps[j - 1].post);
    if i < j - 1 {
        law_closed_rejects(origin, steps, i, j - 1);
    }
}

/// A request that gets no answer reads as rejected: where the cell of a request is given up
/// empty, the caller of a request gets the closed error, and the caller of a close gets
/// success, as if the actor had answered `Closed`.
pub proof fn law_no_answer_reads_closed<S, E: From<ClosedError>>()
    ensures
        Response::<S, E>::of_reply(None) == Response::<S, E>::Closed,
        Response::<S, E>::of_reply(None).request_result() == Err::<S, E>(
            E::from_spec(ClosedError),
        ),
        Response::<S, E>::of_reply(None).close_result() == Some(Ok::<(), E>(())),
{
}

/// When an actor whose state lives finds its queue exhausted, it finalizes the state in that
/// very turn, with no caller's help.
pub proof fn law_exhaustion_finalizes<C: SyncContext>(step: Step<C>)
    requires
        lawful(step),
        step.pre is Some,
        step.incoming is Exhausted,
    ensures
        finalizes(step),
        step.outcome matches Outcome::Finalized(out) && C::close_spec(step.pre->0, out),
{
}

/// Operations never overlap: every turn starts from exactly the state that the turn before
/// it left, and no turn starts on a state that an earlier turn has finalized.
pub proof fn law_one_at_a_time<C: SyncContext>(origin: C, steps: Seq<Step<C>>, i: int)
    requires
        is_run(origin, steps),
        0 <= i < steps.len(),
    ensures
        steps[i].pre == state_after(origin, steps.take(i)),
        steps[i].pre is Some ==> forall|k: int| 0 <= k < i ==> !finalizes(#[trigger] steps[k]),
{
    if i > 0 {
        assert(steps.take(i).last() == steps[i - 1]);
        assert(steps[i].pre == steps[i - 1].post);
    }
    if steps[i].pre is Some {
        assert forall|k: int| 0 <= k < i implies !finalizes(#[trigger] steps[k]) by {
            if finalizes(steps[k]) {
                law_closed_rejects(origin, steps, k, i);
            }
        }
    }
}

/// The caller of a request gets what the operation gave for this very request.
///
/// Where the queue took the request, and the answer that the caller's cell yields is the
/// one that the turn on this request left, the result of the request is an outcome that
/// `exec` may have for the request on the state that the turn found.
pub proof fn law_request_reads_the_turn<C: SyncContext>(step: Step<C>, req: C::Req)
    requires
        lawful(step),
        step.pre is Some,
        step.incoming == Incoming::Request(Request::Exec(req)),
    ensures
        step.post is Some,
        step.outcome matches Outcome::Reply(answer) && C::exec_spec(
            step.pre->0,
            req,
            step.post->0,
            Response::of_exchange(true, Some(answer)).request_result(),
        ),
{
}

/// The caller of a close gets what the finalization gave.
///
/// Where the queue took the close signal, and the answer that the caller's cell yields is
/// the one that the turn on this signal left, the result of the close is an outcome that
/// `close` may have for the state that the turn found, and the state is gone.
pub proof fn law_close_reads_the_turn<C: SyncContext>(step: Step<C>)
    requires
        lawful(step),
        step.pre is Some,
        step.incoming == Incoming::<C::Req>::Request(Request::CloseSignal),
    ensures
        step.post is None,
        step.outcome matches Outcome::Reply(answer) && (Response::of_exchange(
            true,
            Some(answer),
        ).close_result() matches Some(out) && C::close_spec(step.pre->0, out)),
{
}

/// Whether `f` is what the operations of `C` compute: every outcome that `exec` may have is
/// the one that `f` gives for the state and the request.
pub open spec fn computes<C: SyncContext>(
    f: spec_fn(C, C::Req) -> (C, Result<C::Res, C::Err>),
) -> bool {
    forall|pre: C, req: C::Req, post: C, out: Result<C::Res, C::Err>| #[trigger]
        C::exec_spec(pre, req, post, out) ==> (post, out) == f(pre, req)
}

/// The state that `f` makes of `origin` by the requests `reqs`, applied first to last.
pub open spec fn state_by<C: SyncContext>(
    f: spec_fn(C, C::Req) -> (C, Result<C::Res, C::Err>),
    origin: C,
    reqs: Seq<C::Req>,
) -> C
    decreases reqs.len(),
{
    if reqs.len() == 0 {
        origin
    } else {
        f(state_by(f, origin, reqs.drop_last()), reqs.last()).0
    }
}

/// The answer that the request `reqs[i]` is owed, when `f` is applied to the requests
/// before it in their order and then to it.
pub open spec fn answer_by<C: SyncContext>(
    f: spec_fn(C, C::Req) -> (C, Result<C::Res, C::Err>),
    origin: C,
    reqs: Seq<C::Req>,
    i: int,
) -> Response<C::Res, C::Err> {
    Response::of_exec(f(state_by(f, origin, reqs.take(i)), reqs[i]).1)
}

/// Requests are served first come, first served, and each gets its own answer.
///
/// Where the operations of the state are a function `f`, and an actor finds the requests
/// `reqs` in this order, its turns answer them in this order, and the answer of each is
/// what `f` gives for it on the state that the requests before it have left.
pub proof fn law_answers_in_order<C: SyncContext>(
    f: spec_fn(C, C::Req) -> (C, Result<C::Res, C::Err>),
    origin: C,
    steps: Seq<Step<C>>,
    reqs: Seq<C::Req>,
)
    requires
        computes::<C>(f),
        is_run(origin, steps),
        steps.len() == reqs.len(),
        forall|i: int|
            0 <= i < steps.len() ==> (#[trigger] steps[i]).incoming == Incoming::Request(
                Request::Exec(reqs[i]),
            ),
    ensures
        state_after(origin, steps) == Some(state_by(f, origin, reqs)),
        forall|i: int|
            0 <= i < steps.len() ==> (#[trigger] steps[i]).outcome == Outcome::Reply(
                answer_by(f, origin, reqs, i),
            ),
    decreases steps.len(),
{
    if steps.len() > 0 {
        let n = steps.len() - 1;
        let front = steps.drop_last();
        let sooner = reqs.drop_last();
        lemma_run_without_last(origin, steps);
        assert forall|i: int| 0 <= i < front.len() implies (#[trigger] front[i]).incoming
            == Incoming::Request(Request::Exec(sooner[i])) by {
            assert(front[i] == steps[i]);
        }
        law_answers_in_order(f, origin, front, sooner);
        let last = steps.last();
        assert(last.incoming == Incoming::Request(Request::Exec(reqs[n])));
        assert(last.pre == Some(state_by(f, origin, sooner)));
        assert(reqs.take(n) == sooner);
        assert forall|i: int| 0 <= i < steps.len() implies (#[trigger] steps[i]).outcome
            == Outcome::Reply(answer_by(f, origin, reqs, i)) by {
            if i < n {
                assert(front[i] == steps[i]);
                assert(sooner.take(i) == reqs.take(i));
                assert(sooner[i] == reqs[i]);
            }
        }
    }
}

/// Sequential callers get their results first come, first served.
///
/// Where the operations of the state are a function `f`, an actor finds the requests
/// `reqs` in this order, and each caller's cell yields the answer that the turn on its
/// request left, the result of the request `reqs[i]` is what `f` gives for it on the state
/// that the requests before it have left.
pub proof fn law_requests_return_in_order<C: SyncContext>(
    f: spec_fn(C, C::Req) -> (C, Result<C::Res, C::Err>),
    origin: C,
    steps: Seq<Step<C>>,
    reqs: Seq<C::Req>,
)
    requires
        computes::<C>(f),
        is_run(origin, steps),
        steps.len() == reqs.len(),
        forall|i: int|
            0 <= i < steps.len() ==> (#[trigger] steps[i]).incoming == Incoming::Request(
                Request::Exec(reqs[i]),
            ),
    ensures
        forall|i: int|
            0 <= i < steps.len() ==> ((#[trigger] steps[i]).outcome matches Outcome::Reply(answer)
                && Response::of_exchange(true, Some(answer)).request_result() == f(
                state_by(f, origin, reqs.take(i)),
                reqs[i],
            ).1),
{
    law_answers_in_order(f, origin, steps, reqs);
}

} // verus!
