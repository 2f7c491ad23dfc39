use crate::actor::Actor;
use crate::close::CloseFinisher;
use crate::context::SyncContext;
use crate::handle::{Mailbox, Message};
use crate::protocol::{Incoming, Outcome, Step};
use crate::turn::{deliver, lemma_continue_means_alive, reports, Arrival, Flow};
use vstd::prelude::*;

verus! {

/// Takes the turn of an order to terminate: finalizes the state with nobody to answer, and
/// hands the coordinator's ticket back, for the caller to let go now that the state is
/// finalized.
///
/// The ticket that comes back is the one that came in.
pub fn terminate<C: SyncContext>(actor: &mut Actor<C>, finisher: Option<CloseFinisher>) -> (done: (
    Flow<C::Res, C::Err>,
    Option<CloseFinisher>,
))
    requires
        old(actor).wf(),
    ensures
        final(actor).wf(),
        final(actor).origin() == old(actor).origin(),
        final(actor).reported() == old(actor).reported(),
        final(actor).state() is None,
        final(actor).history().len() == old(actor).history().len() + 1,
        final(actor).history().drop_last() == old(actor).history(),
        final(actor).history().last().incoming is Terminate,
        reports(final(actor).history().last(), done.0),
        done.1 == finisher,
{
    let flow = match actor.serve(Incoming::Terminate) {
        Outcome::Finalized(out) => Flow::Finalized(out),
        _ => Flow::Closed,
    };
    (flow, finisher)
}

/// Takes one turn of the loop on what has arrived: lets the actor serve it, delivers the
/// answer where one is owed, and lets the coordinator's ticket go, where one came with the
/// order to terminate, once [`terminate`] has handed it back.
///
/// The actor takes exactly one turn, on what the arrival holds; the result reports that
/// turn, and is added to the record of reports.
pub fn turn<C: SyncContext>(actor: &mut Actor<C>, arrival: Arrival<C>) -> (flow: Flow<
    C::Res,
    C::Err,
>)
    requires
        old(actor).wf(),
    ensures
        final(actor).wf(),
        final(actor).origin() == old(actor).origin(),
        final(actor).history().len() == old(actor).history().len() + 1,
        final(actor).history().drop_last() == old(actor).history(),
        final(actor).history().last().incoming == arrival.incoming(),
        reports(final(actor).history().last(), flow),
        final(actor).reported() == old(actor).reported().push(flow),
{
    let flow = match arrival {
        Arrival::Message(message) => {
            let Message { req, res_tx } = message;
            match actor.serve(Incoming::Request(req)) {
                Outcome::Reply(answer) => deliver(res_tx, answer, actor.is_running()),
                _ => unreached(),
            }
        },
        Arrival::Exhausted => match actor.serve(Incoming::Exhausted) {
            Outcome::Finalized(out) => Flow::Finalized(out),
            _ => Flow::Closed,
        },
        Arrival::Termination(finisher) => {
            let (flow, _held) = terminate(actor, finisher);
            flow
        },
    };
    actor.note(Ghost(flow));
    flow
}

/// Takes one turn of the loop: waits for the next message, lets the actor serve it, and
/// delivers the answer.
///
/// What arrives is decided by the callers' side. Whatever it is, the actor takes exactly one
/// turn on it, and the result reports that turn.
pub fn serve_next<C: SyncContext>(actor: &mut Actor<C>, mailbox: &Mailbox<C>) -> (flow: Flow<
    C::Res,
    C::Err,
>)
    requires
        old(actor).wf(),
    ensures
        final(actor).wf(),
        final(actor).origin() == old(actor).origin(),
        final(actor).history().len() == old(actor).history().len() + 1,
        final(actor).history().drop_last() == old(actor).history(),
        !(final(actor).history().last().incoming is Terminate),
        reports(final(actor).history().last(), flow),
        final(actor).reported() == old(actor).reported().push(flow),
{
    turn(actor, Arrival::from_queue(mailbox.recv()))
}

/// Runs the loop of an actor for at most `turns` turns: it serves message after message
/// until the actor stops, an answer cannot be delivered, or the turns are used up. Where the
/// loop ends for one of the first two reasons, it retires the mailbox, so that the queue is
/// closed and no caller waits in it.
///
/// The record grows by the turns taken. `Continue` comes back only when all `turns` were
/// taken and each ended so; any other result reports the last turn taken. The loop stops
/// at the first turn that is not reported `Continue`: every report but the last is
/// `Continue`, and every turn before the last left the state alive. No turn of this loop is
/// an order to terminate, for it looks at the queue alone.
pub fn sync_actor<C: SyncContext>(actor: &mut Actor<C>, mailbox: &Mailbox<C>, turns: usize) -> (flow:
    Flow<C::Res, C::Err>)
    requires
        old(actor).wf(),
    ensures
        final(actor).wf(),
        final(actor).origin() == old(actor).origin(),
        old(actor).history().is_prefix_of(final(actor).history()),
        final(actor).history().len() <= old(actor).history().len() + turns,
        flow is Continue ==> final(actor).history().len() == old(actor).history().len() + turns,
        turns > 0 ==> final(actor).history().len() > old(actor).history().len() && reports(
            final(actor).history().last(),
            flow,
        ),
        forall|i: int|
            old(actor).history().len() <= i < final(actor).history().len() - 1 ==> (
            #[trigger] final(actor).history()[i]).post is Some,
        forall|i: int|
            old(actor).history().len() <= i < final(actor).history().len() ==> !((
            #[trigger] final(actor).history()[i]).incoming is Terminate),
        old(actor).reported().is_prefix_of(final(actor).reported()),
        final(actor).reported().len() - old(actor).reported().len() == final(actor).history().len()
            - old(actor).history().len(),
        turns > 0 ==> final(actor).reported().last() == flow,
        forall|i: int|
            old(actor).reported().len() <= i < final(actor).reported().len() - 1 ==> (
            #[trigger] final(actor).reported()[i]) is Continue,
{
    let ghost start = actor.history();
    let ghost told = actor.reported();
    let mut taken: usize = 0;
    let mut flow = Flow::Continue;
    while taken < turns
        invariant_except_break
            flow is Continue,
            taken > 0 ==> actor.history().last().post is Some,
        invariant
            forall|i: int|
                start.len() <= i < actor.history().len() - 1 ==> (#[trigger] actor.history()[i]).post
                    is Some,
            forall|i: int|
                start.len() <= i < actor.history().len() ==> !((#[trigger] actor.history()[i]).incoming
                    is Terminate),
            told == old(actor).reported(),
            told.is_prefix_of(actor.reported()),
            actor.reported().len() == told.len() + taken,
            taken > 0 ==> actor.reported().last() == flow,
            forall|i: int|
                told.len() <= i < actor.reported().len() - 1 ==> (#[trigger] actor.reported()[i])
                    is Continue,
            taken <= turns,
            actor.wf(),
            actor.origin() == old(actor).origin(),
            start == old(actor).history(),
            start.is_prefix_of(actor.history()),
            actor.history().len() == start.len() + taken,
            taken > 0 ==> reports(actor.history().last(), flow),
        ensures
            flow is Continue ==> taken == turns,
            turns > 0 ==> taken > 0,
        decreases turns - taken,
    {
        let ghost before = actor.history();
        let ghost heard = actor.reported();
        flow = serve_next(actor, mailbox);
        taken = taken + 1;
        proof {
            let said = actor.reported();
            assert forall|i: int| told.len() <= i < said.len() - 1 implies (#[trigger] said[i])
                is Continue by {
                assert(said[i] == heard[i]);
                if i == heard.len() - 1 {
                    assert(heard[i] == heard.last());
                }
            }
            let now = actor.history();
            assert forall|i: int| 0 <= i < before.len() implies before[i] == #[trigger] now[i] by {
                assert(before[i] == now.drop_last()[i]);
            }
            assert forall|i: int| start.len() <= i < now.len() - 1 implies (#[trigger] now[i]).post
                is Some by {
                assert(now[i] == before[i]);
                if i == before.len() - 1 {
                    assert(before[i] == before.last());
                }
            }
            assert forall|i: int| start.len() <= i < now.len() implies !((#[trigger] now[i]).incoming
                is Terminate) by {
                if i < before.len() {
                    assert(now[i] == before[i]);
                } else {
                    assert(now[i] == now.last());
                }
            }
            if flow is Continue {
                lemma_continue_means_alive(now.last(), flow);
            }
        }
        match flow {
            Flow::Continue => {},
            _ => {
                let _ = mailbox.retire();
                break ;
            },
        }
    }
    flow
}

} // verus!
