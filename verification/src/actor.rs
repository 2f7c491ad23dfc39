use crate::context::SyncContext;
use crate::message::{Request, Response};
use crate::protocol::{is_run, serve_spec, state_after, Incoming, Outcome, Step};
use crate::turn::Flow;
use vstd::prelude::*;

verus! {

/// The owner of an actor's state.
///
/// It holds the state from the actor's creation until the turn that finalizes it, hands it to
/// one operation at a time, and keeps (for proofs only) the record of every turn it took,
/// and of what its loop reported of each turn.
pub struct Actor<C: SyncContext> {
    ctx: Option<C>,
    origin: Ghost<C>,
    served: Ghost<Seq<Step<C>>>,
    told: Ghost<Seq<Flow<C::Res, C::Err>>>,
}

impl<C: SyncContext> Actor<C> {
    /// The state that the actor holds; `None` once it has been finalized.
    pub closed spec fn state(&self) -> Option<C> {
        self.ctx
    }

    /// The state that the actor was created with.
    pub closed spec fn origin(&self) -> C {
        self.origin@
    }

    /// The turns that the actor has taken, oldest first.
    pub closed spec fn history(&self) -> Seq<Step<C>> {
        self.served@
    }

    /// The reports that the actor's loop has given of its turns, oldest first.
    pub closed spec fn reported(&self) -> Seq<Flow<C::Res, C::Err>> {
        self.told@
    }

    /// The record is what the actor can have done since its creation, and it ends in the
    /// state that the actor holds.
    pub open spec fn wf(&self) -> bool {
        &&& is_run(self.origin(), self.history())
        &&& self.state() == state_after(self.origin(), self.history())
    }

    /// Puts a state under the care of a new actor, which has taken no turn yet.
    pub fn new(ctx: C) -> (actor: Self)
        ensures
            actor.wf(),
            actor.origin() == ctx,
            actor.state() == Some(ctx),
            actor.history() == Seq::<Step<C>>::empty(),
            actor.reported() == Seq::<Flow<C::Res, C::Err>>::empty(),
    {
        Actor {
            ctx: Some(ctx),
            origin: Ghost(ctx),
            served: Ghost(Seq::empty()),
            told: Ghost(Seq::empty()),
        }
    }

    /// Adds the report of a turn to the record. Nothing else changes.
    pub(crate) fn note(&mut self, Ghost(flow): Ghost<Flow<C::Res, C::Err>>)
        ensures
            final(self).reported() == old(self).reported().push(flow),
            final(self).state() == old(self).state(),
            final(self).origin() == old(self).origin(),
            final(self).history() == old(self).history(),
    {
        proof {
            self.told@ = self.told@.push(flow);
        }
    }

    /// Whether the state still lives.
    pub fn is_running(&self) -> (b: bool)
        ensures
            b == self.state().is_some(),
    {
        self.ctx.is_some()
    }

    /// Takes one turn on what the loop found, and hands back what the turn leaves behind.
    ///
    /// The turn obeys [`serve_spec`], and it is added to the record.
    pub fn serve(&mut self, incoming: Incoming<C::Req>) -> (outcome: Outcome<C::Res, C::Err>)
        requires
            old(self).wf(),
        ensures
            final(self).wf(),
            final(self).origin() == old(self).origin(),
            final(self).reported() == old(self).reported(),
            serve_spec(old(self).state(), incoming, final(self).state(), outcome),
            final(self).history() == old(self).history().push(
                Step {
                    pre: old(self).state(),
                    incoming,
                    post: final(self).state(),
                    outcome,
                },
            ),
    {
        let ghost pre = self.ctx;
        let taken = self.ctx.take();
        let outcome = match taken {
            None => match incoming {
                Incoming::Request(_) => Outcome::Reply(Response::Closed),
                _ => Outcome::Nothing,
            },
            Some(mut ctx) => match incoming {
                Incoming::Request(Request::Exec(req)) => {
                    let out = ctx.exec(req);
                    self.ctx = Some(ctx);
                    Outcome::Reply(Response::from_exec(out))
                },
                Incoming::Request(Request::CloseSignal) => {
                    let out = ctx.close();
                    assert(out matches Ok(unit) ==> unit == ());
                    Outcome::Reply(Response::from_close(out))
                },
                _ => {
                    let out = ctx.close();
                    Outcome::Finalized(out)
                },
            },
        };
        proof {
            let step = Step { pre, incoming, post: self.ctx, outcome };
            let before = self.served@;
            let after = before.push(step);
            assert forall|i: int| 0 < i < after.len() implies (#[trigger] after[i]).pre == after[i
                - 1].post by {
                if i == before.len() {
                    assert(after[i - 1] == before.last());
                } else {
                    assert(after[i] == before[i]);
                    assert(after[i - 1] == before[i - 1]);
                }
            }
            self.served@ = after;
        }
        outcome
    }
}

} // verus!
