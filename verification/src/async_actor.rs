use crate::close::CloseFinisher;
use crate::context::{AsyncContext, Context};
use crate::message::Response;
use crate::turn::{deliver, delivery, Arrival, Duty, Flow};
use vstd::prelude::*;

verus! {

/// Where an actor with suspending operations stands between two steps of its loop.
#[derive(Clone, Copy, Debug, PartialEq, Eq, Structural)]
pub enum Phase {
    /// The state lives, and no operation is under way.
    Idle,
    /// The state lives, and an operation on it has been started and not yet finished.
    Operating,
    /// The finalization of the state has been started and not yet finished.
    Closing,
    /// The state is finalized.
    Stopped,
}

/// Whom the outcome of a finalization is owed.
#[verifier::reject_recursive_types(C)]
pub enum Owed<C: Context> {
    /// The caller who sent the close signal: the outcome goes into its cell.
    Answer(oneshot::Sender<Response<C::Res, C::Err>>),
    /// Nobody. Where a coordinator waits, this is its ticket, to let go afterwards.
    Nobody(Option<CloseFinisher>),
}

/// What the loop has to wait for after the start of a turn.
#[verifier::reject_recursive_types(C)]
pub enum Started<C: AsyncContext> {
    /// An operation has been started. When `pending` has given its outcome, the loop hands
    /// it with `res_tx` to [`AsyncActor::finish_exec`].
    Operating { pending: C::ExecFuture, res_tx: oneshot::Sender<Response<C::Res, C::Err>> },
    /// The finalization has been started. When `closing` has given its outcome, the loop
    /// hands it with `owed` to [`AsyncActor::finish_close`].
    Closing { closing: C::CloseFuture, owed: Owed<C> },
    /// Nothing was started, because the state is finalized. The turn is over, and this is
    /// its report.
    Done(Flow<C::Res, C::Err>),
    /// Nothing was started, because an earlier start has not been finished. The arrival
    /// comes back unserved.
    Busy(Arrival<C>),
}

/// The owner of the state of an actor with suspending operations.
///
/// It holds the state from the actor's creation until the finalization is started, starts
/// one operation at a time, and starts the finalization once.
pub struct AsyncActor<C: AsyncContext> {
    ctx: Option<C>,
    busy: bool,
    closes: Ghost<nat>,
}

impl<C: AsyncContext> AsyncActor<C> {
    /// The state that the actor holds; `None` once its finalization has been started.
    pub closed spec fn state(&self) -> Option<C> {
        self.ctx
    }

    /// Whether something has been started and not yet finished.
    pub closed spec fn busy(&self) -> bool {
        self.busy
    }

    /// How often the finalization of the state has been started.
    pub closed spec fn closes(&self) -> nat {
        self.closes@
    }

    /// Where the actor stands.
    pub open spec fn phase(&self) -> Phase {
        match (self.state(), self.busy()) {
            (Some(_), false) => Phase::Idle,
            (Some(_), true) => Phase::Operating,
            (None, true) => Phase::Closing,
            (None, false) => Phase::Stopped,
        }
    }

    /// The finalization has been started once if the state is gone, and never if it lives.
    pub open spec fn wf(&self) -> bool {
        self.closes() == (if self.state() is None {
            1nat
        } else {
            0nat
        })
    }

    /// The finalization of the state is started exactly once, or not at all: never while
    /// the state lives, and once when the actor is closing or has stopped.
    pub proof fn law_close_started_once(&self)
        requires
            self.wf(),
        ensures
            self.closes() <= 1,
            self.closes() == 1 <==> (self.phase() is Closing || self.phase() is Stopped),
    {
    }

    /// Puts a state under the care of a new actor, which is idle.
    pub fn new(ctx: C) -> (actor: Self)
        ensures
            actor.wf(),
            actor.state() == Some(ctx),
            actor.phase() == Phase::Idle,
            actor.closes() == 0,
    {
        AsyncActor { ctx: Some(ctx), busy: false, closes: Ghost(0) }
    }

    /// Where the actor stands.
    pub fn current_phase(&self) -> (phase: Phase)
        ensures
            phase == self.phase(),
    {
        match (&self.ctx, self.busy) {
            (Some(_), false) => Phase::Idle,
            (Some(_), true) => Phase::Operating,
            (None, true) => Phase::Closing,
            (None, false) => Phase::Stopped,
        }
    }

    /// What the start of a turn makes of an idle actor with the state `pre` on `arrival`.
    pub open spec fn starts(pre: C, arrival: Arrival<C>, post: Option<C>, started: Started<C>) -> bool {
        match arrival.duty() {
            Duty::Operate { req, res_tx } => {
                &&& post matches Some(next)
                &&& started matches Started::Operating { pending, res_tx: cell }
                &&& cell == res_tx
                &&& C::exec_spec(pre, req, next, pending)
            },
            Duty::Close { res_tx } => {
                &&& post is None
                &&& started matches Started::Closing { closing, owed }
                &&& owed == Owed::<C>::Answer(res_tx)
                &&& C::close_spec(pre, closing)
            },
            Duty::Finalize { finisher } => {
                &&& post is None
                &&& started matches Started::Closing { closing, owed }
                &&& owed == Owed::<C>::Nobody(finisher)
                &&& C::close_spec(pre, closing)
            },
        }
    }

    /// Starts a turn on what has arrived.
    ///
    /// An idle actor starts what the arrival asks for: the operation on a request, the
    /// finalization on a close signal, on an exhausted queue and on an order to terminate.
    /// An actor that has started something and not finished it starts nothing, and hands the
    /// arrival back. An actor whose state is finalized starts nothing either: it answers
    /// `Closed` to a message, and the turn is over.
    pub fn start(&mut self, arrival: Arrival<C>) -> (started: Started<C>)
        requires
            old(self).wf(),
        ensures
            final(self).wf(),
            match old(self).phase() {
                Phase::Idle => {
                    &&& Self::starts(old(self).state()->0, arrival, final(self).state(), started)
                    &&& final(self).busy()
                },
                Phase::Operating | Phase::Closing => {
                    &&& final(self).state() == old(self).state()
                    &&& final(self).busy()
                    &&& started == Started::Busy(arrival)
                },
                Phase::Stopped => {
                    &&& final(self).phase() == Phase::Stopped
                    &&& started matches Started::Done(flow)
                    &&& if arrival is Message {
                        delivery(Response::<C::Res, C::Err>::Closed, false, flow)
                    } else {
                        flow == Flow::<C::Res, C::Err>::Closed
                    }
                },
            },
            final(self).closes() == old(self).closes() + (if started is Closing {
                1nat
            } else {
                0nat
            }),
    {
        if self.busy {
            return Started::Busy(arrival);
        }
        match self.ctx.take() {
            None => match arrival {
                Arrival::Message(message) => Started::Done(
                    deliver(message.res_tx, Response::Closed, false),
                ),
                _ => Started::Done(Flow::Closed),
            },
            Some(mut ctx) => {
                self.busy = true;
                match arrival.into_duty() {
                    Duty::Operate { req, res_tx } => {
                        let pending = ctx.exec(req);
                        self.ctx = Some(ctx);
                        Started::Operating { pending, res_tx }
                    },
                    Duty::Close { res_tx } => {
                        let closing = ctx.close();
                        proof {
                            self.closes@ = self.closes@ + 1;
                        }
                        Started::Closing { closing, owed: Owed::Answer(res_tx) }
                    },
                    Duty::Finalize { finisher } => {
                        let closing = ctx.close();
                        proof {
                            self.closes@ = self.closes@ + 1;
                        }
                        Started::Closing { closing, owed: Owed::Nobody(finisher) }
                    },
                }
            },
        }
    }

    /// Starts what an actor owes its state when its loop has to stop because an answer
    /// could not be delivered: the finalization, with nobody to answer, where the state
    /// lives and nothing is under way; and nothing otherwise.
    ///
    /// The loop of an actor whose owner waits for the end of the finalization calls this
    /// with the report of its last turn, finishes what was started, and only then stops.
    pub fn start_on_fault(&mut self, flow: &Flow<C::Res, C::Err>) -> (started: Option<Started<C>>)
        requires
            old(self).wf(),
        ensures
            final(self).wf(),
            if *flow is Undelivered && old(self).phase() is Idle {
                &&& started matches Some(begun)
                &&& Self::starts(
                    old(self).state()->0,
                    Arrival::Termination(None),
                    final(self).state(),
                    begun,
                )
                &&& final(self).busy()
                &&& final(self).closes() == old(self).closes() + 1
            } else {
                &&& started is None
                &&& final(self).state() == old(self).state()
                &&& final(self).busy() == old(self).busy()
                &&& final(self).closes() == old(self).closes()
            },
    {
        match flow {
            Flow::Undelivered(_) => if self.ctx.is_some() && !self.busy {
                Some(self.start(Arrival::Termination(None)))
            } else {
                None
            },
            _ => None,
        }
    }

    /// Ends the turn of an operation: takes what the operation gave, puts the answer into
    /// the caller's cell, and reports the turn. The actor is idle again.
    ///
    /// The answer is the outcome wrapped by [`Response::from_exec`]; whether it can be
    /// delivered is the caller's affair.
    pub fn finish_exec(
        &mut self,
        res_tx: oneshot::Sender<Response<C::Res, C::Err>>,
        out: Result<C::Res, C::Err>,
    ) -> (flow: Flow<C::Res, C::Err>)
        requires
            old(self).wf(),
        ensures
            final(self).wf(),
            final(self).state() == old(self).state(),
            final(self).closes() == old(self).closes(),
            final(self).busy() == (old(self).busy() && !(old(self).phase() is Operating)),
            delivery(Response::<C::Res, C::Err>::of_exec(out), final(self).state() is Some, flow),
    {
        if self.ctx.is_some() {
            self.busy = false;
        }
        deliver(res_tx, Response::from_exec(out), self.ctx.is_some())
    }

    /// Ends the turn of the finalization: takes what the finalization gave, hands it to
    /// whom it is owed, and reports the turn. The actor has stopped.
    ///
    /// A caller who sent the close signal gets the outcome wrapped by
    /// [`Response::from_close`] into its cell; where nobody is owed, the outcome is the
    /// report, and the coordinator's ticket is let go.
    pub fn finish_close(&mut self, owed: Owed<C>, out: Result<(), C::Err>) -> (flow: Flow<
        C::Res,
        C::Err,
    >)
        requires
            old(self).wf(),
        ensures
            final(self).wf(),
            final(self).state() == old(self).state(),
            final(self).closes() == old(self).closes(),
            final(self).busy() == (old(self).busy() && !(old(self).phase() is Closing)),
            match owed {
                Owed::Answer(_) => delivery(
                    Response::<C::Res, C::Err>::of_close(out),
                    final(self).state() is Some,
                    flow,
                ),
                Owed::Nobody(_) => flow == Flow::<C::Res, C::Err>::Finalized(out),
            },
    {
        if self.ctx.is_none() {
            self.busy = false;
        }
        match owed {
            Owed::Answer(res_tx) => deliver(res_tx, Response::from_close(out), self.ctx.is_some()),
            Owed::Nobody(_) => Flow::Finalized(out),
        }
    }
}

} // verus!
