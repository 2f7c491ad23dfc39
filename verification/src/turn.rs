use crate::close::{CloseFinisher, CloseHandle, Signal};
use crate::context::{Context, SyncContext};
use crate::handle::{Mailbox, Message};
use crate::message::{Request, Response};
use crate::protocol::{Incoming, Outcome, Step};
use crate::transport::{put, take_now, Polled};
use vstd::prelude::*;

verus! {

/// What an actor loop has in hand at the start of a turn.
#[verifier::reject_recursive_types(C)]
pub enum Arrival<C: Context> {
    /// A message, taken from the queue.
    Message(Message<C>),
    /// Nothing: the queue is closed and empty.
    Exhausted,
    /// The order to terminate that a coordinator has sent, with the ticket to let go
    /// afterwards where the coordinator waits for one.
    Termination(Option<CloseFinisher>),
}

/// What the loop of a group's member finds when it looks for work without waiting.
#[verifier::reject_recursive_types(C)]
pub enum Found<C: Context> {
    /// Work for a turn.
    Work(Arrival<C>),
    /// Neither an order to terminate nor a message is there yet: the loop has to wait for
    /// whichever comes first.
    Nothing,
    /// The coordinator is gone without having closed the group.
    Abandoned,
}

/// What the loop has to do with the state in a turn, and whom it owes the outcome.
#[verifier::reject_recursive_types(C)]
pub enum Duty<C: Context> {
    /// Perform the operation on `req`, and put its outcome into the cell.
    Operate { req: C::Req, res_tx: oneshot::Sender<Response<C::Res, C::Err>> },
    /// Finalize the state, and put the outcome into the cell.
    Close { res_tx: oneshot::Sender<Response<C::Res, C::Err>> },
    /// Finalize the state with nobody to answer. Where a coordinator waits for it, its
    /// ticket is held until the state is finalized, and let go then.
    Finalize { finisher: Option<CloseFinisher> },
}

/// How a turn of the loop ended, as far as the loop's runner has to know.
#[derive(Debug, PartialEq, Eq)]
pub enum Flow<S, E> {
    /// A request was served and its answer delivered; the state lives on.
    Continue,
    /// The state is finalized, and whoever was owed an answer has got it.
    Closed,
    /// Every handle was gone, or a coordinator gave the order to terminate: the state was
    /// finalized with nobody to answer. This is what the finalization returned.
    Finalized(Result<(), E>),
    /// The answer of this turn could not be delivered, because the caller had given up its
    /// cell. The caller's side has broken the protocol; the loop must not go on.
    Undelivered(Response<S, E>),
}

impl<C: Context> Arrival<C> {
    /// What the loop finds in this arrival.
    pub open spec fn incoming(self) -> Incoming<C::Req> {
        match self {
            Arrival::Message(message) => Incoming::Request(message.req),
            Arrival::Exhausted => Incoming::Exhausted,
            Arrival::Termination(_) => Incoming::Terminate,
        }
    }

    /// The duty that this arrival puts on a loop whose state lives.
    pub open spec fn duty(self) -> Duty<C> {
        match self {
            Arrival::Message(message) => match message.req {
                Request::Exec(req) => Duty::Operate { req, res_tx: message.res_tx },
                Request::CloseSignal => Duty::Close { res_tx: message.res_tx },
            },
            Arrival::Exhausted => Duty::Finalize { finisher: None },
            Arrival::Termination(finisher) => Duty::Finalize { finisher },
        }
    }

    /// What the queue's answer to a wait means to the loop.
    pub fn from_queue(taken: Option<Message<C>>) -> (arrival: Self)
        ensures
            arrival == (match taken {
                Some(message) => Arrival::Message(message),
                None => Arrival::Exhausted,
            }),
    {
        match taken {
            Some(message) => Arrival::Message(message),
            None => Arrival::Exhausted,
        }
    }

    /// Decides what a loop whose state lives has to do on this arrival.
    ///
    /// A request for an operation is performed and answered; a close signal finalizes the
    /// state and is answered; an exhausted queue and an order to terminate finalize the
    /// state with nobody to answer.
    pub fn into_duty(self) -> (duty: Duty<C>)
        ensures
            duty == self.duty(),
    {
        match self {
            Arrival::Message(message) => {
                let Message { req, res_tx } = message;
                match req {
                    Request::Exec(req) => Duty::Operate { req, res_tx },
                    Request::CloseSignal => Duty::Close { res_tx },
                }
            },
            Arrival::Exhausted => Duty::Finalize { finisher: None },
            Arrival::Termination(finisher) => Duty::Finalize { finisher },
        }
    }
}

impl<C: Context> Found<C> {
    /// What a look into the queue means to the loop.
    pub open spec fn of_queue(polled: Polled<Message<C>>) -> Self {
        match polled {
            Polled::Item(message) => Found::Work(Arrival::Message(message)),
            Polled::Empty => Found::Nothing,
            Polled::Closed => Found::Work(Arrival::Exhausted),
        }
    }

    /// Reads a look into the queue: a message is work, a closed and empty queue is work as
    /// well (the state has to be finalized), and an empty one means to wait.
    pub fn from_queue(polled: Polled<Message<C>>) -> (found: Self)
        ensures
            found == Self::of_queue(polled),
    {
        match polled {
            Polled::Item(message) => Found::Work(Arrival::Message(message)),
            Polled::Empty => Found::Nothing,
            Polled::Closed => Found::Work(Arrival::Exhausted),
        }
    }
}

/// Looks for the work of a member's next turn without waiting, the order to terminate
/// first.
///
/// This is the rule by which a group closes under load: the queue is looked at only where
/// no order to terminate is there, so a steady stream of requests cannot keep the group
/// from closing. A message that a turn has taken is served to its end before the loop
/// looks again, so no request that was taken is dropped.
///
/// What the two sources show is their affair. Whatever it is, the result is what
/// [`Found::of_looks`] makes of it: an order to terminate comes with its ticket, a
/// coordinator that is gone is reported, and the queue counts only where the coordinator is
/// quiet.
pub fn look<C: Context>(handle: &CloseHandle, mailbox: &Mailbox<C>) -> (found: Found<C>)
    ensures
        exists|signal: Signal, polled: Polled<Message<C>>|
            found == #[trigger] Found::of_looks(signal, polled),
{
    look_after(handle.poll(), mailbox)
}

/// Finishes the look for work after the look at the coordinator has shown `signal`: what
/// the signal settles is the result, and the queue is looked at only where it settles
/// nothing.
pub fn look_after<C: Context>(signal: Signal, mailbox: &Mailbox<C>) -> (found: Found<C>)
    ensures
        Found::<C>::settled_by(signal) matches Some(settled) ==> found == settled,
        Found::<C>::settled_by(signal) is None ==> exists|polled: Polled<Message<C>>|
            found == #[trigger] Found::of_queue(polled),
        exists|polled: Polled<Message<C>>| found == #[trigger] Found::of_looks(signal, polled),
{
    let ghost seen = signal;
    match Found::from_signal(signal) {
        Some(found) => {
            assert(found == Found::of_looks(seen, Polled::<Message<C>>::Empty));
            found
        },
        None => {
            let polled = take_now(&mailbox.req_rx);
            let found = Found::from_queue(polled);
            assert(found == Found::of_queue(polled));
            assert(found == Found::of_looks(seen, polled));
            found
        },
    }
}

impl<C: Context> Found<C> {
    /// What a look at the coordinator settles by itself: an order to terminate is work, with
    /// its ticket, and a coordinator that is gone is reported; a quiet one settles nothing.
    pub open spec fn settled_by(signal: Signal) -> Option<Self> {
        match signal {
            Signal::Terminate(finisher) => Some(
                Found::Work(Arrival::Termination(Some(finisher))),
            ),
            Signal::Abandoned => Some(Found::Abandoned),
            Signal::Quiet => None,
        }
    }

    /// What the two looks of a member's loop mean together, the order to terminate first:
    /// the queue counts only where the look at the coordinator settles nothing.
    pub open spec fn of_looks(signal: Signal, polled: Polled<Message<C>>) -> Self {
        match Self::settled_by(signal) {
            Some(found) => found,
            None => Self::of_queue(polled),
        }
    }

    /// Reads a look at the coordinator. `None` means that the queue has to be looked at.
    pub fn from_signal(signal: Signal) -> (settled: Option<Self>)
        ensures
            settled == Self::settled_by(signal),
    {
        match signal {
            Signal::Terminate(finisher) => Some(
                Found::Work(Arrival::Termination(Some(finisher))),
            ),
            Signal::Abandoned => Some(Found::Abandoned),
            Signal::Quiet => None,
        }
    }
}

impl<S, E> Flow<S, E> {
    /// What the outcome of putting an answer into the caller's cell means to the loop:
    /// where the cell took it, the turn is reported as delivered, `Continue` while the state
    /// lives and `Closed` once it is gone; where the answer came back, it is reported as
    /// `Undelivered`, whatever the state.
    pub open spec fn of_put(sent: Result<(), Response<S, E>>, running: bool) -> Self {
        match sent {
            Ok(_) => if running {
                Flow::Continue
            } else {
                Flow::Closed
            },
            Err(back) => Flow::Undelivered(back),
        }
    }

    /// Reads the outcome of putting an answer into the caller's cell: `running` says
    /// whether the state lives on after the turn. An answer that came back is never
    /// reported as delivered.
    pub fn from_put(sent: Result<(), Response<S, E>>, running: bool) -> (flow: Self)
        ensures
            flow == Self::of_put(sent, running),
    {
        match sent {
            Ok(_) => if running {
                Flow::Continue
            } else {
                Flow::Closed
            },
            Err(back) => Flow::Undelivered(back),
        }
    }
}

/// Whether `flow` is the report of a turn that owed `answer` to a caller: it is what
/// [`Flow::of_put`] makes of the outcome of putting the answer into the caller's cell, and
/// an outcome that hands something back hands back this answer.
pub open spec fn delivery<S, E>(answer: Response<S, E>, running: bool, flow: Flow<S, E>) -> bool {
    exists|sent: Result<(), Response<S, E>>|
        (sent matches Err(back) ==> back == answer) && flow == #[trigger] Flow::of_put(
            sent,
            running,
        )
}

/// Whether `flow` is the report of the turn `step`: of the delivery of its answer where it
/// owed one, of the finalization where nobody was to answer, and `Closed` where nothing
/// was left to do.
pub open spec fn reports<C: SyncContext>(step: Step<C>, flow: Flow<C::Res, C::Err>) -> bool {
    match step.outcome {
        Outcome::Reply(answer) => delivery(answer, step.post is Some, flow),
        Outcome::Finalized(out) => flow == Flow::<C::Res, C::Err>::Finalized(out),
        Outcome::Nothing => flow == Flow::<C::Res, C::Err>::Closed,
    }
}

/// A turn that is reported `Continue` owed an answer, delivered it, and left the state
/// alive.
pub proof fn lemma_continue_means_alive<C: SyncContext>(step: Step<C>, flow: Flow<C::Res, C::Err>)
    requires
        reports(step, flow),
        flow is Continue,
    ensures
        step.outcome is Reply,
        step.post is Some,
{
}

/// Puts the answer of a turn into the caller's cell, and reports the turn: `running` says
/// whether the state lives on after it.
///
/// Whether the caller still holds the cell is the caller's affair. Whatever the cell's
/// answer is, the report is what [`Flow::of_put`] makes of it: `Continue` or `Closed`, as
/// `running` says, where the cell took the answer, and `Undelivered` with the answer where
/// it did not.
pub fn deliver<S, E>(res_tx: oneshot::Sender<Response<S, E>>, answer: Response<S, E>, running: bool) -> (flow:
    Flow<S, E>)
    ensures
        delivery(answer, running, flow),
{
    let sent = put(res_tx, answer);
    let ghost outcome = sent;
    let flow = Flow::from_put(sent, running);
    assert(flow == Flow::of_put(outcome, running));
    flow
}

} // verus!
