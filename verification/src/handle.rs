use crate::context::Context;
use crate::message::{Request, Response};
use crate::transport::{
    another_sender, cell, get_blocking, offer, queue, queued, shut, take_blocking, take_now,
    Polled,
};
use crate::turn::{deliver, delivery, Flow};
use vstd::prelude::*;
use vstd::std_specs::convert::FromSpec;

verus! {

/// The unit that travels from a handle to the actor loop: a request, and the writing end of
/// the cell into which its one answer goes.
#[verifier::reject_recursive_types(C)]
pub struct Message<C: Context> {
    pub req: Request<C::Req>,
    pub res_tx: oneshot::Sender<Response<C::Res, C::Err>>,
}

/// The consumer side of an actor's request queue. There is one per actor, and the actor loop
/// owns it.
#[verifier::reject_recursive_types(C)]
pub struct Mailbox<C: Context> {
    pub req_rx: async_channel::Receiver<Message<C>>,
}

/// The reading end of the cell of a request that the queue has accepted.
#[verifier::reject_recursive_types(C)]
pub struct Pending<C: Context> {
    pub res_rx: oneshot::Receiver<Response<C::Res, C::Err>>,
}

/// What became of a request that was handed to a handle.
#[verifier::reject_recursive_types(C)]
pub enum Submission<C: Context> {
    /// The queue took the request; its answer will come through the cell.
    Accepted(Pending<C>),
    /// The queue is closed: the actor has stopped. The request comes back.
    Refused(Request<C::Req>),
}

/// The front end of an actor: a producer side of its request queue. It can be cloned and
/// handed to other threads; the queue stays open to the actor as long as one clone lives.
#[verifier::reject_recursive_types(C)]
pub struct Handle<C: Context> {
    req_tx: async_channel::Sender<Message<C>>,
}

/// Makes the request queue of a new actor, and hands back its first handle and its mailbox.
pub fn channel<C: Context>() -> (ends: (Handle<C>, Mailbox<C>)) {
    let (req_tx, req_rx) = queue::<Message<C>>();
    (Handle { req_tx }, Mailbox { req_rx })
}

impl<C: Context> Clone for Handle<C> {
    fn clone(&self) -> (r: Self) {
        Handle { req_tx: another_sender(&self.req_tx) }
    }
}

impl<C: Context> Mailbox<C> {
    /// Waits on the calling thread for the next message. `None` means that the queue is
    /// closed and empty: every handle is gone, or the mailbox was retired.
    pub fn recv(&self) -> (r: Option<Message<C>>) {
        take_blocking(&self.req_rx)
    }

    /// Closes the queue to further requests and answers `Closed` to every message that is
    /// still queued, so that no caller waits for an actor that has stopped. The result is
    /// the number of messages that were answered so.
    ///
    /// A caller that has given up its cell gets no answer, and is not counted. On a mailbox
    /// that was retired before, nothing is left to do.
    ///
    /// How many messages are queued, and which cells are still held, is the callers'
    /// affair. Whatever it is, every message taken out is answered `Closed` by
    /// [`deliver`], and the result counts the reports that say the cell took it.
    pub fn retire(&self) -> (rejected: usize)
        ensures
            exists|flows: Seq<Flow<C::Res, C::Err>>|
                rejected == #[trigger] rejections(flows) && forall|i: int|
                    0 <= i < flows.len() ==> delivery(
                        Response::<C::Res, C::Err>::Closed,
                        false,
                        #[trigger] flows[i],
                    ),
    {
        let _ = shut(&self.req_rx);
        let mut left: usize = queued(&self.req_rx);
        let mut rejected: usize = 0;
        let ghost mut flows: Seq<Flow<C::Res, C::Err>> = Seq::empty();
        while left > 0
            invariant
                rejected + left <= usize::MAX,
                rejected == rejections(flows),
                forall|i: int|
                    0 <= i < flows.len() ==> delivery(
                        Response::<C::Res, C::Err>::Closed,
                        false,
                        #[trigger] flows[i],
                    ),
            decreases left,
        {
            left = left - 1;
            match Self::owed(take_now(&self.req_rx)) {
                Some(res_tx) => {
                    let flow = deliver(res_tx, Response::Closed, false);
                    proof {
                        assert(flows.push(flow).drop_last() == flows);
                        flows = flows.push(flow);
                    }
                    rejected = Self::counted(rejected, flow);
                },
                None => {},
            }
        }
        rejected
    }

    /// Reads one look into the retired queue: a message that was taken out is owed an
    /// answer, and this is its cell; an empty look owes nothing.
    pub fn owed(polled: Polled<Message<C>>) -> (cell: Option<
        oneshot::Sender<Response<C::Res, C::Err>>,
    >)
        ensures
            cell == (match polled {
                Polled::Item(message) => Some(message.res_tx),
                _ => None,
            }),
    {
        match polled {
            Polled::Item(message) => Some(message.res_tx),
            _ => None,
        }
    }

    /// Reads the report of one rejection into the count: a caller whose cell took the
    /// `Closed` is counted, one that has given up its cell is not.
    pub fn counted(rejected: usize, flow: Flow<C::Res, C::Err>) -> (next: usize)
        requires
            rejected < usize::MAX,
        ensures
            next == rejected + (if flow is Closed {
                1int
            } else {
                0int
            }),
    {
        match flow {
            Flow::Closed => rejected + 1,
            _ => rejected,
        }
    }
}

/// The number of reports among `flows` that say the caller's cell took a `Closed`.
pub open spec fn rejections<S, E>(flows: Seq<Flow<S, E>>) -> nat
    decreases flows.len(),
{
    if flows.len() == 0 {
        0
    } else {
        rejections(flows.drop_last()) + (if flows.last() is Closed {
            1nat
        } else {
            0nat
        })
    }
}

impl<C: Context> Pending<C> {
    /// Waits on the calling thread for the answer. Where the cell is given up without one,
    /// the actor stopped before it served the request, and the answer is `Closed`.
    ///
    /// What the cell yields is the actor's affair. Whatever it is, the result is what
    /// [`Response::of_exchange`] makes of it for a request that the queue took.
    pub fn wait(self) -> (r: Response<C::Res, C::Err>)
        ensures
            exists|reply: Option<Response<C::Res, C::Err>>|
                r == #[trigger] Response::of_exchange(true, reply),
    {
        let reply = get_blocking(self.res_rx);
        let r = Response::from_reply(reply);
        assert(r == Response::of_exchange(true, reply));
        r
    }
}

impl<C: Context> Submission<C> {
    /// Waits on the calling thread for the answer to the request that was handed in. A
    /// request that the queue refused is answered `Closed` at once, without waiting.
    ///
    /// The result is what [`Response::of_exchange`] makes of this submission and of what
    /// the answer cell yields.
    pub fn wait(self) -> (r: Response<C::Res, C::Err>)
        ensures
            self is Refused ==> r == Response::<C::Res, C::Err>::Closed,
            exists|reply: Option<Response<C::Res, C::Err>>|
                r == #[trigger] Response::of_exchange(self is Accepted, reply),
    {
        match self {
            Submission::Accepted(pending) => pending.wait(),
            Submission::Refused(_) => {
                let r = Response::Closed;
                assert(r == Response::of_exchange(
                    false,
                    None::<Response<C::Res, C::Err>>,
                ));
                r
            },
        }
    }
}

impl<C: Context> Handle<C> {
    /// Hands a request to the queue without waiting for its answer.
    ///
    /// Whether the queue takes it is decided by the actor's side, and read by
    /// [`Submission::from_offer`]. A request that is refused comes back unchanged.
    pub fn submit(&self, req: Request<C::Req>) -> (r: Submission<C>)
        ensures
            r matches Submission::Refused(back) ==> back == req,
    {
        let (res_tx, res_rx) = cell::<Response<C::Res, C::Err>>();
        Submission::from_offer(offer(&self.req_tx, Message { req, res_tx }), res_rx)
    }

    /// Hands a request to the queue and waits on the calling thread for its answer, which
    /// is `Closed` where the queue refuses the request.
    ///
    /// Whether the queue takes the request and what the answer cell yields is the actor's
    /// affair. Whatever it is, the result is what [`Response::of_exchange`] makes of it.
    pub fn request_raw(&self, req: Request<C::Req>) -> (r: Response<C::Res, C::Err>)
        ensures
            exists|accepted: bool, reply: Option<Response<C::Res, C::Err>>|
                r == #[trigger] Response::of_exchange(accepted, reply),
    {
        let submission = self.submit(req);
        let ghost accepted = submission is Accepted;
        let r = submission.wait();
        assert(exists|reply: Option<Response<C::Res, C::Err>>|
            r == #[trigger] Response::of_exchange(accepted, reply));
        r
    }

    /// Asks the actor for one operation and waits on the calling thread for its outcome.
    ///
    /// The result is what [`Response::into_result`] makes of the exchange: the operation's
    /// output or error where the actor answered, and the closed error where the queue
    /// refused the request, where the actor answered `Closed`, and where the answer cell
    /// was given up empty.
    pub fn request(&self, req: C::Req) -> (r: Result<C::Res, C::Err>)
        ensures
            exists|accepted: bool, reply: Option<Response<C::Res, C::Err>>|
                C::Err::obeys_from_spec() ==> r == (#[trigger] Response::of_exchange(
                    accepted,
                    reply,
                )).request_result(),
    {
        let answer = self.request_raw(Request::Exec(req));
        let r = answer.into_result();
        proof {
            let (accepted, reply) = choose|accepted: bool, reply: Option<Response<C::Res, C::Err>>|
                answer == #[trigger] Response::of_exchange(accepted, reply);
            assert(C::Err::obeys_from_spec() ==> r == Response::of_exchange(
                accepted,
                reply,
            ).request_result());
        }
        r
    }

    /// Asks the actor to finalize its state and stop, and waits on the calling thread for
    /// the outcome.
    ///
    /// The result is what [`Response::into_close_result`] makes of the actor's answer:
    /// `Some(Ok(()))` where the state is finalized, now or earlier, `Some(Err(_))` where the
    /// finalization failed, and `None` where the answer was an output value, which no actor
    /// of this library gives to a close signal.
    pub fn wait_close(self) -> (r: Option<Result<(), C::Err>>)
        ensures
            exists|accepted: bool, reply: Option<Response<C::Res, C::Err>>|
                r == (#[trigger] Response::of_exchange(accepted, reply)).close_result(),
    {
        let answer = self.request_raw(Request::CloseSignal);
        let r = answer.into_close_result();
        proof {
            let (accepted, reply) = choose|accepted: bool, reply: Option<Response<C::Res, C::Err>>|
                answer == #[trigger] Response::of_exchange(accepted, reply);
            assert(r == Response::of_exchange(accepted, reply).close_result());
        }
        r
    }
}

impl<C: Context> Submission<C> {
    /// What the queue's answer to an offer makes of a request: where the queue took the
    /// message, the answer will come through the cell with the reading end `res_rx`; where
    /// it handed the message back, the request in it is refused.
    pub open spec fn of_offer(
        offered: Result<(), Message<C>>,
        res_rx: oneshot::Receiver<Response<C::Res, C::Err>>,
    ) -> Self {
        match offered {
            Ok(_) => Submission::Accepted(Pending { res_rx }),
            Err(message) => Submission::Refused(message.req),
        }
    }

    /// Reads the queue's answer to the offer of a message, whose cell has the reading end
    /// `res_rx`.
    pub fn from_offer(
        offered: Result<(), Message<C>>,
        res_rx: oneshot::Receiver<Response<C::Res, C::Err>>,
    ) -> (r: Self)
        ensures
            r == Self::of_offer(offered, res_rx),
    {
        match offered {
            Ok(_) => Submission::Accepted(Pending { res_rx }),
            Err(message) => Submission::Refused(message.req),
        }
    }
}

} // verus!
