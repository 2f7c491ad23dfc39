use crate::error::ClosedError;
use vstd::prelude::*;
use vstd::std_specs::convert::FromSpec;

verus! {

/// What a caller asks of an actor.
#[derive(Debug, PartialEq, Eq)]
pub enum Request<Q> {
    /// Perform one operation with this input.
    Exec(Q),
    /// Finalize the state and stop.
    CloseSignal,
}

/// What an actor answers.
#[derive(Debug, PartialEq, Eq)]
pub enum Response<S, E> {
    /// The operation succeeded with this output.
    Value(S),
    /// The operation, or the finalization, failed with this error.
    Failure(E),
    /// The actor has finalized its state: now, if the request was a close signal, or before
    /// the request could be served.
    Closed,
}

impl<S, E> Response<S, E> {
    /// The answer that reports the outcome of an operation.
    pub open spec fn of_exec(out: Result<S, E>) -> Self {
        match out {
            Ok(v) => Response::Value(v),
            Err(e) => Response::Failure(e),
        }
    }

    /// The answer that reports the outcome of a finalization.
    pub open spec fn of_close(out: Result<(), E>) -> Self {
        match out {
            Ok(_) => Response::Closed,
            Err(e) => Response::Failure(e),
        }
    }

    /// Wraps the outcome of an operation as the answer to the request that asked for it.
    pub fn from_exec(out: Result<S, E>) -> (r: Self)
        ensures
            r == Self::of_exec(out),
    {
        match out {
            Ok(v) => Response::Value(v),
            Err(e) => Response::Failure(e),
        }
    }

    /// Wraps the outcome of a finalization as the answer to the close signal that asked for it.
    pub fn from_close(out: Result<(), E>) -> (r: Self)
        ensures
            r == Self::of_close(out),
    {
        match out {
            Ok(_) => Response::Closed,
            Err(e) => Response::Failure(e),
        }
    }

    /// What the answer cell of a request yields to the caller: the answer that was put into
    /// it, or `Closed` where the cell was given up without one.
    pub open spec fn of_reply(reply: Option<Self>) -> Self {
        match reply {
            Some(r) => r,
            None => Response::Closed,
        }
    }

    /// What an exchange with an actor yields to the caller: where the queue took the
    /// request, what its answer cell yields; where the queue refused it, `Closed`.
    pub open spec fn of_exchange(accepted: bool, reply: Option<Self>) -> Self {
        if accepted {
            Self::of_reply(reply)
        } else {
            Response::Closed
        }
    }

    /// Reads what came out of the answer cell of a request. A cell that was given up without
    /// an answer means that the actor stopped before it served the request, which the caller
    /// observes as `Closed`.
    pub fn from_reply(reply: Option<Self>) -> (r: Self)
        ensures
            r == Self::of_reply(reply),
    {
        match reply {
            Some(r) => r,
            None => Response::Closed,
        }
    }
}

impl<S, E: From<ClosedError>> Response<S, E> {
    /// What the caller of a request gets for this answer, where the error type says how it
    /// is built from a `ClosedError`.
    pub open spec fn request_result(self) -> Result<S, E> {
        match self {
            Response::Value(v) => Ok(v),
            Response::Failure(e) => Err(e),
            Response::Closed => Err(E::from_spec(ClosedError)),
        }
    }

    /// Turns the answer to a request into the caller's result: the output, the operation's
    /// own error, or the closed error in the caller's error type.
    pub fn into_result(self) -> (r: Result<S, E>)
        ensures
            self is Value ==> r == Ok::<S, E>(self->Value_0),
            self is Failure ==> r == Err::<S, E>(self->Failure_0),
            self is Closed ==> r is Err,
            E::obeys_from_spec() ==> r == self.request_result(),
    {
        match self {
            Response::Value(v) => Ok(v),
            Response::Failure(e) => Err(e),
            Response::Closed => Err(E::from(ClosedError)),
        }
    }
}

impl<S, E> Response<S, E> {
    /// What the caller of a close gets for this answer; `None` for an answer that no close
    /// can have, an output value.
    pub open spec fn close_result(self) -> Option<Result<(), E>> {
        match self {
            Response::Value(_) => None,
            Response::Failure(e) => Some(Err(e)),
            Response::Closed => Some(Ok(())),
        }
    }

    /// Turns the answer to a close signal into the caller's result, or into `None` where
    /// the answer is an output value, which breaks the protocol.
    pub fn into_close_result(self) -> (r: Option<Result<(), E>>)
        ensures
            r == self.close_result(),
    {
        match self {
            Response::Value(_) => None,
            Response::Failure(e) => Some(Err(e)),
            Response::Closed => Some(Ok(())),
        }
    }
}

} // verus!
