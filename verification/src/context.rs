use crate::error::ClosedError;
use vstd::prelude::*;

verus! {

/// The types that an actor's unit of work exchanges with its callers.
///
/// `Req` is the input of one operation, `Res` its output and `Err` its failure. A failure can
/// always say that the actor was already closed.
pub trait Context: Sized + Send + 'static {
    type Req: Sync + Send + 'static;

    type Res: Sync + Send + 'static;

    type Err: Sync + Send + 'static + From<ClosedError> + core::fmt::Debug;
}

/// A unit of work whose operations block the thread that runs them.
///
/// The two relations say what an implementation promises of its own operations. An
/// implementation that promises nothing keeps the defaults, which hold of every outcome; one
/// that is verified may replace them by what its bodies ensure. Everything that this library
/// proves of an actor's answers is stated over these relations.
pub trait SyncContext: Context {
    /// Whether `exec` may take the state `pre` to the state `post` on `req` and return `out`.
    open spec fn exec_spec(
        pre: Self,
        req: Self::Req,
        post: Self,
        out: Result<Self::Res, Self::Err>,
    ) -> bool {
        true
    }

    /// Whether `close` may return `out` when it consumes the state `pre`.
    open spec fn close_spec(pre: Self, out: Result<(), Self::Err>) -> bool {
        true
    }

    /// Performs one operation on the state.
    fn exec(&mut self, req: Self::Req) -> (out: Result<Self::Res, Self::Err>)
        ensures
            Self::exec_spec(*old(self), req, *final(self), out),
    ;

    /// Finalizes the state, which is gone afterwards.
    fn close(self) -> (out: Result<(), Self::Err>)
        ensures
            Self::close_spec(self, out),
    ;
}

/// A unit of work whose operations suspend the task that runs them.
///
/// Each operation hands back a future; the task that owns the state awaits it before it
/// starts the next one. The two relations say what an implementation promises of the start
/// of its operations; the defaults promise nothing.
pub trait AsyncContext: Context {
    type ExecFuture: core::future::Future<Output = Result<Self::Res, Self::Err>> + Send;

    type CloseFuture: core::future::Future<Output = Result<(), Self::Err>> + Send;

    /// Whether `exec` may take the state `pre` to the state `post` on `req` and hand back
    /// `pending`.
    open spec fn exec_spec(pre: Self, req: Self::Req, post: Self, pending: Self::ExecFuture) -> bool {
        true
    }

    /// Whether `close` may hand back `pending` when it consumes the state `pre`.
    open spec fn close_spec(pre: Self, pending: Self::CloseFuture) -> bool {
        true
    }

    /// Starts one operation on the state.
    fn exec(&mut self, req: Self::Req) -> (pending: Self::ExecFuture)
        ensures
            Self::exec_spec(*old(self), req, *final(self), pending),
    ;

    /// Starts to finalize the state, which is gone afterwards.
    fn close(self) -> (pending: Self::CloseFuture)
        ensures
            Self::close_spec(self, pending),
    ;
}

/// A state that is created by a suspending computation.
pub trait AsyncInitContext: Context {
    type Init: Send + 'static;

    type InitFuture: core::future::Future<Output = Result<Self, Self::Err>>;

    fn init(init: Self::Init) -> Self::InitFuture;
}

/// A state whose creation blocks, and is therefore handed to a thread that may block.
pub trait SyncInitContext: Context {
    type Init: Send + 'static;

    fn init(init: Self::Init) -> (out: Result<Self, Self::Err>);
}

/// A state whose creation is cheap enough to run where the actor is created.
pub trait SimpleInitContext: Context {
    type Init;

    fn init(init: Self::Init) -> (out: Result<Self, Self::Err>);
}

} // verus!
