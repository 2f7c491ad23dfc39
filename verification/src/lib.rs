//! An actor turns a state that one owner holds into a service for many callers: requests
//! go through handles into a queue, one loop takes them out in their order, performs one
//! operation at a time on the state, and answers each caller through a cell of its own.
//! The loop finalizes the state exactly once, when a caller asks for it, when every handle
//! is gone, or when the coordinator of its group says so.
//!
//! The library decides every turn of such a loop and proves what the turns add up to; the
//! waiting is left to the queue and the cells, and the thread or task to whoever runs the
//! loop.

pub mod actor;
pub mod async_actor;
pub mod close;
pub mod context;
pub mod counter;
pub mod error;
pub mod handle;
pub mod laws;
pub mod message;
pub mod protocol;
pub mod sync_actor;
pub mod transport;
pub mod turn;

pub use crate::actor::Actor;
pub use crate::async_actor::{AsyncActor, Owed, Phase, Started};
pub use crate::close::{CloseFinisher, CloseHandle, CloseHandler, Signal};
pub use crate::context::{
    AsyncContext, AsyncInitContext, Context, SimpleInitContext, SyncContext, SyncInitContext,
};
pub use crate::counter::{Counter, CounterError};
pub use crate::error::ClosedError;
pub use crate::handle::{channel, Handle, Mailbox, Message, Pending, Submission};
pub use crate::message::{Request, Response};
pub use crate::protocol::{Incoming, Outcome, Step};
pub use crate::sync_actor::{serve_next, sync_actor, terminate, turn};
pub use crate::turn::{deliver, look, look_after, Arrival, Duty, Flow, Found};
