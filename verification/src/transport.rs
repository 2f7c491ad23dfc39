use vstd::prelude::*;

verus! {

/// The producer side of an `async_channel` queue. Nothing of its state is visible to proofs.
#[verifier::external_type_specification]
#[verifier::external_body]
#[verifier::reject_recursive_types(T)]
pub struct ExQueueSender<T>(async_channel::Sender<T>);

/// The consumer side of an `async_channel` queue. Nothing of its state is visible to proofs.
#[verifier::external_type_specification]
#[verifier::external_body]
#[verifier::reject_recursive_types(T)]
pub struct ExQueueReceiver<T>(async_channel::Receiver<T>);

/// The writing end of a `oneshot` cell. Nothing of its state is visible to proofs.
#[verifier::external_type_specification]
#[verifier::external_body]
#[verifier::reject_recursive_types(T)]
pub struct ExCellSender<T>(oneshot::Sender<T>);

/// The reading end of a `oneshot` cell. Nothing of its state is visible to proofs.
#[verifier::external_type_specification]
#[verifier::external_body]
#[verifier::reject_recursive_types(T)]
pub struct ExCellReceiver<T>(oneshot::Receiver<T>);

/// What a look into a queue finds without waiting.
pub enum Polled<T> {
    /// The item at the head of the queue, which has left it.
    Item(T),
    /// Nothing is queued, and the queue is still open.
    Empty,
    /// Nothing is queued, and nothing will be: the queue is closed.
    Closed,
}

/// Calls `async_channel::unbounded`, which makes a queue without a limit and hands back its
/// two sides. Nothing is claimed of them.
#[verifier::external_body]
pub(crate) fn queue<T>() -> (ends: (async_channel::Sender<T>, async_channel::Receiver<T>)) {
    async_channel::unbounded()
}

/// Calls `async_channel::Sender::try_send`, which never waits. It fails where the queue is
/// closed (a queue without a limit is never full), and the failure carries the item that was
/// offered: this is all that the contract claims.
#[verifier::external_body]
pub(crate) fn offer<T>(tx: &async_channel::Sender<T>, item: T) -> (r: Result<(), T>)
    ensures
        r matches Err(back) ==> back == item,
{
    match tx.try_send(item) {
        Ok(()) => Ok(()),
        Err(e) => Err(e.into_inner()),
    }
}

/// Calls `async_channel::Receiver::recv_blocking`, which waits on the calling thread until
/// an item is queued, or until the queue is closed and empty, which gives `None`. Nothing
/// is claimed of the item.
#[verifier::external_body]
pub(crate) fn take_blocking<T>(rx: &async_channel::Receiver<T>) -> (r: Option<T>) {
    rx.recv_blocking().ok()
}

/// Calls `async_channel::Receiver::try_recv`, which never waits, and tells its three
/// outcomes apart. Nothing is claimed of which one comes.
#[verifier::external_body]
pub(crate) fn take_now<T>(rx: &async_channel::Receiver<T>) -> (r: Polled<T>) {
    match rx.try_recv() {
        Ok(item) => Polled::Item(item),
        Err(async_channel::TryRecvError::Empty) => Polled::Empty,
        Err(async_channel::TryRecvError::Closed) => Polled::Closed,
    }
}

/// Calls `async_channel::Receiver::close`, after which no offer to the queue succeeds; what
/// is queued stays. The result says whether this call closed the queue.
#[verifier::external_body]
pub(crate) fn shut<T>(rx: &async_channel::Receiver<T>) -> (first: bool) {
    rx.close()
}

/// Calls `async_channel::Receiver::len`, the number of items queued at the time of the
/// call. Nothing is claimed of it: other threads offer and take meanwhile.
#[verifier::external_body]
pub(crate) fn queued<T>(rx: &async_channel::Receiver<T>) -> (n: usize) {
    rx.len()
}

/// Calls `async_channel::Sender::receiver_count`, the number of consumer sides alive at the
/// time of the call. Nothing is claimed of it.
#[verifier::external_body]
pub(crate) fn consumers<T>(tx: &async_channel::Sender<T>) -> (n: usize) {
    tx.receiver_count()
}

/// Calls `clone` on an `async_channel::Sender`: one more producer side of the same queue.
/// (The outside code ends the process where more than `usize::MAX / 2` producer sides
/// exist at once.)
#[verifier::external_body]
pub(crate) fn another_sender<T>(tx: &async_channel::Sender<T>) -> (r: async_channel::Sender<T>) {
    tx.clone()
}

/// Calls `clone` on an `async_channel::Receiver`: one more consumer side of the same queue.
/// (The outside code ends the process where more than `usize::MAX / 2` consumer sides
/// exist at once.)
#[verifier::external_body]
pub(crate) fn another_receiver<T>(rx: &async_channel::Receiver<T>) -> (r:
    async_channel::Receiver<T>) {
    rx.clone()
}

/// Calls `oneshot::channel`, which makes a cell for a single value and hands back its two
/// ends. Nothing is claimed of them.
#[verifier::external_body]
pub(crate) fn cell<T>() -> (ends: (oneshot::Sender<T>, oneshot::Receiver<T>)) {
    oneshot::channel()
}

/// Calls `oneshot::Sender::send`, which never waits. It fails where the reading end is
/// gone, and the failure carries the value that was to be written: this is all that the
/// contract claims.
#[verifier::external_body]
pub(crate) fn put<T>(tx: oneshot::Sender<T>, value: T) -> (r: Result<(), T>)
    ensures
        r matches Err(back) ==> back == value,
{
    match tx.send(value) {
        Ok(()) => Ok(()),
        Err(e) => Err(e.into_inner()),
    }
}

/// Calls `oneshot::Receiver::recv`, which waits on the calling thread until the value is
/// written, or until the writing end is gone without one, which gives `None`. Nothing is
/// claimed of the value.
#[verifier::external_body]
pub(crate) fn get_blocking<T>(rx: oneshot::Receiver<T>) -> (r: Option<T>) {
    rx.recv().ok()
}

} // verus!
