use actor::{
    channel, sync_actor, Actor, ClosedError, Context, Flow, Handle, Mailbox, SyncContext,
};
use std::sync::atomic::{AtomicBool, AtomicUsize, Ordering};
use std::sync::Arc;
use std::time::{Duration, Instant};

struct Probe {
    n: u64,
    executing: Arc<AtomicBool>,
    overlapped: Arc<AtomicBool>,
    closes: Arc<AtomicUsize>,
}

#[derive(Clone, Default)]
struct Gauges {
    executing: Arc<AtomicBool>,
    overlapped: Arc<AtomicBool>,
    closes: Arc<AtomicUsize>,
}

#[derive(Debug, PartialEq)]
enum ProbeError {
    Closed,
    Overflow,
}

impl From<ClosedError> for ProbeError {
    fn from(_: ClosedError) -> Self {
        ProbeError::Closed
    }
}

impl Context for Probe {
    type Req = u64;
    type Res = u64;
    type Err = ProbeError;
}

fn pause(millis: u64) {
    let (_held, never) = oneshot::channel::<()>();
    let _ = never.recv_timeout(Duration::from_millis(millis));
}

impl SyncContext for Probe {
    fn exec(&mut self, by: u64) -> Result<u64, ProbeError> {
        if self.executing.swap(true, Ordering::SeqCst) {
            self.overlapped.store(true, Ordering::SeqCst);
        }
        let out = match self.n.checked_add(by) {
            Some(n) => {
                self.n = n;
                Ok(n)
            }
            None => Err(ProbeError::Overflow),
        };
        self.executing.store(false, Ordering::SeqCst);
        out
    }

    fn close(self) -> Result<(), ProbeError> {
        assert_eq!(self.closes.fetch_add(1, Ordering::SeqCst), 0);
        Ok(())
    }
}

fn run_to_end<C: SyncContext>(ctx: C, mailbox: Mailbox<C>) -> Flow<C::Res, C::Err> {
    let mut actor = Actor::new(ctx);
    loop {
        match sync_actor(&mut actor, &mailbox, usize::MAX) {
            Flow::Continue => {}
            end => return end,
        }
    }
}

fn spawn_probe() -> (Handle<Probe>, Gauges, oneshot::Receiver<Flow<u64, ProbeError>>) {
    let gauges = Gauges::default();
    let ctx = Probe {
        n: 0,
        executing: gauges.executing.clone(),
        overlapped: gauges.overlapped.clone(),
        closes: gauges.closes.clone(),
    };
    let (handle, mailbox) = channel::<Probe>();
    let (end_tx, end_rx) = oneshot::channel();
    blocking::unblock(move || {
        let _ = end_tx.send(run_to_end(ctx, mailbox));
    })
    .detach();
    (handle, gauges, end_rx)
}

#[test]
fn counter_answers_in_order() {
    let (handle, _gauges, _end) = spawn_probe();
    assert_eq!(handle.request(1), Ok(1));
    assert_eq!(handle.request(1), Ok(2));
    assert_eq!(handle.clone().request(1), Ok(3));
    assert_eq!(handle.request(u64::MAX), Err(ProbeError::Overflow));
    assert_eq!(handle.request(4), Ok(7));
    for expected in 8..200u64 {
        assert_eq!(handle.request(1), Ok(expected));
    }
}

#[test]
fn request_after_close_is_rejected() {
    let (handle, gauges, end) = spawn_probe();
    let other = handle.clone();
    assert_eq!(handle.request(5), Ok(5));
    assert_eq!(handle.wait_close(), Some(Ok(())));
    assert_eq!(gauges.closes.load(Ordering::SeqCst), 1);
    assert_eq!(other.request(1), Err(ProbeError::Closed));
    assert_eq!(other.clone().request(1), Err(ProbeError::Closed));
    assert_eq!(other.wait_close(), Some(Ok(())));
    assert_eq!(end.recv_timeout(Duration::from_secs(10)), Ok(Flow::Closed));
    assert_eq!(gauges.closes.load(Ordering::SeqCst), 1);
}

#[test]
fn close_runs_once_when_every_handle_closes() {
    let (handle, gauges, end) = spawn_probe();
    let clones: Vec<Handle<Probe>> = (0..8).map(|_| handle.clone()).collect();
    let (done_tx, done_rx) = async_channel::unbounded();
    for clone in clones {
        let done_tx = done_tx.clone();
        blocking::unblock(move || {
            let _ = done_tx.send_blocking(clone.wait_close());
        })
        .detach();
    }
    drop(done_tx);
    for _ in 0..8 {
        assert_eq!(done_rx.recv_blocking(), Ok(Some(Ok(()))));
    }
    assert_eq!(handle.wait_close(), Some(Ok(())));
    assert_eq!(end.recv_timeout(Duration::from_secs(10)), Ok(Flow::Closed));
    assert_eq!(gauges.closes.load(Ordering::SeqCst), 1);
}

#[test]
fn dropping_every_handle_closes_the_actor() {
    let (handle, gauges, end) = spawn_probe();
    let other = handle.clone();
    assert_eq!(other.request(2), Ok(2));
    drop(handle);
    pause(20);
    assert_eq!(gauges.closes.load(Ordering::SeqCst), 0);
    assert_eq!(other.request(2), Ok(4));
    drop(other);
    assert_eq!(end.recv_timeout(Duration::from_secs(10)), Ok(Flow::Finalized(Ok(()))));
    assert_eq!(gauges.closes.load(Ordering::SeqCst), 1);
}

#[test]
fn operations_never_overlap_under_concurrent_callers() {
    let (handle, gauges, end) = spawn_probe();
    let clients = 8u64;
    let calls = 200u64;
    let (done_tx, done_rx) = async_channel::unbounded();
    for _ in 0..clients {
        let handle = handle.clone();
        let done_tx = done_tx.clone();
        blocking::unblock(move || {
            let mut last = 0;
            for _ in 0..calls {
                let now = handle.request(1).expect("the actor is alive");
                assert!(now > last);
                last = now;
            }
            let _ = done_tx.send_blocking(last);
        })
        .detach();
    }
    drop(done_tx);
    let mut highest = 0;
    for _ in 0..clients {
        highest = highest.max(done_rx.recv_blocking().expect("a caller has finished"));
    }
    assert_eq!(highest, clients * calls);
    assert_eq!(handle.request(0), Ok(clients * calls));
    assert!(!gauges.overlapped.load(Ordering::SeqCst));
    drop(handle);
    assert_eq!(end.recv_timeout(Duration::from_secs(10)), Ok(Flow::Finalized(Ok(()))));
    assert_eq!(gauges.closes.load(Ordering::SeqCst), 1);
}

#[test]
fn callers_waiting_at_the_close_are_released() {
    let (handle, gauges, _end) = spawn_probe();
    let (done_tx, done_rx) = async_channel::unbounded();
    for _ in 0..4 {
        let handle = handle.clone();
        let done_tx = done_tx.clone();
        blocking::unblock(move || {
            let mut answered = 0u64;
            loop {
                match handle.request(1) {
                    Ok(_) => answered += 1,
                    Err(err) => {
                        let _ = done_tx.send_blocking((answered, err));
                        return;
                    }
                }
            }
        })
        .detach();
    }
    drop(done_tx);
    pause(20);
    assert_eq!(handle.wait_close(), Some(Ok(())));
    let started = Instant::now();
    for _ in 0..4 {
        let (_, err) = done_rx.recv_blocking().expect("a caller has finished");
        assert_eq!(err, ProbeError::Closed);
    }
    assert!(started.elapsed() < Duration::from_secs(10));
    assert_eq!(gauges.closes.load(Ordering::SeqCst), 1);
}
