use actor::transport::Polled;
use actor::{
    channel, look, look_after, terminate, turn, Actor, Arrival, CloseHandler, ClosedError,
    Context, Flow, Found, Pending, Request, Response, Signal, Submission, SyncContext,
};
use std::sync::atomic::{AtomicUsize, Ordering};
use std::sync::Arc;
use std::time::Duration;

struct Slow {
    delay: u64,
    finished: Arc<AtomicUsize>,
}

impl Context for Slow {
    type Req = ();
    type Res = ();
    type Err = ClosedError;
}

fn pause(millis: u64) {
    let (_held, never) = oneshot::channel::<()>();
    let _ = never.recv_timeout(Duration::from_millis(millis));
}

impl SyncContext for Slow {
    fn exec(&mut self, _req: ()) -> Result<(), ClosedError> {
        Ok(())
    }

    fn close(self) -> Result<(), ClosedError> {
        pause(self.delay);
        self.finished.fetch_add(1, Ordering::SeqCst);
        Ok(())
    }
}

fn start_members(handler: &CloseHandler, delays: &[u64]) -> Arc<AtomicUsize> {
    let finished = Arc::new(AtomicUsize::new(0));
    for delay in delays {
        let handle = handler.spawn();
        let ctx = Slow { delay: *delay, finished: finished.clone() };
        blocking::unblock(move || {
            let mut owner = Actor::new(ctx);
            let finisher = handle.wait().expect("the coordinator closes the group");
            let end = turn(&mut owner, Arrival::Termination(Some(finisher)));
            assert_eq!(end, Flow::Finalized(Ok(())));
        })
        .detach();
    }
    finished
}

#[test]
fn close_waits_for_every_member() {
    let handler = CloseHandler::new();
    let delays = [5, 80, 20, 45, 1, 60, 30, 10];
    let finished = start_members(&handler, &delays);
    pause(10);
    assert_eq!(finished.load(Ordering::SeqCst), 0);
    assert_eq!(handler.close(), delays.len());
    assert_eq!(finished.load(Ordering::SeqCst), delays.len());
}

#[test]
fn close_of_an_empty_group_returns_at_once() {
    assert_eq!(CloseHandler::new().close(), 0);
}

#[test]
fn close_after_every_member_has_stopped_returns_at_once() {
    let handler = CloseHandler::new();
    let first = handler.spawn();
    let second = handler.spawn();
    assert!(matches!(first.poll(), Signal::Quiet));
    drop(first);
    drop(second);
    assert_eq!(handler.close(), 0);
}

#[test]
fn member_that_stops_by_itself_does_not_hold_the_group() {
    let handler = CloseHandler::new();
    let finished = start_members(&handler, &[15, 25]);
    let leaver = handler.spawn();
    blocking::unblock(move || {
        pause(5);
        drop(leaver);
    })
    .detach();
    let signalled = handler.close();
    assert!(signalled == 2 || signalled == 3);
    assert_eq!(finished.load(Ordering::SeqCst), 2);
}

#[test]
fn member_sees_the_token_and_holds_the_group_by_its_ticket() {
    let handler = CloseHandler::new();
    let member = handler.spawn();
    assert!(matches!(member.poll(), Signal::Quiet));
    let (closed_tx, closed_rx) = oneshot::channel();
    blocking::unblock(move || {
        let _ = closed_tx.send(handler.close());
    })
    .detach();
    let finisher = member.wait().expect("the coordinator closes the group");
    assert!(closed_rx.recv_timeout(Duration::from_millis(50)).is_err());
    drop(member);
    assert!(closed_rx.recv_timeout(Duration::from_millis(50)).is_err());
    drop(finisher);
    assert_eq!(closed_rx.recv_timeout(Duration::from_secs(10)), Ok(1));
}

#[test]
fn member_learns_that_the_coordinator_is_gone() {
    let handler = CloseHandler::new();
    let member = handler.spawn();
    drop(handler);
    assert!(matches!(member.poll(), Signal::Abandoned));
    assert!(member.wait().is_none());
}

struct Echo;

impl Context for Echo {
    type Req = u8;
    type Res = u8;
    type Err = ClosedError;
}

impl SyncContext for Echo {
    fn exec(&mut self, req: u8) -> Result<u8, ClosedError> {
        Ok(req)
    }

    fn close(self) -> Result<(), ClosedError> {
        Ok(())
    }
}

fn pending(submission: Submission<Echo>) -> Pending<Echo> {
    match submission {
        Submission::Accepted(pending) => pending,
        Submission::Refused(_) => panic!("the queue refused a request"),
    }
}

#[test]
fn order_to_terminate_is_found_before_a_queued_request() {
    let handler = CloseHandler::new();
    let member = handler.spawn();
    let (handle, mailbox) = channel::<Echo>();
    assert!(matches!(look(&member, &mailbox), Found::Nothing));
    let waiting = pending(handle.submit(Request::Exec(7)));
    let (closed_tx, closed_rx) = oneshot::channel();
    blocking::unblock(move || {
        let _ = closed_tx.send(handler.close());
    })
    .detach();
    while member.token_rx.is_empty() {
        pause(1);
    }
    let mut owner = Actor::new(Echo);
    let arrival = match look(&member, &mailbox) {
        Found::Work(arrival) => arrival,
        _ => panic!("nothing was found"),
    };
    assert!(matches!(arrival, Arrival::Termination(Some(_))));
    assert_eq!(turn(&mut owner, arrival), Flow::Finalized(Ok(())));
    drop(member);
    assert_eq!(closed_rx.recv_timeout(Duration::from_secs(10)), Ok(1));
    assert_eq!(mailbox.retire(), 1);
    assert_eq!(waiting.wait(), Response::Closed);
}

#[test]
fn queue_is_looked_at_when_no_order_is_there() {
    let handler = CloseHandler::new();
    let member = handler.spawn();
    let (handle, mailbox) = channel::<Echo>();
    let waiting = pending(handle.submit(Request::Exec(7)));
    let mut owner = Actor::new(Echo);
    match look(&member, &mailbox) {
        Found::Work(arrival) => assert_eq!(turn(&mut owner, arrival), Flow::Continue),
        _ => panic!("nothing was found"),
    }
    assert_eq!(waiting.wait(), Response::Value(7));
    drop(handle);
    assert!(matches!(
        look(&member, &mailbox),
        Found::Work(Arrival::Exhausted)
    ));
    drop(handler);
    assert!(matches!(look(&member, &mailbox), Found::Abandoned));
}

#[test]
fn look_at_the_coordinator_is_read() {
    assert!(matches!(Signal::from_polled(Polled::Empty), Signal::Quiet));
    assert!(matches!(Signal::from_polled(Polled::Closed), Signal::Abandoned));
    assert!(Found::<Echo>::from_signal(Signal::Quiet).is_none());
    assert!(matches!(Found::<Echo>::from_signal(Signal::Abandoned), Some(Found::Abandoned)));
    assert!(matches!(Found::<Echo>::from_queue(Polled::Empty), Found::Nothing));
    assert!(matches!(Found::<Echo>::from_queue(Polled::Closed), Found::Work(Arrival::Exhausted)));

    let handler = CloseHandler::new();
    let member = handler.spawn();
    let (closed_tx, closed_rx) = oneshot::channel();
    blocking::unblock(move || {
        let _ = closed_tx.send(handler.close());
    })
    .detach();
    let finisher = member.wait().expect("the coordinator closes the group");
    let signal = Signal::from_polled(Polled::Item(finisher));
    assert!(matches!(signal, Signal::Terminate(_)));
    let found = Found::<Echo>::from_signal(signal);
    assert!(matches!(found, Some(Found::Work(Arrival::Termination(Some(_))))));
    assert!(closed_rx.recv_timeout(Duration::from_millis(50)).is_err());
    drop(found);
    drop(member);
    assert_eq!(closed_rx.recv_timeout(Duration::from_secs(10)), Ok(1));
}

#[test]
fn answers_to_the_offers_are_counted() {
    assert_eq!(CloseHandler::after_offer(0, 3, Ok(())), (1, true));
    assert_eq!(CloseHandler::after_offer(1, 3, Ok(())), (2, true));
    assert_eq!(CloseHandler::after_offer(2, 3, Ok(())), (3, false));
    assert_eq!(CloseHandler::after_offer(0, 1, Ok(())), (1, false));
    assert!(!CloseHandler::waits(0));
    assert!(CloseHandler::waits(1));
    assert!(CloseHandler::waits(usize::MAX));

    let handler = CloseHandler::new();
    let member = handler.spawn();
    let (closed_tx, closed_rx) = oneshot::channel();
    blocking::unblock(move || {
        let _ = closed_tx.send(handler.close());
    })
    .detach();
    let refused = member.wait().expect("the coordinator closes the group");
    drop(member);
    assert!(closed_rx.recv_timeout(Duration::from_millis(50)).is_err());
    assert_eq!(CloseHandler::after_offer(1, 3, Err(refused)), (1, false));
    assert_eq!(closed_rx.recv_timeout(Duration::from_secs(10)), Ok(1));
}

#[test]
fn ticket_comes_back_after_the_finalization() {
    let handler = CloseHandler::new();
    let member = handler.spawn();
    let finished = Arc::new(AtomicUsize::new(0));
    let mut owner = Actor::new(Slow { delay: 1, finished: finished.clone() });
    let (closed_tx, closed_rx) = oneshot::channel();
    blocking::unblock(move || {
        let _ = closed_tx.send(handler.close());
    })
    .detach();
    let finisher = member.wait().expect("the coordinator closes the group");
    drop(member);
    let (flow, held) = terminate(&mut owner, Some(finisher));
    assert_eq!(flow, Flow::Finalized(Ok(())));
    assert_eq!(finished.load(Ordering::SeqCst), 1);
    assert!(held.is_some());
    assert!(closed_rx.recv_timeout(Duration::from_millis(50)).is_err());
    drop(held);
    assert_eq!(closed_rx.recv_timeout(Duration::from_secs(10)), Ok(1));
    let (flow, held) = terminate(&mut owner, None);
    assert_eq!(flow, Flow::Closed);
    assert!(held.is_none());
    assert_eq!(finished.load(Ordering::SeqCst), 1);
}

#[test]
fn look_goes_on_from_what_the_coordinator_showed() {
    let (handle, mailbox) = channel::<Echo>();
    let waiting = pending(handle.submit(Request::Exec(5)));
    assert!(matches!(look_after(Signal::Abandoned, &mailbox), Found::Abandoned));
    match look_after(Signal::Quiet, &mailbox) {
        Found::Work(Arrival::Message(message)) => assert_eq!(message.req, Request::Exec(5)),
        _ => panic!("the queued message was not found"),
    }
    assert!(matches!(look_after(Signal::Quiet, &mailbox), Found::Nothing));
    drop(handle);
    assert!(matches!(look_after(Signal::Quiet, &mailbox), Found::Work(Arrival::Exhausted)));
    assert_eq!(waiting.wait(), Response::Closed);
}
