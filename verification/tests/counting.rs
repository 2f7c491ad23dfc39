use actor::{
    channel, sync_actor, Actor, ClosedError, Counter, CounterError, Flow, Incoming, Outcome,
    Request, Response,
};

#[test]
fn counter_counts_up() {
    let mut owner = Actor::new(Counter::new());
    for expected in 1..=100u64 {
        assert_eq!(
            owner.serve(Incoming::Request(Request::Exec(1))),
            Outcome::Reply(Response::Value(expected))
        );
    }
    assert_eq!(
        owner.serve(Incoming::Request(Request::Exec(400))),
        Outcome::Reply(Response::Value(500))
    );
    assert_eq!(
        owner.serve(Incoming::Request(Request::Exec(0))),
        Outcome::Reply(Response::Value(500))
    );
}

#[test]
fn counter_refuses_what_does_not_fit_and_keeps_its_count() {
    let mut owner = Actor::new(Counter { count: u64::MAX - 1 });
    assert_eq!(
        owner.serve(Incoming::Request(Request::Exec(2))),
        Outcome::Reply(Response::Failure(CounterError::Overflow))
    );
    assert_eq!(
        owner.serve(Incoming::Request(Request::Exec(1))),
        Outcome::Reply(Response::Value(u64::MAX))
    );
    assert_eq!(
        owner.serve(Incoming::Request(Request::Exec(1))),
        Outcome::Reply(Response::Failure(CounterError::Overflow))
    );
    assert_eq!(owner.serve(Incoming::Request(Request::CloseSignal)), Outcome::Reply(Response::Closed));
}

#[test]
fn counter_error_is_built_from_the_closed_error() {
    assert_eq!(CounterError::from(ClosedError), CounterError::Closed);
    let answer: Response<u64, CounterError> = Response::Closed;
    assert_eq!(answer.into_result(), Err(CounterError::Closed));
}

#[test]
fn callers_of_a_counter_get_one_two_three() {
    let (handle, mailbox) = channel::<Counter>();
    let (end_tx, end_rx) = oneshot::channel();
    blocking::unblock(move || {
        let mut owner = Actor::new(Counter::new());
        let end = loop {
            match sync_actor(&mut owner, &mailbox, 16) {
                Flow::Continue => {}
                end => break end,
            }
        };
        let _ = end_tx.send(end);
    })
    .detach();
    for expected in 1..=50u64 {
        assert_eq!(handle.request(1), Ok(expected));
    }
    assert_eq!(handle.request(u64::MAX), Err(CounterError::Overflow));
    assert_eq!(handle.clone().wait_close(), Some(Ok(())));
    assert_eq!(handle.request(1), Err(CounterError::Closed));
    assert_eq!(end_rx.recv(), Ok(Flow::Closed));
}
