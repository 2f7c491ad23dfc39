use crate::context::{Context, SyncContext};
use crate::error::ClosedError;
use crate::laws::{answer_by, computes, law_answers_in_order, state_by};
use crate::message::{Request, Response};
use crate::protocol::{is_run, state_after, Incoming, Outcome, Step};
use vstd::prelude::*;
use vstd::std_specs::convert::FromSpecImpl;

verus! {

/// Why a counter gives no new count.
#[derive(Clone, Copy, Debug, PartialEq, Eq, Structural)]
pub enum CounterError {
    /// The counter's actor had stopped.
    Closed,
    /// The new count would not fit.
    Overflow,
}

impl From<ClosedError> for CounterError {
    fn from(closed: ClosedError) -> (r: Self) {
        CounterError::Closed
    }
}

impl FromSpecImpl<ClosedError> for CounterError {
    open spec fn obeys_from_spec() -> bool {
        true
    }

    open spec fn from_spec(closed: ClosedError) -> Self {
        CounterError::Closed
    }
}

/// A count that an actor keeps for its callers: each request adds to it and is answered
/// with the new count. It is the smallest state whose operations are a function, and so
/// one to which the laws on the order of answers apply as they stand.
pub struct Counter {
    pub count: u64,
}

impl Counter {
    /// What adding `by` makes of the counter, and what the caller is told: the new count,
    /// or `Overflow` where it does not fit, and then the count stays.
    pub open spec fn add(self, by: u64) -> (Counter, Result<u64, CounterError>) {
        if self.count + by <= u64::MAX {
            (Counter { count: (self.count + by) as u64 }, Ok((self.count + by) as u64))
        } else {
            (self, Err(CounterError::Overflow))
        }
    }

    /// A counter at zero.
    pub fn new() -> (counter: Self)
        ensures
            counter == (Counter { count: 0 }),
    {
        Counter { count: 0 }
    }
}

impl Context for Counter {
    type Req = u64;

    type Res = u64;

    type Err = CounterError;
}

impl SyncContext for Counter {
    open spec fn exec_spec(pre: Self, req: u64, post: Self, out: Result<u64, CounterError>) -> bool {
        (post, out) == pre.add(req)
    }

    open spec fn close_spec(pre: Self, out: Result<(), CounterError>) -> bool {
        out is Ok
    }

    fn exec(&mut self, req: u64) -> (out: Result<u64, CounterError>) {
        if req <= u64::MAX - self.count {
            self.count = self.count + req;
            Ok(self.count)
        } else {
            Err(CounterError::Overflow)
        }
    }

    fn close(self) -> (out: Result<(), CounterError>) {
        Ok(())
    }
}

/// The function that the operations of a counter are.
pub open spec fn adding() -> spec_fn(Counter, u64) -> (Counter, Result<u64, CounterError>) {
    |counter: Counter, by: u64| counter.add(by)
}

/// `n` requests to add one.
pub open spec fn ones(n: nat) -> Seq<u64> {
    Seq::new(n, |i: int| 1u64)
}

/// The operations of a counter are the function `adding`.
pub proof fn law_counter_computes()
    ensures
        computes::<Counter>(adding()),
{
}

/// A counter that started at zero and was asked `n` times to add one stands at `n`.
pub proof fn lemma_count_after_ones(n: nat)
    requires
        n <= u64::MAX,
    ensures
        state_by::<Counter>(adding(), Counter { count: 0 }, ones(n)) == (Counter {
            count: n as u64,
        }),
    decreases n,
{
    if n > 0 {
        lemma_count_after_ones((n - 1) as nat);
        assert(ones(n).drop_last() == ones((n - 1) as nat));
    }
}

/// The actor of a counter that starts at zero answers successive requests to add one with
/// 1, 2, 3 and so on, each caller getting the count that its own request made.
pub proof fn law_counter_counts(steps: Seq<Step<Counter>>)
    requires
        is_run(Counter { count: 0 }, steps),
        steps.len() <= u64::MAX,
        forall|i: int|
            0 <= i < steps.len() ==> (#[trigger] steps[i]).incoming == Incoming::Request(
                Request::Exec(1u64),
            ),
    ensures
        forall|i: int|
            0 <= i < steps.len() ==> (#[trigger] steps[i]).outcome == Outcome::<
                u64,
                CounterError,
            >::Reply(Response::Value((i + 1) as u64)),
        state_after(Counter { count: 0 }, steps) == Some(Counter { count: steps.len() as u64 }),
{
    let origin = Counter { count: 0 };
    let reqs = ones(steps.len());
    law_counter_computes();
    law_answers_in_order::<Counter>(adding(), origin, steps, reqs);
    lemma_count_after_ones(steps.len());
    assert forall|i: int| 0 <= i < steps.len() implies (#[trigger] steps[i]).outcome == Outcome::<
        u64,
        CounterError,
    >::Reply(Response::Value((i + 1) as u64)) by {
        lemma_count_after_ones(i as nat);
        assert(reqs.take(i) == ones(i as nat));
        assert(steps[i].outcome == Outcome::Reply(answer_by::<Counter>(adding(), origin, reqs, i)));
    }
}

} // verus!
