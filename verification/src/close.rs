use crate::transport::{
    another_receiver, another_sender, consumers, offer, queue, take_blocking, take_now, Polled,
};
use vstd::prelude::*;

verus! {

/// The ticket that a member of a group holds from the moment it is told to terminate until
/// it has finalized its state. The member acknowledges by letting the ticket go; the
/// coordinator's `close` does not return while a ticket is held anywhere.
pub struct CloseFinisher {
    ticket: async_channel::Sender<()>,
}

/// A member's view of its group's coordinator: a consumer side of the queue of termination
/// tokens.
pub struct CloseHandle {
    pub token_rx: async_channel::Receiver<CloseFinisher>,
}

/// What a member finds when it looks for a termination token without waiting.
pub enum Signal {
    /// The coordinator closes the group. The member finalizes its state and then lets the
    /// ticket go.
    Terminate(CloseFinisher),
    /// No token is there, and the coordinator is still alive.
    Quiet,
    /// No token is there, and none will come: the coordinator is gone without having closed
    /// the group.
    Abandoned,
}

/// The coordinator of a group of actors: it tells every member that is still alive to
/// terminate, and waits until each of them has finalized its state.
pub struct CloseHandler {
    token_tx: async_channel::Sender<CloseFinisher>,
    token_rx: async_channel::Receiver<CloseFinisher>,
}

/// Lets a value go, here and now.
fn let_go<T>(gone: T) {
}

impl CloseHandle {
    /// Looks for a termination token without waiting. What the coordinator's queue shows is
    /// read by [`Signal::from_polled`].
    pub fn poll(&self) -> (signal: Signal) {
        Signal::from_polled(take_now(&self.token_rx))
    }

    /// Waits on the calling thread for a termination token. `None` means that the
    /// coordinator is gone without having closed the group.
    pub fn wait(&self) -> (finisher: Option<CloseFinisher>) {
        take_blocking(&self.token_rx)
    }
}

impl CloseHandler {
    /// Makes the coordinator of a new group, which has no member yet.
    pub fn new() -> (handler: Self) {
        let (token_tx, token_rx) = queue::<CloseFinisher>();
        CloseHandler { token_tx, token_rx }
    }

    /// Makes the handle for one more member of the group. The member's loop keeps it until
    /// the member has finalized its state.
    pub fn spawn(&self) -> (handle: CloseHandle) {
        CloseHandle { token_rx: another_receiver(&self.token_rx) }
    }

    /// What one answer of the queue to the offer of a token makes of the coordinator's
    /// count: `signalled` tokens were taken before, of `members` that are owed one, and `ok`
    /// says whether the queue took this one. The result is the new count, and whether
    /// another token is to be offered: not after a refusal, which means that no member is
    /// left, and not once every member has its token.
    pub open spec fn after_offer_spec(signalled: nat, members: nat, ok: bool) -> (nat, bool) {
        if ok {
            ((signalled + 1) as nat, signalled + 1 < members)
        } else {
            (signalled, false)
        }
    }

    /// How far the offers `offers`, answered in this order, bring a coordinator that owes
    /// `members` tokens: the number of tokens taken, and whether another is to be offered.
    /// Answers that come after the offering has stopped count for nothing.
    pub open spec fn progress(members: nat, offers: Seq<bool>) -> (nat, bool)
        decreases offers.len(),
    {
        if offers.len() == 0 {
            (0, 0 < members)
        } else {
            let before = Self::progress(members, offers.drop_last());
            if before.1 {
                Self::after_offer_spec(before.0, members, offers.last())
            } else {
                before
            }
        }
    }

    /// Reads the queue's answer to the offer of one token.
    pub fn after_offer(signalled: usize, members: usize, offered: Result<(), CloseFinisher>) -> (next:
        (usize, bool))
        requires
            signalled < members,
        ensures
            next.0 == signalled + (if offered is Ok {
                1int
            } else {
                0int
            }),
            next.1 == (offered is Ok && signalled + 1 < members),
            (next.0 as nat, next.1) == Self::after_offer_spec(
                signalled as nat,
                members as nat,
                offered is Ok,
            ),
    {
        match offered {
            Ok(_) => (signalled + 1, signalled + 1 < members),
            Err(_) => (signalled, false),
        }
    }

    /// Whether the coordinator has to wait for tickets: only where a token was taken.
    /// Where none was, every member has already stopped by itself.
    pub fn waits(signalled: usize) -> (wait: bool)
        ensures
            wait == (signalled > 0),
    {
        signalled > 0
    }

    /// Closes the group: queues a termination token for every member that is still alive,
    /// and waits on the calling thread until every ticket has been let go, which each member
    /// does after it has finalized its state. The result is the number of tokens that the
    /// queue took.
    ///
    /// Where the queue takes none, every member has already stopped by itself, and the call
    /// returns at once with 0.
    ///
    /// How many members are alive and which offers the queue takes is their affair.
    /// Whatever it is, the offering goes as [`CloseHandler::progress`] says, to its end:
    /// one token after the other, until one is refused or every member has one; and the
    /// call waits where [`CloseHandler::waits`] says so.
    pub fn close(self) -> (signalled: usize)
        ensures
            exists|members: nat, offers: Seq<bool>| #[trigger]
                Self::progress(members, offers) == (signalled as nat, false),
    {
        let CloseHandler { token_tx, token_rx } = self;
        // Without a consumer side of its own, the coordinator's offer fails exactly when
        // no member is left.
        let_go(token_rx);
        let (ticket, released) = queue::<()>();
        let members = consumers(&token_tx);
        let mut signalled: usize = 0;
        let mut going = 0 < members;
        let ghost mut offers: Seq<bool> = Seq::empty();
        while going
            invariant
                signalled <= members,
                going ==> signalled < members,
                Self::progress(members as nat, offers) == (signalled as nat, going),
            decreases 2 * (members - signalled) + (if going { 1int } else { 0int }),
        {
            let offered = offer(&token_tx, CloseFinisher { ticket: another_sender(&ticket) });
            let ghost ok = offered is Ok;
            let next = Self::after_offer(signalled, members, offered);
            proof {
                assert(offers.push(ok).drop_last() == offers);
                offers = offers.push(ok);
            }
            signalled = next.0;
            going = next.1;
        }
        let_go(token_tx);
        let_go(ticket);
        if Self::waits(signalled) {
            // Nothing is ever sent through the tickets: the wait ends when the last of
            // them is gone.
            let _ = take_blocking(&released);
        }
        signalled
    }
}

impl Signal {
    /// What a look into the coordinator's queue means to a member.
    pub open spec fn of_polled(polled: Polled<CloseFinisher>) -> Self {
        match polled {
            Polled::Item(finisher) => Signal::Terminate(finisher),
            Polled::Empty => Signal::Quiet,
            Polled::Closed => Signal::Abandoned,
        }
    }

    /// Reads a look into the coordinator's queue: a token is the order to terminate, with
    /// its ticket; an empty queue is quiet while the coordinator lives, and closed once the
    /// coordinator is gone.
    pub fn from_polled(polled: Polled<CloseFinisher>) -> (signal: Self)
        ensures
            signal == Self::of_polled(polled),
    {
        match polled {
            Polled::Item(finisher) => Signal::Terminate(finisher),
            Polled::Empty => Signal::Quiet,
            Polled::Closed => Signal::Abandoned,
        }
    }
}

} // verus!
