//! The background poller's decision procedure. One poller runs per endpoint;
//! it turns signals from the endpoint's connections into poll passes, using a
//! bounded spin/back-off strategy when the endpoint is locked elsewhere, and
//! exits exactly on the reserved termination sentinel.
use vstd::prelude::*;

verus! {

/// How many consecutive would-block lock attempts the poller spins through
/// before backing off to a yielding retry.
pub const SPIN_LIMIT: u64 = 64;

/// A signal delivered to the poller over its signal channel. `Wake` asks for
/// a poll pass; `Sentinel` is the reserved termination value sent exactly
/// once, when the endpoint handle is released.
#[derive(Clone, Copy, PartialEq, Eq, Structural, Debug)]
pub enum PollSignal {
    Wake,
    Sentinel,
}

/// What the poller does next. `Poll` drives the endpoint; `SpinRetry`
/// re-attempts the lock at once; `YieldRetry` backs off briefly before the
/// next attempt; `Exit` ends the poller.
#[derive(Clone, Copy, PartialEq, Eq, Structural, Debug)]
pub enum PollerAction {
    Poll,
    SpinRetry,
    YieldRetry,
    Exit,
}

/// The poller's private state: how many consecutive would-block lock
/// attempts it has spun through for the signal it is serving.
#[derive(Clone, Copy, PartialEq, Eq, Structural, Debug)]
pub struct PollerState {
    pub spins: u64,
}

impl PollerState {
    /// Bounded spinning: the spin counter never passes the limit.
    pub open spec fn wf(self) -> bool {
        self.spins <= SPIN_LIMIT
    }

    /// The state a poller starts in.
    pub fn new() -> (r: PollerState)
        ensures
            r == (PollerState { spins: 0 }),
            r.wf(),
    {
        PollerState { spins: 0 }
    }
}

/// The decision the poller takes in state `st` when serving `sig`, given
/// whether its attempt to take the endpoint's exclusive access succeeded.
pub open spec fn spec_poller_step(st: PollerState, sig: PollSignal, lock_acquired: bool) -> (
    PollerState,
    PollerAction,
) {
    match sig {
        PollSignal::Sentinel => (PollerState { spins: 0 }, PollerAction::Exit),
        PollSignal::Wake => if lock_acquired {
            (PollerState { spins: 0 }, PollerAction::Poll)
        } else if st.spins < SPIN_LIMIT {
            (PollerState { spins: (st.spins + 1) as u64 }, PollerAction::SpinRetry)
        } else {
            (PollerState { spins: 0 }, PollerAction::YieldRetry)
        },
    }
}

/// One decision step of the poller: serve `sig` given the outcome of the
/// lock attempt. The caller performs the returned action and, for the two
/// retry actions, calls again with the same signal.
pub fn poller_step(st: PollerState, sig: PollSignal, lock_acquired: bool) -> (r: (
    PollerState,
    PollerAction,
))
    requires
        st.wf(),
    ensures
        r == spec_poller_step(st, sig, lock_acquired),
        r.0.wf(),
{
    match sig {
        PollSignal::Sentinel => (PollerState { spins: 0 }, PollerAction::Exit),
        PollSignal::Wake => {
            if lock_acquired {
                (PollerState { spins: 0 }, PollerAction::Poll)
            } else if st.spins < SPIN_LIMIT {
                (PollerState { spins: st.spins + 1 }, PollerAction::SpinRetry)
            } else {
                (PollerState { spins: 0 }, PollerAction::YieldRetry)
            }
        },
    }
}

/// The poller exits exactly on the sentinel: a sentinel always yields
/// `Exit`, and no wake signal ever does. Releasing the endpoint handle sends
/// the sentinel once, so the poller ends exactly once and no background
/// worker leaks.
pub proof fn lemma_exit_iff_sentinel(st: PollerState, sig: PollSignal, lock_acquired: bool)
    ensures
        spec_poller_step(st, sig, lock_acquired).1 == PollerAction::Exit <==> sig
            == PollSignal::Sentinel,
{
}

/// A wake signal is never dropped: it either drives a poll pass at once or
/// keeps the poller retrying for the same signal; the poller never goes back
/// to waiting with the signal unserved. With every retry bounded by
/// `SPIN_LIMIT` consecutive spins, simultaneous wake signals from many
/// connections are each followed by a poll pass once the lock is free.
pub proof fn lemma_wake_not_dropped(st: PollerState, lock_acquired: bool)
    ensures
        ({
            let action = spec_poller_step(st, PollSignal::Wake, lock_acquired).1;
            action == PollerAction::Poll || action == PollerAction::SpinRetry || action
                == PollerAction::YieldRetry
        }),
        lock_acquired ==> spec_poller_step(st, PollSignal::Wake, lock_acquired).1
            == PollerAction::Poll,
{
}

/// Spinning is bounded: from any well-formed state, a run of consecutive
/// failed lock attempts spins at most `SPIN_LIMIT` times before the poller
/// backs off with `YieldRetry`, so a held lock never turns into a hard spin.
pub proof fn lemma_spin_bounded(st: PollerState)
    requires
        st.wf(),
    ensures
        spec_poller_step(st, PollSignal::Wake, false).0.wf(),
        st.spins == SPIN_LIMIT ==> spec_poller_step(st, PollSignal::Wake, false).1
            == PollerAction::YieldRetry,
{
}

/// An endpoint identity allocator: identities are handed out one after the
/// other from zero and wrap on overflow, so collisions are possible once
/// more than 256 identities have been drawn.
pub struct IdAllocator {
    next: u8,
}

impl IdAllocator {
    /// Spec view: the identity the next allocation returns.
    pub closed spec fn view(&self) -> u8 {
        self.next
    }

    /// A fresh allocator starts at zero.
    pub fn new() -> (r: IdAllocator)
        ensures
            r@ == 0u8,
    {
        IdAllocator { next: 0 }
    }

    /// Draws the next identity: returns the current counter and advances it,
    /// wrapping on overflow.
    pub fn next_id(&mut self) -> (id: u8)
        ensures
            id == old(self)@,
            old(self)@ < 255 ==> final(self)@ == old(self)@ + 1,
            old(self)@ == 255 ==> final(self)@ == 0u8,
    {
        let id = self.next;
        self.next = if self.next == 255 {
            0
        } else {
            self.next + 1
        };
        id
    }
}

} // verus!
