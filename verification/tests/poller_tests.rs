use quic_endpoint::poller::{
    poller_step, IdAllocator, PollSignal, PollerAction, PollerState, SPIN_LIMIT,
};

#[test]
fn sentinel_always_exits() {
    for spins in [0u64, 1, SPIN_LIMIT] {
        let st = PollerState { spins };
        let (next, action) = poller_step(st, PollSignal::Sentinel, false);
        assert_eq!(action, PollerAction::Exit);
        assert_eq!(next.spins, 0);
        let (_, action2) = poller_step(st, PollSignal::Sentinel, true);
        assert_eq!(action2, PollerAction::Exit);
    }
}

#[test]
fn wake_with_lock_polls_and_resets_spins() {
    let st = PollerState { spins: 17 };
    let (next, action) = poller_step(st, PollSignal::Wake, true);
    assert_eq!(action, PollerAction::Poll);
    assert_eq!(next.spins, 0);
}

#[test]
fn wake_without_lock_spins_then_backs_off() {
    let mut st = PollerState::new();
    let mut spun: u64 = 0;
    loop {
        let (next, action) = poller_step(st, PollSignal::Wake, false);
        st = next;
        match action {
            PollerAction::SpinRetry => {
                spun += 1;
                assert!(spun <= SPIN_LIMIT);
            }
            PollerAction::YieldRetry => {
                assert_eq!(spun, SPIN_LIMIT);
                assert_eq!(st.spins, 0);
                break;
            }
            other => panic!("unexpected action {:?}", other),
        }
    }
}

#[test]
fn poller_exits_exactly_once_on_sentinel_stream() {
    // A run of wake signals followed by the sentinel: every wake is served
    // without exiting, the sentinel exits, and nothing is served after it.
    let signals = [
        PollSignal::Wake,
        PollSignal::Wake,
        PollSignal::Wake,
        PollSignal::Sentinel,
    ];
    let mut st = PollerState::new();
    let mut exits: usize = 0;
    let mut polls: usize = 0;
    for sig in signals {
        let (next, action) = poller_step(st, sig, true);
        st = next;
        match action {
            PollerAction::Exit => {
                exits += 1;
                break;
            }
            PollerAction::Poll => polls += 1,
            _ => {}
        }
    }
    assert_eq!(exits, 1);
    assert_eq!(polls, 3);
}

#[test]
fn identity_allocator_starts_at_zero_and_increments() {
    let mut ids = IdAllocator::new();
    assert_eq!(ids.next_id(), 0);
    assert_eq!(ids.next_id(), 1);
    assert_eq!(ids.next_id(), 2);
}

#[test]
fn identity_allocator_wraps_after_256_allocations() {
    let mut ids = IdAllocator::new();
    let first = ids.next_id();
    for _ in 0..255 {
        ids.next_id();
    }
    // The 257th identity collides with the first: wrap-around happened.
    let wrapped = ids.next_id();
    assert_eq!(first, 0);
    assert_eq!(wrapped, first);
    let mut again = IdAllocator::new();
    let mut seen = [false; 256];
    for _ in 0..256 {
        let id = again.next_id();
        assert!(!seen[id as usize]);
        seen[id as usize] = true;
    }
    assert_eq!(again.next_id(), 0);
}
