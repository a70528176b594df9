use wayland_sources::escrow::{Escrows, Gate};
use wayland_sources::fd::{
    decode_fd_event, fd_event, FdError, FdEvent, FdInterest, EVENT_ERROR, EVENT_HANGUP,
    EVENT_READABLE, EVENT_WRITABLE,
};
use wayland_sources::signal::{signal_event, SignalEvent};
use wayland_sources::source::{IdleSource, Request, Source, TimerEvent};

#[test]
fn readable_alone_is_read_interest() {
    let r = decode_fd_event(3, EVENT_READABLE, None);
    assert_eq!(r, Some(FdEvent::Ready { fd: 3, mask: FdInterest::read() }));
}

#[test]
fn readable_and_writable_is_both_interests() {
    let r = decode_fd_event(4, EVENT_READABLE | EVENT_WRITABLE, None);
    let both = FdInterest::read().union(FdInterest::write());
    assert_eq!(both.bits(), 3);
    assert_eq!(r, Some(FdEvent::Ready { fd: 4, mask: both }));
}

#[test]
fn writable_alone_is_write_interest() {
    let r = decode_fd_event(5, EVENT_WRITABLE, None);
    assert_eq!(r, Some(FdEvent::Ready { fd: 5, mask: FdInterest::write() }));
}

#[test]
fn no_bits_is_empty_readiness() {
    let r = decode_fd_event(5, 0, None);
    assert_eq!(r, Some(FdEvent::Ready { fd: 5, mask: FdInterest::empty() }));
}

#[test]
fn error_bit_outranks_everything() {
    for mask in 0u32..16 {
        let r = decode_fd_event(7, mask | EVENT_ERROR, Some(104));
        assert_eq!(r, Some(FdEvent::Error { fd: 7, error: FdError::Os(104) }));
    }
}

#[test]
fn error_bit_with_failed_query_gives_nothing() {
    assert_eq!(decode_fd_event(7, EVENT_ERROR | EVENT_READABLE, None), None);
}

#[test]
fn hangup_alone_is_connection_aborted() {
    let r = decode_fd_event(8, EVENT_HANGUP, Some(5));
    assert_eq!(r, Some(FdEvent::Error { fd: 8, error: FdError::ConnectionAborted }));
    let r = decode_fd_event(8, EVENT_HANGUP | EVENT_READABLE | EVENT_WRITABLE, None);
    assert_eq!(r, Some(FdEvent::Error { fd: 8, error: FdError::ConnectionAborted }));
}

#[test]
fn fd_event_without_error_bit_needs_no_query() {
    assert_eq!(
        fd_event(-1, EVENT_READABLE),
        Some(FdEvent::Ready { fd: -1, mask: FdInterest::read() })
    );
}

#[test]
fn fd_event_on_bad_descriptor_fails_its_query() {
    assert_eq!(fd_event(-1, EVENT_ERROR), None);
}

#[test]
fn known_signal_resolves_to_its_number() {
    assert_eq!(signal_event(2), Some(SignalEvent(2)));
    assert_eq!(signal_event(15), Some(SignalEvent(15)));
}

#[test]
fn unknown_signal_does_not_resolve() {
    assert_eq!(signal_event(0), None);
    assert_eq!(signal_event(-3), None);
    assert_eq!(signal_event(100000), None);
}

#[test]
fn escrow_reuses_the_first_free_slot() {
    let mut t: Escrows<u32> = Escrows::new();
    assert_eq!(t.escrow(10, Gate::Always), 0);
    assert_eq!(t.escrow(11, Gate::Always), 1);
    assert_eq!(t.escrow(12, Gate::Always), 2);
    let s: Source<FdEvent, u64> = Source::make(77, 1);
    assert_eq!(s.remove(&mut t), (11, Request::Unregister(77)));
    assert_eq!(t.escrow(13, Gate::Always), 1);
    assert_eq!(t.escrow(14, Gate::Always), 3);
}

#[test]
fn fd_source_dispatches_until_removed() {
    let mut t: Escrows<&str> = Escrows::new();
    let slot = t.escrow("fd handler", Gate::Always);
    let s: Source<FdEvent, u64> = Source::make(5, slot);
    for _ in 0..3 {
        let h = t.checkout(slot);
        assert_eq!(h, Some("fd handler"));
        assert!(t.is_lent(slot));
        assert_eq!(t.checkout(slot), None);
        t.checkin(slot, h.unwrap());
        assert!(t.holds(slot));
    }
    assert_eq!(s.remove(&mut t), ("fd handler", Request::Unregister(5)));
    assert!(!t.holds(slot));
    assert_eq!(t.checkout(slot), None);
}

#[test]
fn signal_source_remove_returns_handler() {
    let mut t: Escrows<u8> = Escrows::new();
    let slot = t.escrow(9, Gate::Always);
    let s: Source<SignalEvent, u64> = Source::make(21, slot);
    assert_eq!(s.slot_index(), slot);
    assert_eq!(s.remove(&mut t), (9, Request::Unregister(21)));
    assert_eq!(t.checkout(slot), None);
}

#[test]
fn update_mask_asks_for_the_new_interest() {
    let mut t: Escrows<u8> = Escrows::new();
    let slot = t.escrow(1, Gate::Always);
    let mut s: Source<FdEvent, u64> = Source::make(33, slot);
    let both = FdInterest::read().union(FdInterest::write());
    assert_eq!(s.update_mask(both, &t), Some(Request::UpdateFdMask(33, 3)));
    assert_eq!(s.update_mask(FdInterest::write(), &t), Some(Request::UpdateFdMask(33, 2)));
    assert_eq!(s.remove(&mut t), (1, Request::Unregister(33)));
}

#[test]
fn update_mask_on_a_removed_source_is_refused() {
    let mut t: Escrows<u8> = Escrows::new();
    let slot = t.escrow(1, Gate::Always);
    let s: Source<FdEvent, u64> = Source::make(33, slot);
    let mut stale: Source<FdEvent, u64> = Source::make(33, slot);
    let _ = s.remove(&mut t);
    assert!(t.is_free(slot));
    assert_eq!(stale.update_mask(FdInterest::read(), &t), None);
}

#[test]
fn gate_follows_the_registration() {
    let mut t: Escrows<u8> = Escrows::new();
    let slot = t.escrow(2, Gate::Idle { dispatched: false });
    assert_eq!(t.gate_at(slot), Some(Gate::Idle { dispatched: false }));
    let h = t.checkout(slot).unwrap();
    assert_eq!(t.gate_at(slot), Some(Gate::Idle { dispatched: true }));
    t.checkin(slot, h);
    assert_eq!(t.gate_at(slot), Some(Gate::Idle { dispatched: true }));
    assert_eq!(t.gate_at(slot + 1), None);
}

#[test]
fn timer_fires_once_per_arming() {
    let mut t: Escrows<u8> = Escrows::new();
    let slot = t.escrow(4, Gate::Timer { armed: false });
    let mut s: Source<TimerEvent, u64> = Source::make(12, slot);
    assert_eq!(t.checkout(slot), None);
    assert_eq!(s.set_delay_ms(50, &mut t), Some(Request::UpdateTimerDelay(12, 50)));
    let h = t.checkout(slot).unwrap();
    t.checkin(slot, h);
    assert_eq!(t.checkout(slot), None);
    assert_eq!(s.remove(&mut t), (4, Request::Unregister(12)));
}

#[test]
fn zero_delay_suppresses_dispatch_until_rearmed() {
    let mut t: Escrows<u8> = Escrows::new();
    let slot = t.escrow(4, Gate::Timer { armed: false });
    let mut s: Source<TimerEvent, u64> = Source::make(12, slot);
    assert_eq!(s.set_delay_ms(10, &mut t), Some(Request::UpdateTimerDelay(12, 10)));
    assert_eq!(s.set_delay_ms(0, &mut t), Some(Request::UpdateTimerDelay(12, 0)));
    assert_eq!(t.checkout(slot), None);
    assert_eq!(t.checkout(slot), None);
    assert_eq!(s.set_delay_ms(5, &mut t), Some(Request::UpdateTimerDelay(12, 5)));
    assert_eq!(t.checkout(slot), Some(4));
}

#[test]
fn timer_rearmed_from_its_own_handler() {
    let mut t: Escrows<u8> = Escrows::new();
    let slot = t.escrow(6, Gate::Timer { armed: true });
    let mut s: Source<TimerEvent, u64> = Source::make(3, slot);
    let h = t.checkout(slot).unwrap();
    assert_eq!(s.set_delay_ms(20, &mut t), Some(Request::UpdateTimerDelay(3, 20)));
    t.checkin(slot, h);
    assert_eq!(t.checkout(slot), Some(6));
}

#[test]
fn set_delay_on_a_removed_timer_is_refused() {
    let mut t: Escrows<u8> = Escrows::new();
    let slot = t.escrow(6, Gate::Timer { armed: false });
    let s: Source<TimerEvent, u64> = Source::make(3, slot);
    let mut stale: Source<TimerEvent, u64> = Source::make(3, slot);
    let _ = s.remove(&mut t);
    assert_eq!(stale.set_delay_ms(10, &mut t), None);
    let other = t.escrow(8, Gate::Always);
    assert_eq!(other, slot);
    assert_eq!(stale.set_delay_ms(10, &mut t), None);
    assert_eq!(t.checkout(other), Some(8));
}

#[test]
fn idle_removed_before_any_cycle() {
    let mut t: Escrows<&str> = Escrows::new();
    let slot = t.escrow("H", Gate::Idle { dispatched: false });
    let s: IdleSource<u64> = IdleSource::make(40, slot);
    let (h, req) = s.remove(&mut t);
    assert_eq!(h, "H");
    assert_eq!(req, Some(Request::Unregister(40)));
    assert_eq!(t.checkout(slot), None);
}

#[test]
fn idle_removed_after_one_cycle() {
    let mut t: Escrows<&str> = Escrows::new();
    let slot = t.escrow("H", Gate::Idle { dispatched: false });
    let s: IdleSource<u64> = IdleSource::make(41, slot);
    let h = t.checkout(slot).unwrap();
    t.checkin(slot, h);
    let (h, req) = s.remove(&mut t);
    assert_eq!(h, "H");
    assert_eq!(req, None);
}

#[test]
fn idle_never_dispatched_twice() {
    let mut t: Escrows<&str> = Escrows::new();
    let slot = t.escrow("H", Gate::Idle { dispatched: false });
    let h = t.checkout(slot).unwrap();
    assert_eq!(t.checkout(slot), None);
    t.checkin(slot, h);
    for _ in 0..3 {
        assert_eq!(t.checkout(slot), None);
    }
    assert!(t.holds(slot));
}
