use lib_shared::boxed::{lock_flag, lock_mask, max_size, LockWord, WaitPolicy};

#[test]
fn lock_word_readers_come_and_go() {
    let w = LockWord::unlocked();
    let one = w.read_acquired().unwrap();
    assert_eq!(one.bits, 1);
    let two = one.read_acquired().unwrap();
    assert_eq!(two.bits, 2);
    assert_eq!(two.read_released(), one);
    assert_eq!(one.read_released(), w);
}

#[test]
fn lock_word_writer_excludes_readers() {
    let w = LockWord::unlocked();
    let held = w.write_taken().unwrap();
    assert_eq!(held.bits, max_size());
    assert_eq!(held.read_acquired(), None);
    assert_eq!(held.write_taken(), None);
    assert!(!held.writer_announces());
    assert_eq!(held.write_released(), w);
}

#[test]
fn lock_word_waiting_writer_blocks_new_readers() {
    let reader = LockWord { bits: 1 };
    assert_eq!(reader.write_taken(), None);
    assert!(reader.writer_announces());
    let waiting = reader.with_pending();
    assert_eq!(waiting.bits, lock_flag() + 1);
    assert_eq!(waiting.read_acquired(), None);
    assert_eq!(waiting.write_claimed(), None);
    let drained = waiting.read_released();
    assert_eq!(drained.bits, lock_flag());
    let claimed = drained.write_claimed().unwrap();
    assert_eq!(claimed.bits, lock_mask());
    let held = claimed.without_pending();
    assert_eq!(held.bits, max_size());
    assert_eq!(held.write_released().bits, 0);
}

#[test]
fn lock_word_pending_round_trip() {
    let w = LockWord { bits: 3 };
    assert_eq!(w.with_pending().without_pending(), w);
    assert_eq!(w.with_pending().with_pending(), w.with_pending());
    assert_eq!(w.without_pending(), w);
}

#[test]
fn wait_policy_without_limit_waits_500ms_for_ever() {
    let mut p = WaitPolicy::new(None);
    assert_eq!(p.wait_ms, 500);
    assert!(!p.deadline_set());
    assert!(p.before_wait(1_000_000));
    assert_eq!(p.wait_ms, 500);
    assert!(!p.expired_after_wait(true, 1_000_000));
}

#[test]
fn wait_policy_with_limit_waits_until_the_deadline() {
    let mut p = WaitPolicy::new(Some(100));
    assert!(p.deadline_set());
    assert_eq!(p.wait_ms, 100);
    assert!(p.before_wait(30));
    assert_eq!(p.wait_ms, 70);
    assert!(!p.expired_after_wait(false, 60));
    assert!(p.expired_after_wait(true, 60));
    assert!(p.expired_after_wait(false, 100));
    assert!(!p.before_wait(100));
    assert_eq!(p.wait_ms, 70);
}

#[test]
fn wait_policy_non_positive_limit_is_no_deadline() {
    let mut p = WaitPolicy::new(Some(0));
    assert!(!p.deadline_set());
    assert_eq!(p.wait_ms, 0);
    assert!(p.before_wait(5));
    let q = WaitPolicy::new(Some(-1));
    assert_eq!(q.wait_ms, u64::MAX);
    assert!(!q.expired_after_wait(true, 0));
}

use lib_shared::boxed::{AcquireAction, AcquireEvent, ReadAcquire, ReadPhase, WriteAcquire, WritePhase};

#[test]
fn reader_gets_into_a_free_box_at_once() {
    let (mut r, a) = ReadAcquire::start(None);
    assert_eq!(a, AcquireAction::Load);
    assert_eq!(r.step(AcquireEvent::Loaded(0)), AcquireAction::Swap(0, 1));
    assert_eq!(r.step(AcquireEvent::Swapped(true, 0)), AcquireAction::Acquired);
    assert_eq!(r.phase, ReadPhase::Finished);
}

#[test]
fn reader_retries_once_then_spins_then_waits_until_the_deadline() {
    let (mut r, _) = ReadAcquire::start(Some(100));
    assert_eq!(r.step(AcquireEvent::Loaded(max_size())), AcquireAction::Load);
    assert_eq!(r.step(AcquireEvent::Loaded(max_size())), AcquireAction::CheckBackoff);
    assert_eq!(r.step(AcquireEvent::BackoffCompleted(false)), AcquireAction::Snooze);
    assert_eq!(r.step(AcquireEvent::Done), AcquireAction::Load);
    assert_eq!(r.step(AcquireEvent::Loaded(lock_flag())), AcquireAction::CheckBackoff);
    assert_eq!(r.step(AcquireEvent::BackoffCompleted(true)), AcquireAction::ReadClock);
    assert_eq!(r.step(AcquireEvent::Clock(40)), AcquireAction::Wait(60));
    assert_eq!(r.step(AcquireEvent::Woke(false)), AcquireAction::Load);
    assert_eq!(r.step(AcquireEvent::Loaded(1)), AcquireAction::Swap(1, 2));
    assert_eq!(r.step(AcquireEvent::Swapped(false, 3)), AcquireAction::CheckBackoff);
    assert_eq!(r.step(AcquireEvent::BackoffCompleted(true)), AcquireAction::ReadClock);
    assert_eq!(r.step(AcquireEvent::Clock(100)), AcquireAction::GiveUp(None));
}

#[test]
fn reader_without_deadline_never_gives_up() {
    let (mut r, _) = ReadAcquire::start(None);
    r.step(AcquireEvent::Loaded(max_size()));
    r.step(AcquireEvent::Loaded(max_size()));
    r.step(AcquireEvent::BackoffCompleted(true));
    assert_eq!(r.step(AcquireEvent::Clock(1_000_000)), AcquireAction::Wait(500));
    assert_eq!(r.step(AcquireEvent::Woke(true)), AcquireAction::Load);
}

#[test]
fn writer_takes_a_free_box_at_once() {
    let (mut w, a) = WriteAcquire::start(Some(10));
    assert_eq!(a, AcquireAction::Swap(0, max_size()));
    assert_eq!(w.step(AcquireEvent::Swapped(true, 0)), AcquireAction::Acquired);
    assert_eq!(w.phase, WritePhase::Finished);
}

#[test]
fn writer_announces_waits_for_readers_and_withdraws() {
    let (mut w, _) = WriteAcquire::start(None);
    assert_eq!(w.step(AcquireEvent::Swapped(false, 2)), AcquireAction::Announce);
    assert_eq!(w.step(AcquireEvent::Done), AcquireAction::Load);
    assert_eq!(w.step(AcquireEvent::Loaded(lock_flag() + 2)), AcquireAction::Swap(lock_flag(), lock_mask()));
    assert_eq!(w.step(AcquireEvent::Swapped(false, lock_flag() + 2)), AcquireAction::CheckBackoff);
    assert_eq!(w.step(AcquireEvent::BackoffCompleted(true)), AcquireAction::ReadClock);
    assert_eq!(w.step(AcquireEvent::Clock(10)), AcquireAction::Wait(500));
    assert_eq!(w.step(AcquireEvent::Woke(true)), AcquireAction::ReadClock);
    assert_eq!(w.step(AcquireEvent::Clock(6000)), AcquireAction::ReportStall(6000, lock_flag() + 2));
    assert!(w.stall_reported);
    assert_eq!(w.step(AcquireEvent::Done), AcquireAction::Load);
    assert_eq!(w.step(AcquireEvent::Loaded(2)), AcquireAction::Announce);
    assert_eq!(w.step(AcquireEvent::Done), AcquireAction::Swap(lock_flag(), lock_mask()));
    assert_eq!(w.step(AcquireEvent::Swapped(false, lock_flag())), AcquireAction::CheckBackoff);
    assert_eq!(w.step(AcquireEvent::BackoffCompleted(true)), AcquireAction::ReadClock);
    assert_eq!(w.step(AcquireEvent::Clock(7000)), AcquireAction::Wait(500));
    assert_eq!(w.step(AcquireEvent::Woke(false)), AcquireAction::ReadClock);
    assert_eq!(w.step(AcquireEvent::Clock(7100)), AcquireAction::Load);
    assert_eq!(w.step(AcquireEvent::Loaded(lock_flag())), AcquireAction::Swap(lock_flag(), lock_mask()));
    assert_eq!(w.step(AcquireEvent::Swapped(true, lock_flag())), AcquireAction::Withdraw);
    assert_eq!(w.step(AcquireEvent::Done), AcquireAction::Acquired);
}

#[test]
fn writer_gives_up_at_the_deadline_after_withdrawing() {
    let (mut w, _) = WriteAcquire::start(Some(50));
    w.step(AcquireEvent::Swapped(false, 1));
    w.step(AcquireEvent::Done);
    w.step(AcquireEvent::Loaded(lock_flag() + 1));
    w.step(AcquireEvent::Swapped(false, lock_flag() + 1));
    w.step(AcquireEvent::BackoffCompleted(true));
    assert_eq!(w.step(AcquireEvent::Clock(20)), AcquireAction::Wait(30));
    assert_eq!(w.step(AcquireEvent::Woke(true)), AcquireAction::ReadClock);
    assert_eq!(w.step(AcquireEvent::Clock(51)), AcquireAction::Withdraw);
    assert_eq!(w.step(AcquireEvent::Done), AcquireAction::GiveUp(Some(51)));
    assert!(!w.expects(&AcquireEvent::Done));
}

/// Performs `action` on `word` as a thread alone with the box would, the
/// spinning always over, every wait running out and the clock at `clock`.
fn perform_alone(word: &mut u64, action: AcquireAction, clock: u128) -> AcquireEvent {
    match action {
        AcquireAction::Load => AcquireEvent::Loaded(*word),
        AcquireAction::Swap(x, y) => {
            let seen = *word;
            let ok = seen == x;
            if ok {
                *word = y;
            }
            AcquireEvent::Swapped(ok, seen)
        }
        AcquireAction::Announce => {
            *word = LockWord { bits: *word }.with_pending().bits;
            AcquireEvent::Done
        }
        AcquireAction::Withdraw => {
            *word = LockWord { bits: *word }.without_pending().bits;
            AcquireEvent::Done
        }
        AcquireAction::Snooze | AcquireAction::ReportStall(_, _) => AcquireEvent::Done,
        AcquireAction::CheckBackoff => AcquireEvent::BackoffCompleted(true),
        AcquireAction::ReadClock => AcquireEvent::Clock(clock),
        AcquireAction::Wait(_) => AcquireEvent::Woke(true),
        AcquireAction::Acquired | AcquireAction::GiveUp(_) => panic!("the acquisition is over"),
    }
}

#[test]
fn acquisitions_start_from_a_clean_state() {
    let (r, _) = ReadAcquire::start(Some(7));
    assert_eq!(r.phase, ReadPhase::Loading);
    assert!(r.first);
    assert_eq!(r.waited_at, 0);
    assert_eq!(r.policy.time_out, Some(7));
    assert_eq!(r.policy.wait_ms, 7);
    let (w, _) = WriteAcquire::start(None);
    assert_eq!(w.phase, WritePhase::FastSwap);
    assert!(!w.timed_out);
    assert_eq!(w.last_seen, 0);
    assert!(!w.stall_reported);
    assert_eq!(w.policy.wait_ms, 500);
}

#[test]
fn reader_facing_a_held_box_gives_up_and_leaves_the_word() {
    for start_word in [max_size(), lock_flag() + 2, lock_mask()] {
        let mut word = start_word;
        let (mut r, mut a) = ReadAcquire::start(Some(30));
        let mut clock: u128 = 0;
        let mut steps = 0;
        while a != AcquireAction::Acquired && !matches!(a, AcquireAction::GiveUp(_)) {
            let e = perform_alone(&mut word, a, clock);
            assert!(r.expects(&e));
            a = r.step(e);
            clock += 5;
            steps += 1;
            assert!(steps < 1000);
        }
        assert_eq!(a, AcquireAction::GiveUp(None));
        assert_eq!(word, start_word);
    }
}

#[test]
fn writer_facing_an_occupied_box_gives_up_and_leaves_the_word() {
    for occupied in [max_size(), 1, 3] {
        let mut word = occupied;
        let (mut w, mut a) = WriteAcquire::start(Some(30));
        let mut clock: u128 = 0;
        let mut steps = 0;
        let mut saw_announcement = false;
        while a != AcquireAction::Acquired && !matches!(a, AcquireAction::GiveUp(_)) {
            let e = perform_alone(&mut word, a, clock);
            assert!(w.expects(&e));
            assert!(word == occupied || word == occupied + lock_flag());
            saw_announcement |= word == occupied + lock_flag();
            a = w.step(e);
            clock += 5;
            steps += 1;
            assert!(steps < 1000);
        }
        assert!(saw_announcement);
        assert!(matches!(a, AcquireAction::GiveUp(_)));
        assert_eq!(word, occupied);
    }
}

#[test]
fn acquisitions_alone_with_a_free_box_get_in_at_once() {
    let mut word = 2;
    let (mut r, a) = ReadAcquire::start(Some(1));
    let e = perform_alone(&mut word, a, 0);
    let a = r.step(e);
    let e = perform_alone(&mut word, a, 0);
    assert_eq!(r.step(e), AcquireAction::Acquired);
    assert_eq!(word, 3);
    let mut free = 0;
    let (mut w, b) = WriteAcquire::start(None);
    let e = perform_alone(&mut free, b, 0);
    assert_eq!(w.step(e), AcquireAction::Acquired);
    assert_eq!(free, max_size());
}

#[test]
fn acquisitions_without_a_limit_keep_waiting_on_a_held_box() {
    for time_out in [None, Some(0), Some(-5)] {
        let mut word = max_size();
        let (mut r, mut a) = ReadAcquire::start(time_out);
        for clock in 0..300u128 {
            let e = perform_alone(&mut word, a, clock * 1000);
            a = r.step(e);
            assert!(a != AcquireAction::Acquired && !matches!(a, AcquireAction::GiveUp(_)));
        }
        let (mut w, mut b) = WriteAcquire::start(time_out);
        for clock in 0..300u128 {
            let e = perform_alone(&mut word, b, clock * 1000);
            b = w.step(e);
            assert!(b != AcquireAction::Acquired && !matches!(b, AcquireAction::GiveUp(_)));
        }
        assert!(word == max_size() || word == lock_mask());
    }
}

#[test]
fn lock_word_layout_follows_the_pointer_width() {
    if usize::BITS == 64 {
        assert_eq!(max_size(), 0x1_0000_0000_0000);
        assert_eq!(lock_flag(), 0x4_0000_0000_0000);
    } else {
        assert_eq!(max_size(), 0x1000_0000);
        assert_eq!(lock_flag(), 0x4000_0000);
    }
    assert_eq!(lock_mask(), lock_flag() | max_size());
    assert_eq!(LockWord { bits: max_size() - 1 }.read_acquired(), Some(LockWord { bits: max_size() }));
    assert_eq!(LockWord { bits: max_size() }.read_acquired(), None);
}
