//! The lock protocol behind the shared, mutable boxes.
//!
//! A box guards its value with one atomic word. The word counts the readers
//! in its low bits, marks an exclusive holder with [`max_size`] and a writer
//! that waits for the readers to leave with [`lock_flag`]; both bits sit
//! higher on machines whose `usize` has 64 bits. Every change that a thread
//! makes to the word is one of the transitions of [`LockWord`]; the waits
//! between attempts follow [`WaitPolicy`].
use vstd::prelude::*;

verus! {

/// Upper bound of the reader count; as a bit of the word, the exclusive
/// holder: `0x1_0000_0000_0000` where `usize` has 64 bits, `0x1000_0000`
/// elsewhere.
pub open spec fn spec_max_size() -> u64 {
    if usize::BITS == 64 {
        0x1_0000_0000_0000
    } else {
        0x1000_0000
    }
}

/// Bit of the word that marks a writer waiting for the readers to leave:
/// `0x4_0000_0000_0000` where `usize` has 64 bits, `0x4000_0000` elsewhere.
pub open spec fn spec_lock_flag() -> u64 {
    if usize::BITS == 64 {
        0x4_0000_0000_0000
    } else {
        0x4000_0000
    }
}

/// A waiting writer that holds the lock: `lock_flag() | max_size()`.
pub open spec fn spec_lock_mask() -> u64 {
    if usize::BITS == 64 {
        0x5_0000_0000_0000
    } else {
        0x5000_0000
    }
}

/// Upper bound of the reader count; as a bit of the word, the exclusive holder.
#[verifier::when_used_as_spec(spec_max_size)]
pub fn max_size() -> (r: u64)
    ensures
        r == spec_max_size(),
{
    if usize::BITS == 64 {
        0x1_0000_0000_0000
    } else {
        0x1000_0000
    }
}

/// Bit of the word that marks a writer waiting for the readers to leave.
#[verifier::when_used_as_spec(spec_lock_flag)]
pub fn lock_flag() -> (r: u64)
    ensures
        r == spec_lock_flag(),
{
    if usize::BITS == 64 {
        0x4_0000_0000_0000
    } else {
        0x4000_0000
    }
}

/// A waiting writer that holds the lock: `lock_flag() | max_size()`.
#[verifier::when_used_as_spec(spec_lock_mask)]
pub fn lock_mask() -> (r: u64)
    ensures
        r == spec_lock_mask(),
{
    if usize::BITS == 64 {
        0x5_0000_0000_0000
    } else {
        0x5000_0000
    }
}

/// One value of the lock word.
#[derive(Clone, Copy, Debug, PartialEq, Eq, Structural)]
pub struct LockWord {
    pub bits: u64,
}

impl LockWord {
    /// Number of readers inside.
    pub open spec fn readers(self) -> nat {
        if usize::BITS == 64 {
            (self.bits % 0x1_0000_0000_0000) as nat
        } else {
            (self.bits % 0x1000_0000) as nat
        }
    }

    /// A writer holds the value.
    pub open spec fn write_held(self) -> bool {
        if usize::BITS == 64 {
            (self.bits / 0x1_0000_0000_0000) % 2 == 1
        } else {
            (self.bits / 0x1000_0000) % 2 == 1
        }
    }

    /// A writer waits for the readers to leave.
    pub open spec fn write_pending(self) -> bool {
        if usize::BITS == 64 {
            (self.bits / 0x4_0000_0000_0000) % 2 == 1
        } else {
            (self.bits / 0x4000_0000) % 2 == 1
        }
    }

    /// Only the reader count, the holder bit and the waiting bit are set, and
    /// no reader is inside while a writer holds the value.
    pub open spec fn wf(self) -> bool {
        &&& self.bits < 2 * lock_flag()
        &&& if usize::BITS == 64 {
            (self.bits / 0x1_0000_0000_0000) % 4 < 2
        } else {
            (self.bits / 0x1000_0000) % 4 < 2
        }
        &&& self.write_held() ==> self.readers() == 0
    }

    /// The word after a reader got in, if one may.
    pub open spec fn spec_read_acquired(self) -> Option<LockWord> {
        if self.bits < max_size() {
            Some(LockWord { bits: (self.bits + 1) as u64 })
        } else {
            None
        }
    }

    /// The word after a reader left.
    pub open spec fn spec_read_released(self) -> LockWord {
        LockWord { bits: (self.bits - 1) as u64 }
    }

    /// The word after a writer took a free lock at once, if it was free.
    pub open spec fn spec_write_taken(self) -> Option<LockWord> {
        if self.bits == 0 {
            Some(LockWord { bits: max_size() })
        } else {
            None
        }
    }

    /// The word after a waiting writer took the lock, if nobody else is inside.
    pub open spec fn spec_write_claimed(self) -> Option<LockWord> {
        if self.bits == lock_flag() {
            Some(LockWord { bits: lock_mask() })
        } else {
            None
        }
    }

    /// The word with the waiting bit set.
    pub open spec fn spec_with_pending(self) -> LockWord {
        LockWord { bits: if self.write_pending() { self.bits } else { (self.bits + lock_flag()) as u64 } }
    }

    /// The word with the waiting bit cleared.
    pub open spec fn spec_without_pending(self) -> LockWord {
        LockWord { bits: if self.write_pending() { (self.bits - lock_flag()) as u64 } else { self.bits } }
    }

    /// The word after the writer left.
    pub open spec fn spec_write_released(self) -> LockWord {
        LockWord { bits: (self.bits - max_size()) as u64 }
    }

    /// A word with nobody inside and nobody waiting.
    pub fn unlocked() -> (w: LockWord)
        ensures
            w.bits == 0,
            w.wf(),
            w.readers() == 0,
            !w.write_held(),
            !w.write_pending(),
    {
        LockWord { bits: 0 }
    }

    /// The word that a reader installs to get in: one reader more, as long as
    /// no writer holds the value or waits for it.
    pub fn read_acquired(&self) -> (r: Option<LockWord>)
        ensures
            r == self.spec_read_acquired(),
            self.wf() ==> (r is Some <==> !self.write_held() && !self.write_pending()),
            r matches Some(n) ==> n.readers() == self.readers() + 1 || n.bits == max_size(),
    {
        if self.bits < max_size() {
            Some(LockWord { bits: self.bits + 1 })
        } else {
            None
        }
    }

    /// The word that a leaving reader leaves behind.
    pub fn read_released(&self) -> (r: LockWord)
        requires
            self.readers() >= 1,
        ensures
            r == self.spec_read_released(),
            r.readers() + 1 == self.readers(),
            r.write_held() == self.write_held(),
            r.write_pending() == self.write_pending(),
    {
        LockWord { bits: self.bits - 1 }
    }

    /// The word that a writer installs when it finds the lock free.
    pub fn write_taken(&self) -> (r: Option<LockWord>)
        ensures
            r == self.spec_write_taken(),
            r matches Some(n) ==> n.wf() && n.write_held() && n.readers() == 0 && !n.write_pending(),
    {
        if self.bits == 0 {
            Some(LockWord { bits: max_size() })
        } else {
            None
        }
    }

    /// Whether a waiting writer (re)announces itself: only while no other
    /// writer holds the value and none is marked as waiting.
    pub fn writer_announces(&self) -> (r: bool)
        ensures
            r == (self.bits < max_size()),
            self.wf() ==> (r <==> !self.write_held() && !self.write_pending()),
    {
        self.bits < max_size()
    }

    /// The word with the waiting bit set.
    pub fn with_pending(&self) -> (r: LockWord)
        requires
            self.bits < 2 * lock_flag(),
        ensures
            r.bits == self.bits | lock_flag(),
            r == self.spec_with_pending(),
            r.write_pending(),
            r.readers() == self.readers(),
            r.write_held() == self.write_held(),
            self.wf() ==> r.wf(),
    {
        let b = self.bits;
        let flag = lock_flag();
        if usize::BITS == 64 {
            assert(b < 0x8_0000_0000_0000u64 ==> (b | 0x4_0000_0000_0000u64) == (if (b / 0x4_0000_0000_0000u64) % 2
                == 1 {
                b
            } else {
                (b + 0x4_0000_0000_0000u64) as u64
            })) by (bit_vector);
        } else {
            assert(b < 0x8000_0000u64 ==> (b | 0x4000_0000u64) == (if (b / 0x4000_0000u64) % 2 == 1 {
                b
            } else {
                (b + 0x4000_0000u64) as u64
            })) by (bit_vector);
        }
        LockWord { bits: b | flag }
    }

    /// The word with the waiting bit cleared.
    pub fn without_pending(&self) -> (r: LockWord)
        requires
            self.bits < 2 * lock_flag(),
        ensures
            r.bits == self.bits & !lock_flag(),
            r == self.spec_without_pending(),
            !r.write_pending(),
            r.readers() == self.readers(),
            r.write_held() == self.write_held(),
            self.wf() ==> r.wf(),
    {
        let b = self.bits;
        let flag = lock_flag();
        if usize::BITS == 64 {
            assert(b < 0x8_0000_0000_0000u64 ==> (b & !0x4_0000_0000_0000u64) == (if (b / 0x4_0000_0000_0000u64)
                % 2 == 1 {
                (b - 0x4_0000_0000_0000u64) as u64
            } else {
                b
            })) by (bit_vector);
        } else {
            assert(b < 0x8000_0000u64 ==> (b & !0x4000_0000u64) == (if (b / 0x4000_0000u64) % 2 == 1 {
                (b - 0x4000_0000u64) as u64
            } else {
                b
            })) by (bit_vector);
        }
        LockWord { bits: b & !flag }
    }

    /// The word that a waiting writer installs to take the lock: it succeeds
    /// only when no reader is inside, nobody holds the lock and it waits.
    pub fn write_claimed(&self) -> (r: Option<LockWord>)
        ensures
            r == self.spec_write_claimed(),
            r matches Some(n) ==> n.wf() && n.write_held() && n.write_pending() && n.readers() == 0,
            self.wf() ==> (r is Some <==> self.readers() == 0 && !self.write_held() && self.write_pending()),
    {
        if self.bits == lock_flag() {
            Some(LockWord { bits: lock_mask() })
        } else {
            None
        }
    }

    /// The word that a leaving writer leaves behind.
    pub fn write_released(&self) -> (r: LockWord)
        requires
            self.write_held(),
        ensures
            r == self.spec_write_released(),
            !r.write_held(),
            r.readers() == self.readers(),
            r.write_pending() == self.write_pending(),
            self.wf() ==> r.wf(),
    {
        LockWord { bits: self.bits - max_size() }
    }
}

/// Every transition keeps the word well formed: in particular no reader is
/// ever inside while a writer holds the value. A reader gets in only while
/// fewer than `max_size() - 1` readers are inside.
pub proof fn law_transitions_keep_wf(w: LockWord)
    requires
        w.wf(),
    ensures
        w.readers() + 1 < max_size() ==> (w.spec_read_acquired() matches Some(n) ==> n.wf()),
        w.readers() >= 1 ==> w.spec_read_released().wf(),
        w.spec_write_taken() matches Some(n) ==> n.wf(),
        w.spec_write_claimed() matches Some(n) ==> n.wf(),
        w.spec_with_pending().wf(),
        w.spec_without_pending().wf(),
        w.write_held() ==> w.spec_write_released().wf(),
{
}

/// A reader never gets in while a writer holds the value or waits for it,
/// and a writer never takes the lock while a reader is inside.
pub proof fn law_mutual_exclusion(w: LockWord)
    requires
        w.wf(),
    ensures
        w.write_held() || w.write_pending() ==> w.spec_read_acquired() is None,
        w.readers() > 0 ==> w.spec_write_taken() is None && w.spec_write_claimed() is None,
        w.write_held() ==> w.spec_write_taken() is None && w.spec_write_claimed() is None,
{
}

/// A reader that gets in and leaves restores the word.
pub proof fn law_read_round_trip(w: LockWord)
    ensures
        w.spec_read_acquired() matches Some(n) ==> n.spec_read_released() == w,
{
}

/// A writer that takes the lock, by the fast path or after waiting, and
/// leaves again leaves the lock free.
pub proof fn law_write_round_trip(w: LockWord)
    ensures
        w.spec_write_taken() matches Some(n) ==> n.spec_write_released().bits == 0,
        w.spec_write_claimed() matches Some(n) ==> n.spec_without_pending().spec_write_released().bits
            == 0,
{
}

/// Announcing a waiting writer and withdrawing it restores the word.
pub proof fn law_pending_round_trip(w: LockWord)
    requires
        w.wf(),
        !w.write_pending(),
    ensures
        w.spec_with_pending().spec_without_pending() == w,
{
}

/// When a blocked acquisition waits, for how long, and when it gives up.
///
/// `time_out` is the caller's limit in milliseconds; only a positive limit is
/// a deadline. Without a deadline every wait lasts `time_out` milliseconds
/// (500 when none was given) and the acquisition waits for ever.
#[derive(Clone, Copy, Debug)]
pub struct WaitPolicy {
    pub time_out: Option<i64>,
    pub wait_ms: u64,
}

impl WaitPolicy {
    /// The caller gave a positive limit.
    pub open spec fn has_deadline(self) -> bool {
        self.time_out matches Some(t) && t > 0
    }

    /// The limit, in milliseconds.
    pub open spec fn deadline(self) -> int {
        match self.time_out {
            Some(t) => t as int,
            None => 0,
        }
    }

    /// Whether to wait, and the policy for that wait, `elapsed` milliseconds
    /// after the first attempt.
    pub open spec fn spec_before_wait(self, elapsed: u128) -> (bool, WaitPolicy) {
        if self.has_deadline() {
            if self.deadline() > elapsed {
                (true, WaitPolicy { time_out: self.time_out, wait_ms: (self.deadline() - elapsed) as u64 })
            } else {
                (false, self)
            }
        } else {
            (true, self)
        }
    }

    /// Whether the acquisition gives up after a wait.
    pub open spec fn spec_expired(self, timed_out: bool, elapsed: u128) -> bool {
        self.has_deadline() && (timed_out || self.deadline() <= elapsed)
    }

    /// The wait that an acquisition starts with.
    pub open spec fn initial_wait(time_out: Option<i64>) -> u64 {
        match time_out {
            Some(t) => t as u64,
            None => 500,
        }
    }

    /// The policy for a caller's limit.
    pub open spec fn spec_new(time_out: Option<i64>) -> WaitPolicy {
        WaitPolicy { time_out, wait_ms: Self::initial_wait(time_out) }
    }

    /// The policy for a caller's limit.
    pub fn new(time_out: Option<i64>) -> (p: WaitPolicy)
        ensures
            p == Self::spec_new(time_out),
            p.time_out == time_out,
            p.wait_ms == Self::initial_wait(time_out),
            p.has_deadline() == (time_out matches Some(t) && t > 0),
    {
        let wait_ms: u64 = match time_out {
            Some(t) => t as u64,
            None => 500,
        };
        WaitPolicy { time_out, wait_ms }
    }

    /// Whether a positive limit was given.
    pub fn deadline_set(&self) -> (r: bool)
        ensures
            r == self.has_deadline(),
    {
        match self.time_out {
            Some(t) => t > 0,
            None => false,
        }
    }

    /// Called before a wait, `elapsed` milliseconds after the first attempt.
    /// With a deadline still ahead, the next wait lasts exactly until the
    /// deadline; with the deadline reached the acquisition gives up (`false`).
    /// Without a deadline nothing changes.
    pub fn before_wait(&mut self, elapsed: u128) -> (go: bool)
        ensures
            final(self).time_out == old(self).time_out,
            old(self).has_deadline() && old(self).deadline() > elapsed ==> go && final(self).wait_ms
                == old(self).deadline() - elapsed,
            old(self).has_deadline() && old(self).deadline() <= elapsed ==> !go && final(self).wait_ms
                == old(self).wait_ms,
            !old(self).has_deadline() ==> go && final(self).wait_ms == old(self).wait_ms,
            go ==> (old(self).has_deadline() ==> elapsed + final(self).wait_ms == old(self).deadline()),
            (go, *final(self)) == old(self).spec_before_wait(elapsed),
    {
        match self.time_out {
            Some(t) => {
                if t > 0 {
                    let limit: u128 = t as u128;
                    if limit > elapsed {
                        self.wait_ms = (limit - elapsed) as u64;
                        true
                    } else {
                        false
                    }
                } else {
                    true
                }
            },
            None => true,
        }
    }

    /// Called after a wait: with a deadline, the acquisition gives up when the
    /// wait ran out or `elapsed` has reached the deadline.
    pub fn expired_after_wait(&self, timed_out: bool, elapsed: u128) -> (r: bool)
        ensures
            r == (self.has_deadline() && (timed_out || self.deadline() <= elapsed)),
            r == self.spec_expired(timed_out, elapsed),
    {
        match self.time_out {
            Some(t) => t > 0 && (timed_out || t as u128 <= elapsed),
            None => false,
        }
    }
}

/// What a thread that acquires a box learns from its last action.
#[derive(Clone, Copy, Debug, PartialEq, Eq, Structural)]
pub enum AcquireEvent {
    /// The lock word read.
    Loaded(u64),
    /// Whether the compare-exchange succeeded, and the word it found.
    Swapped(bool, u64),
    /// The action is done.
    Done,
    /// Whether the spinning is over.
    BackoffCompleted(bool),
    /// Milliseconds since the first attempt.
    Clock(u128),
    /// Whether the wait ran out.
    Woke(bool),
}

/// What a thread that acquires a box does next.
#[derive(Clone, Copy, Debug, PartialEq, Eq, Structural)]
pub enum AcquireAction {
    /// Read the lock word.
    Load,
    /// Replace the word `.0` by `.1` atomically, if it is still `.0`.
    Swap(u64, u64),
    /// Set the waiting bit: `LockWord::with_pending`, as one atomic `fetch_or`.
    Announce,
    /// Clear the waiting bit: `LockWord::without_pending`, as one atomic `fetch_and`.
    Withdraw,
    /// Spin a little.
    Snooze,
    /// Ask whether the spinning is over.
    CheckBackoff,
    /// Read the milliseconds since the first attempt.
    ReadClock,
    /// Wait for a release, at most so many milliseconds.
    Wait(u64),
    /// Report that the writer has waited `.0` milliseconds, last seeing the word `.1`.
    ReportStall(u128, u64),
    /// The value is borrowed.
    Acquired,
    /// The deadline passed; with `Some(elapsed)`, report it.
    GiveUp(Option<u128>),
}

/// Where a reader stands.
#[derive(Clone, Copy, Debug, PartialEq, Eq, Structural)]
pub enum ReadPhase {
    Loading,
    Swapping,
    Snoozing,
    Backoff,
    Clock,
    Waiting,
    Finished,
}

/// A reader that acquires a box: it gets in by replacing the word with one
/// more reader; after a failed first attempt it tries again at once, and
/// after each later one it spins and then waits as its policy says.
#[derive(Clone, Copy, Debug)]
pub struct ReadAcquire {
    pub policy: WaitPolicy,
    pub phase: ReadPhase,
    /// The first attempt has not failed yet.
    pub first: bool,
    /// When the current wait began.
    pub waited_at: u128,
}

impl ReadAcquire {
    /// Whether `event` answers the last action.
    pub open spec fn awaits(self, event: AcquireEvent) -> bool {
        match self.phase {
            ReadPhase::Loading => event is Loaded,
            ReadPhase::Swapping => event is Swapped,
            ReadPhase::Snoozing => event is Done,
            ReadPhase::Backoff => event is BackoffCompleted,
            ReadPhase::Clock => event is Clock,
            ReadPhase::Waiting => event is Woke,
            ReadPhase::Finished => false,
        }
    }

    /// After a failed attempt: the first one is retried at once, later ones
    /// go to spinning.
    pub open spec fn spec_after_failure(self) -> (ReadAcquire, AcquireAction) {
        if self.first {
            (ReadAcquire { phase: ReadPhase::Loading, first: false, ..self }, AcquireAction::Load)
        } else {
            (ReadAcquire { phase: ReadPhase::Backoff, ..self }, AcquireAction::CheckBackoff)
        }
    }

    /// The next state and action after `event`.
    pub open spec fn spec_step(self, event: AcquireEvent) -> (ReadAcquire, AcquireAction) {
        match event {
            AcquireEvent::Loaded(w) => match (LockWord { bits: w }).spec_read_acquired() {
                Some(n) => (ReadAcquire { phase: ReadPhase::Swapping, ..self }, AcquireAction::Swap(w, n.bits)),
                None => self.spec_after_failure(),
            },
            AcquireEvent::Swapped(ok, _) => if ok {
                (ReadAcquire { phase: ReadPhase::Finished, ..self }, AcquireAction::Acquired)
            } else {
                self.spec_after_failure()
            },
            AcquireEvent::Done => (ReadAcquire { phase: ReadPhase::Loading, ..self }, AcquireAction::Load),
            AcquireEvent::BackoffCompleted(c) => if c {
                (ReadAcquire { phase: ReadPhase::Clock, ..self }, AcquireAction::ReadClock)
            } else {
                (ReadAcquire { phase: ReadPhase::Snoozing, ..self }, AcquireAction::Snooze)
            },
            AcquireEvent::Clock(elapsed) => {
                let (go, p) = self.policy.spec_before_wait(elapsed);
                if go {
                    (
                        ReadAcquire { policy: p, phase: ReadPhase::Waiting, waited_at: elapsed, ..self },
                        AcquireAction::Wait(p.wait_ms),
                    )
                } else {
                    (ReadAcquire { policy: p, phase: ReadPhase::Finished, ..self }, AcquireAction::GiveUp(None))
                }
            },
            AcquireEvent::Woke(timed_out) => if self.policy.spec_expired(timed_out, self.waited_at) {
                (ReadAcquire { phase: ReadPhase::Finished, ..self }, AcquireAction::GiveUp(None))
            } else {
                (ReadAcquire { phase: ReadPhase::Loading, ..self }, AcquireAction::Load)
            },
        }
    }

    /// A reader with the caller's limit, before its first attempt.
    pub open spec fn spec_start(time_out: Option<i64>) -> ReadAcquire {
        ReadAcquire { policy: WaitPolicy::spec_new(time_out), phase: ReadPhase::Loading, first: true, waited_at: 0 }
    }

    /// A reader with the caller's limit, and its first action: read the word.
    pub fn start(time_out: Option<i64>) -> (r: (ReadAcquire, AcquireAction))
        ensures
            r.0 == ReadAcquire::spec_start(time_out),
            r.1 == AcquireAction::Load,
    {
        (ReadAcquire { policy: WaitPolicy::new(time_out), phase: ReadPhase::Loading, first: true, waited_at: 0 }, AcquireAction::Load)
    }

    /// Whether `event` answers the last action.
    pub fn expects(&self, event: &AcquireEvent) -> (r: bool)
        ensures
            r == self.awaits(*event),
    {
        match self.phase {
            ReadPhase::Loading => matches!(event, AcquireEvent::Loaded(_)),
            ReadPhase::Swapping => matches!(event, AcquireEvent::Swapped(_, _)),
            ReadPhase::Snoozing => matches!(event, AcquireEvent::Done),
            ReadPhase::Backoff => matches!(event, AcquireEvent::BackoffCompleted(_)),
            ReadPhase::Clock => matches!(event, AcquireEvent::Clock(_)),
            ReadPhase::Waiting => matches!(event, AcquireEvent::Woke(_)),
            ReadPhase::Finished => false,
        }
    }

    fn after_failure(&mut self) -> (a: AcquireAction)
        ensures
            (*final(self), a) == old(self).spec_after_failure(),
    {
        if self.first {
            self.first = false;
            self.phase = ReadPhase::Loading;
            AcquireAction::Load
        } else {
            self.phase = ReadPhase::Backoff;
            AcquireAction::CheckBackoff
        }
    }

    /// Takes the answer to the last action and says what to do next.
    pub fn step(&mut self, event: AcquireEvent) -> (a: AcquireAction)
        requires
            old(self).awaits(event),
        ensures
            (*final(self), a) == old(self).spec_step(event),
    {
        match event {
            AcquireEvent::Loaded(w) => match (LockWord { bits: w }).read_acquired() {
                Some(n) => {
                    self.phase = ReadPhase::Swapping;
                    AcquireAction::Swap(w, n.bits)
                },
                None => self.after_failure(),
            },
            AcquireEvent::Swapped(ok, _) => if ok {
                self.phase = ReadPhase::Finished;
                AcquireAction::Acquired
            } else {
                self.after_failure()
            },
            AcquireEvent::Done => {
                self.phase = ReadPhase::Loading;
                AcquireAction::Load
            },
            AcquireEvent::BackoffCompleted(c) => if c {
                self.phase = ReadPhase::Clock;
                AcquireAction::ReadClock
            } else {
                self.phase = ReadPhase::Snoozing;
                AcquireAction::Snooze
            },
            AcquireEvent::Clock(elapsed) => {
                if self.policy.before_wait(elapsed) {
                    self.phase = ReadPhase::Waiting;
                    self.waited_at = elapsed;
                    AcquireAction::Wait(self.policy.wait_ms)
                } else {
                    self.phase = ReadPhase::Finished;
                    AcquireAction::GiveUp(None)
                }
            },
            AcquireEvent::Woke(timed_out) => if self.policy.expired_after_wait(timed_out, self.waited_at) {
                self.phase = ReadPhase::Finished;
                AcquireAction::GiveUp(None)
            } else {
                self.phase = ReadPhase::Loading;
                AcquireAction::Load
            },
        }
    }
}

/// After this long (ms) a waiting writer reports once that it is stalled.
pub const STALL_REPORT_MS: u128 = 5000;

/// Where a writer stands.
#[derive(Clone, Copy, Debug, PartialEq, Eq, Structural)]
pub enum WritePhase {
    /// Trying to take a free lock at once.
    FastSwap,
    /// Announcing itself after that failed.
    Announcing,
    Loading,
    /// Announcing itself again.
    Reannouncing,
    /// Trying to take the lock as the waiting writer.
    Claiming,
    Snoozing,
    Backoff,
    Clock,
    Waiting,
    ClockAfterWait,
    Reporting,
    /// Withdrawing the announcement before giving up (reporting the time).
    WithdrawToGiveUp(Option<u128>),
    /// Withdrawing the announcement after taking the lock.
    WithdrawToAcquire,
    Finished,
}

/// A writer that acquires a box: it takes a free lock at once if it can;
/// otherwise it announces itself, which keeps new readers out, and takes the
/// lock when the readers have left, spinning and waiting in between as its
/// policy says. It withdraws its announcement before it finishes.
#[derive(Clone, Copy, Debug)]
pub struct WriteAcquire {
    pub policy: WaitPolicy,
    pub phase: WritePhase,
    /// Whether the last wait ran out.
    pub timed_out: bool,
    /// The word that the last failed claim found.
    pub last_seen: u64,
    /// A stall has been reported.
    pub stall_reported: bool,
}

impl WriteAcquire {
    /// Whether `event` answers the last action.
    pub open spec fn awaits(self, event: AcquireEvent) -> bool {
        match self.phase {
            WritePhase::FastSwap => event is Swapped,
            WritePhase::Announcing => event is Done,
            WritePhase::Loading => event is Loaded,
            WritePhase::Reannouncing => event is Done,
            WritePhase::Claiming => event is Swapped,
            WritePhase::Snoozing => event is Done,
            WritePhase::Backoff => event is BackoffCompleted,
            WritePhase::Clock => event is Clock,
            WritePhase::Waiting => event is Woke,
            WritePhase::ClockAfterWait => event is Clock,
            WritePhase::Reporting => event is Done,
            WritePhase::WithdrawToGiveUp(_) => event is Done,
            WritePhase::WithdrawToAcquire => event is Done,
            WritePhase::Finished => false,
        }
    }

    /// The writer's announcement may stand: it was made and not yet withdrawn.
    pub open spec fn announced(self) -> bool {
        match self.phase {
            WritePhase::FastSwap => false,
            WritePhase::WithdrawToGiveUp(_) => false,
            WritePhase::WithdrawToAcquire => false,
            WritePhase::Finished => false,
            _ => true,
        }
    }

    /// The next state and action after `event`.
    pub open spec fn spec_step(self, event: AcquireEvent) -> (WriteAcquire, AcquireAction) {
        match self.phase {
            WritePhase::FastSwap => if event matches AcquireEvent::Swapped(ok, _) && ok {
                (WriteAcquire { phase: WritePhase::Finished, ..self }, AcquireAction::Acquired)
            } else {
                (WriteAcquire { phase: WritePhase::Announcing, ..self }, AcquireAction::Announce)
            },
            WritePhase::Announcing => (WriteAcquire { phase: WritePhase::Loading, ..self }, AcquireAction::Load),
            WritePhase::Loading => if event matches AcquireEvent::Loaded(w) && w < max_size() {
                (WriteAcquire { phase: WritePhase::Reannouncing, ..self }, AcquireAction::Announce)
            } else {
                (WriteAcquire { phase: WritePhase::Claiming, ..self }, AcquireAction::Swap(lock_flag(), lock_mask()))
            },
            WritePhase::Reannouncing => (
                WriteAcquire { phase: WritePhase::Claiming, ..self },
                AcquireAction::Swap(lock_flag(), lock_mask()),
            ),
            WritePhase::Claiming => match event {
                AcquireEvent::Swapped(ok, actual) => if ok {
                    (WriteAcquire { phase: WritePhase::WithdrawToAcquire, ..self }, AcquireAction::Withdraw)
                } else {
                    (
                        WriteAcquire { phase: WritePhase::Backoff, last_seen: actual, ..self },
                        AcquireAction::CheckBackoff,
                    )
                },
                _ => (self, AcquireAction::CheckBackoff),
            },
            WritePhase::Snoozing => (WriteAcquire { phase: WritePhase::Loading, ..self }, AcquireAction::Load),
            WritePhase::Backoff => if event matches AcquireEvent::BackoffCompleted(c) && c {
                (WriteAcquire { phase: WritePhase::Clock, ..self }, AcquireAction::ReadClock)
            } else {
                (WriteAcquire { phase: WritePhase::Snoozing, ..self }, AcquireAction::Snooze)
            },
            WritePhase::Clock => match event {
                AcquireEvent::Clock(elapsed) => {
                    let (go, p) = self.policy.spec_before_wait(elapsed);
                    if go {
                        (WriteAcquire { policy: p, phase: WritePhase::Waiting, ..self }, AcquireAction::Wait(p.wait_ms))
                    } else {
                        (
                            WriteAcquire { policy: p, phase: WritePhase::WithdrawToGiveUp(None), ..self },
                            AcquireAction::Withdraw,
                        )
                    }
                },
                _ => (self, AcquireAction::ReadClock),
            },
            WritePhase::Waiting => match event {
                AcquireEvent::Woke(t) => (
                    WriteAcquire { phase: WritePhase::ClockAfterWait, timed_out: t, ..self },
                    AcquireAction::ReadClock,
                ),
                _ => (self, AcquireAction::ReadClock),
            },
            WritePhase::ClockAfterWait => match event {
                AcquireEvent::Clock(elapsed) => if self.policy.spec_expired(self.timed_out, elapsed) {
                    (
                        WriteAcquire { phase: WritePhase::WithdrawToGiveUp(Some(elapsed)), ..self },
                        AcquireAction::Withdraw,
                    )
                } else if !self.stall_reported && elapsed > STALL_REPORT_MS {
                    (
                        WriteAcquire { phase: WritePhase::Reporting, stall_reported: true, ..self },
                        AcquireAction::ReportStall(elapsed, self.last_seen),
                    )
                } else {
                    (WriteAcquire { phase: WritePhase::Loading, ..self }, AcquireAction::Load)
                },
                _ => (self, AcquireAction::Load),
            },
            WritePhase::Reporting => (WriteAcquire { phase: WritePhase::Loading, ..self }, AcquireAction::Load),
            WritePhase::WithdrawToGiveUp(report) => (
                WriteAcquire { phase: WritePhase::Finished, ..self },
                AcquireAction::GiveUp(report),
            ),
            WritePhase::WithdrawToAcquire => (
                WriteAcquire { phase: WritePhase::Finished, ..self },
                AcquireAction::Acquired,
            ),
            WritePhase::Finished => (self, AcquireAction::GiveUp(None)),
        }
    }

    /// A writer with the caller's limit, before its first attempt.
    pub open spec fn spec_start(time_out: Option<i64>) -> WriteAcquire {
        WriteAcquire {
            policy: WaitPolicy::spec_new(time_out),
            phase: WritePhase::FastSwap,
            timed_out: false,
            last_seen: 0,
            stall_reported: false,
        }
    }

    /// A writer with the caller's limit, and its first action: take a free
    /// lock.
    pub fn start(time_out: Option<i64>) -> (r: (WriteAcquire, AcquireAction))
        ensures
            r.0 == WriteAcquire::spec_start(time_out),
            r.1 == AcquireAction::Swap(0, max_size()),
    {
        let free = LockWord::unlocked();
        let taken = match free.write_taken() {
            Some(w) => w,
            None => free,
        };
        (
            WriteAcquire {
                policy: WaitPolicy::new(time_out),
                phase: WritePhase::FastSwap,
                timed_out: false,
                last_seen: 0,
                stall_reported: false,
            },
            AcquireAction::Swap(free.bits, taken.bits),
        )
    }

    /// Whether `event` answers the last action.
    pub fn expects(&self, event: &AcquireEvent) -> (r: bool)
        ensures
            r == self.awaits(*event),
    {
        match self.phase {
            WritePhase::FastSwap => matches!(event, AcquireEvent::Swapped(_, _)),
            WritePhase::Announcing => matches!(event, AcquireEvent::Done),
            WritePhase::Loading => matches!(event, AcquireEvent::Loaded(_)),
            WritePhase::Reannouncing => matches!(event, AcquireEvent::Done),
            WritePhase::Claiming => matches!(event, AcquireEvent::Swapped(_, _)),
            WritePhase::Snoozing => matches!(event, AcquireEvent::Done),
            WritePhase::Backoff => matches!(event, AcquireEvent::BackoffCompleted(_)),
            WritePhase::Clock => matches!(event, AcquireEvent::Clock(_)),
            WritePhase::Waiting => matches!(event, AcquireEvent::Woke(_)),
            WritePhase::ClockAfterWait => matches!(event, AcquireEvent::Clock(_)),
            WritePhase::Reporting => matches!(event, AcquireEvent::Done),
            WritePhase::WithdrawToGiveUp(_) => matches!(event, AcquireEvent::Done),
            WritePhase::WithdrawToAcquire => matches!(event, AcquireEvent::Done),
            WritePhase::Finished => false,
        }
    }

    /// Takes the answer to the last action and says what to do next.
    pub fn step(&mut self, event: AcquireEvent) -> (a: AcquireAction)
        requires
            old(self).awaits(event),
        ensures
            (*final(self), a) == old(self).spec_step(event),
    {
        match self.phase {
            WritePhase::FastSwap => {
                if let AcquireEvent::Swapped(true, _) = event {
                    self.phase = WritePhase::Finished;
                    AcquireAction::Acquired
                } else {
                    self.phase = WritePhase::Announcing;
                    AcquireAction::Announce
                }
            },
            WritePhase::Announcing => {
                self.phase = WritePhase::Loading;
                AcquireAction::Load
            },
            WritePhase::Loading => {
                let announce = match event {
                    AcquireEvent::Loaded(w) => (LockWord { bits: w }).writer_announces(),
                    _ => false,
                };
                if announce {
                    self.phase = WritePhase::Reannouncing;
                    AcquireAction::Announce
                } else {
                    self.phase = WritePhase::Claiming;
                    AcquireAction::Swap(lock_flag(), lock_mask())
                }
            },
            WritePhase::Reannouncing => {
                self.phase = WritePhase::Claiming;
                AcquireAction::Swap(lock_flag(), lock_mask())
            },
            WritePhase::Claiming => match event {
                AcquireEvent::Swapped(ok, actual) => if ok {
                    self.phase = WritePhase::WithdrawToAcquire;
                    AcquireAction::Withdraw
                } else {
                    self.phase = WritePhase::Backoff;
                    self.last_seen = actual;
                    AcquireAction::CheckBackoff
                },
                _ => AcquireAction::CheckBackoff,
            },
            WritePhase::Snoozing => {
                self.phase = WritePhase::Loading;
                AcquireAction::Load
            },
            WritePhase::Backoff => {
                if let AcquireEvent::BackoffCompleted(true) = event {
                    self.phase = WritePhase::Clock;
                    AcquireAction::ReadClock
                } else {
                    self.phase = WritePhase::Snoozing;
                    AcquireAction::Snooze
                }
            },
            WritePhase::Clock => match event {
                AcquireEvent::Clock(elapsed) => {
                    if self.policy.before_wait(elapsed) {
                        self.phase = WritePhase::Waiting;
                        AcquireAction::Wait(self.policy.wait_ms)
                    } else {
                        self.phase = WritePhase::WithdrawToGiveUp(None);
                        AcquireAction::Withdraw
                    }
                },
                _ => AcquireAction::ReadClock,
            },
            WritePhase::Waiting => match event {
                AcquireEvent::Woke(t) => {
                    self.phase = WritePhase::ClockAfterWait;
                    self.timed_out = t;
                    AcquireAction::ReadClock
                },
                _ => AcquireAction::ReadClock,
            },
            WritePhase::ClockAfterWait => match event {
                AcquireEvent::Clock(elapsed) => if self.policy.expired_after_wait(self.timed_out, elapsed) {
                    self.phase = WritePhase::WithdrawToGiveUp(Some(elapsed));
                    AcquireAction::Withdraw
                } else if !self.stall_reported && elapsed > STALL_REPORT_MS {
                    self.phase = WritePhase::Reporting;
                    self.stall_reported = true;
                    AcquireAction::ReportStall(elapsed, self.last_seen)
                } else {
                    self.phase = WritePhase::Loading;
                    AcquireAction::Load
                },
                _ => AcquireAction::Load,
            },
            WritePhase::Reporting => {
                self.phase = WritePhase::Loading;
                AcquireAction::Load
            },
            WritePhase::WithdrawToGiveUp(report) => {
                self.phase = WritePhase::Finished;
                AcquireAction::GiveUp(report)
            },
            WritePhase::WithdrawToAcquire => {
                self.phase = WritePhase::Finished;
                AcquireAction::Acquired
            },
            WritePhase::Finished => AcquireAction::GiveUp(None),
        }
    }
}

/// A reader only ever installs one more reader on a word that admits one,
/// gives up only when its caller set a deadline, and keeps its caller's limit.
pub proof fn law_reader_steps(m: ReadAcquire, event: AcquireEvent)
    requires
        m.awaits(event),
    ensures
        m.spec_step(event).1 matches AcquireAction::Swap(x, y) ==> (LockWord { bits: x }).spec_read_acquired()
            == Some(LockWord { bits: y }),
        m.spec_step(event).1 is GiveUp ==> m.policy.has_deadline(),
        m.spec_step(event).0.policy.time_out == m.policy.time_out,
{
}

impl WriteAcquire {
    /// A writer only gives up when its caller set a deadline.
    pub open spec fn inv(self) -> bool {
        self.phase is WithdrawToGiveUp ==> self.policy.has_deadline()
    }
}

/// A writer starts in its invariant, and every step keeps it.
pub proof fn law_writer_inv(time_out: Option<i64>, m: WriteAcquire, event: AcquireEvent)
    requires
        m.inv(),
        m.awaits(event),
    ensures
        WriteAcquire::spec_start(time_out).inv(),
        m.spec_step(event).0.inv(),
        m.spec_step(event).0.policy.time_out == m.policy.time_out,
{
}

/// A writer only ever takes a free lock or, as the waiting writer, a lock
/// with nobody inside; it finishes only after withdrawing its announcement,
/// makes and withdraws announcements only by announcing and withdrawing,
/// gives up only when its caller set a deadline, and reports a stall at most
/// once.
pub proof fn law_writer_steps(m: WriteAcquire, event: AcquireEvent)
    requires
        m.inv(),
        m.awaits(event),
    ensures
        m.spec_step(event).1 matches AcquireAction::Swap(x, y) ==> (x == 0 && y == max_size()) || (LockWord {
            bits: x,
        }).spec_write_claimed() == Some(LockWord { bits: y }),
        (m.spec_step(event).1 is Acquired || m.spec_step(event).1 is GiveUp) ==> !m.announced(),
        m.announced() && !m.spec_step(event).0.announced() ==> m.spec_step(event).1 is Withdraw,
        !m.announced() && m.spec_step(event).0.announced() ==> m.spec_step(event).1 is Announce,
        m.spec_step(event).1 is GiveUp ==> m.policy.has_deadline(),
        m.spec_step(event).1 is ReportStall ==> !m.stall_reported && m.spec_step(event).0.stall_reported,
{
}

/// With a deadline, a reader's wait ends exactly at the deadline, and a
/// reader that reads the clock at or past the deadline gives up there.
pub proof fn law_reader_wait_ends_at_deadline(r: ReadAcquire, elapsed: u128)
    requires
        r.phase == ReadPhase::Clock,
        r.policy.has_deadline(),
    ensures
        r.spec_step(AcquireEvent::Clock(elapsed)).1 matches AcquireAction::Wait(ms) ==> elapsed + ms
            == r.policy.deadline(),
        elapsed >= r.policy.deadline() ==> r.spec_step(AcquireEvent::Clock(elapsed)) == (
            ReadAcquire { phase: ReadPhase::Finished, ..r },
            AcquireAction::GiveUp(None),
        ),
{
}

/// With a deadline, a writer's wait ends exactly at the deadline, and a
/// writer that reads the clock at or past the deadline withdraws its
/// announcement and then gives up.
pub proof fn law_writer_wait_ends_at_deadline(w: WriteAcquire, elapsed: u128)
    requires
        w.phase == WritePhase::Clock,
        w.policy.has_deadline(),
    ensures
        w.spec_step(AcquireEvent::Clock(elapsed)).1 matches AcquireAction::Wait(ms) ==> elapsed + ms
            == w.policy.deadline(),
        elapsed >= w.policy.deadline() ==> w.spec_step(AcquireEvent::Clock(elapsed)) == (
            WriteAcquire { phase: WritePhase::WithdrawToGiveUp(None), ..w },
            AcquireAction::Withdraw,
        ),
        elapsed >= w.policy.deadline() ==> w.spec_step(AcquireEvent::Clock(elapsed)).0.spec_step(
            AcquireEvent::Done,
        ) == (WriteAcquire { phase: WritePhase::Finished, ..w }, AcquireAction::GiveUp(None)),
{
}

/// Where a reader stands, and its last action, after it took `events` in
/// turn from `(m, a)`, whatever the other threads did meanwhile; it stops at
/// the first event that does not answer its last action.
pub open spec fn reader_run(m: ReadAcquire, a: AcquireAction, events: Seq<AcquireEvent>) -> (ReadAcquire, AcquireAction)
    decreases events.len(),
{
    if events.len() > 0 && m.awaits(events[0]) {
        let (n, b) = m.spec_step(events[0]);
        reader_run(n, b, events.drop_first())
    } else {
        (m, a)
    }
}

/// Where a writer stands, and its last action, after it took `events` in
/// turn from `(m, a)`; it stops at the first event that does not answer its
/// last action.
pub open spec fn writer_run(m: WriteAcquire, a: AcquireAction, events: Seq<AcquireEvent>) -> (WriteAcquire, AcquireAction)
    decreases events.len(),
{
    if events.len() > 0 && m.awaits(events[0]) {
        let (n, b) = m.spec_step(events[0]);
        writer_run(n, b, events.drop_first())
    } else {
        (m, a)
    }
}

proof fn lemma_reader_run_gives_up_with_deadline(m: ReadAcquire, a: AcquireAction, events: Seq<AcquireEvent>)
    requires
        a is GiveUp ==> m.policy.has_deadline(),
    ensures
        reader_run(m, a, events).0.policy.time_out == m.policy.time_out,
        reader_run(m, a, events).1 is GiveUp ==> m.policy.has_deadline(),
    decreases events.len(),
{
    if events.len() > 0 && m.awaits(events[0]) {
        law_reader_steps(m, events[0]);
        let (n, b) = m.spec_step(events[0]);
        lemma_reader_run_gives_up_with_deadline(n, b, events.drop_first());
    }
}

proof fn lemma_writer_run_gives_up_with_deadline(m: WriteAcquire, a: AcquireAction, events: Seq<AcquireEvent>)
    requires
        m.inv(),
        a is GiveUp ==> m.policy.has_deadline(),
    ensures
        writer_run(m, a, events).0.policy.time_out == m.policy.time_out,
        writer_run(m, a, events).1 is GiveUp ==> m.policy.has_deadline(),
    decreases events.len(),
{
    if events.len() > 0 && m.awaits(events[0]) {
        law_writer_inv(m.policy.time_out, m, events[0]);
        law_writer_steps(m, events[0]);
        let (n, b) = m.spec_step(events[0]);
        lemma_writer_run_gives_up_with_deadline(n, b, events.drop_first());
    }
}

/// Whatever the other threads do, an acquisition gives up only when its
/// caller gave a positive limit: started without one (`None`, or a limit of
/// zero or less) a reader or a writer never ends without the value.
pub proof fn law_gives_up_only_with_deadline(time_out: Option<i64>, events: Seq<AcquireEvent>)
    ensures
        reader_run(ReadAcquire::spec_start(time_out), AcquireAction::Load, events).1 is GiveUp
            ==> WaitPolicy::spec_new(time_out).has_deadline(),
        writer_run(WriteAcquire::spec_start(time_out), AcquireAction::Swap(0, max_size()), events).1 is GiveUp
            ==> WaitPolicy::spec_new(time_out).has_deadline(),
{
    lemma_reader_run_gives_up_with_deadline(ReadAcquire::spec_start(time_out), AcquireAction::Load, events);
    law_writer_inv(time_out, WriteAcquire::spec_start(time_out), AcquireEvent::Swapped(false, 0));
    lemma_writer_run_gives_up_with_deadline(
        WriteAcquire::spec_start(time_out),
        AcquireAction::Swap(0, max_size()),
        events,
    );
}

/// The word after a thread that is alone with the box performs `action` on it.
pub open spec fn solo_word(word: u64, action: AcquireAction) -> u64 {
    match action {
        AcquireAction::Swap(x, y) => if word == x {
            y
        } else {
            word
        },
        AcquireAction::Announce => (LockWord { bits: word }).spec_with_pending().bits,
        AcquireAction::Withdraw => (LockWord { bits: word }).spec_without_pending().bits,
        _ => word,
    }
}

/// Whether `event` is what a thread that is alone with the box may learn
/// from performing `action` on the word `word`: the word itself, whether the
/// exchange found what it expected, and any answer of the backoff, the clock
/// and the wait.
pub open spec fn solo_answer(word: u64, action: AcquireAction, event: AcquireEvent) -> bool {
    match action {
        AcquireAction::Load => event == AcquireEvent::Loaded(word),
        AcquireAction::Swap(x, _) => event == AcquireEvent::Swapped(word == x, word),
        AcquireAction::CheckBackoff => event is BackoffCompleted,
        AcquireAction::ReadClock => event is Clock,
        AcquireAction::Wait(_) => event is Woke,
        AcquireAction::Acquired => false,
        AcquireAction::GiveUp(_) => false,
        _ => event is Done,
    }
}

/// A reader's run on a box that no other thread touches meanwhile: where it
/// stands, its last action and the word.
pub open spec fn reader_solo_run(m: ReadAcquire, a: AcquireAction, word: u64, events: Seq<AcquireEvent>) -> (
    ReadAcquire,
    AcquireAction,
    u64,
)
    decreases events.len(),
{
    if events.len() > 0 && m.awaits(events[0]) && solo_answer(word, a, events[0]) {
        let (n, b) = m.spec_step(events[0]);
        reader_solo_run(n, b, solo_word(word, a), events.drop_first())
    } else {
        (m, a, word)
    }
}

/// A writer's run on a box that no other thread touches meanwhile: where it
/// stands, its last action and the word.
pub open spec fn writer_solo_run(m: WriteAcquire, a: AcquireAction, word: u64, events: Seq<AcquireEvent>) -> (
    WriteAcquire,
    AcquireAction,
    u64,
)
    decreases events.len(),
{
    if events.len() > 0 && m.awaits(events[0]) && solo_answer(word, a, events[0]) {
        let (n, b) = m.spec_step(events[0]);
        writer_solo_run(n, b, solo_word(word, a), events.drop_first())
    } else {
        (m, a, word)
    }
}

/// What a reader's last action can be while a writer holds the box.
spec fn reader_blocked(m: ReadAcquire, a: AcquireAction) -> bool {
    &&& a matches AcquireAction::Swap(x, _) ==> x < max_size()
    &&& !(a is Announce) && !(a is Withdraw) && !(a is Acquired)
    &&& a is GiveUp ==> m.policy.has_deadline()
}

proof fn lemma_reader_facing_writer(m: ReadAcquire, a: AcquireAction, word: u64, events: Seq<AcquireEvent>)
    requires
        word >= max_size(),
        reader_blocked(m, a),
    ensures
        reader_solo_run(m, a, word, events).2 == word,
        !(reader_solo_run(m, a, word, events).1 is Acquired),
        reader_solo_run(m, a, word, events).1 is GiveUp ==> m.policy.has_deadline(),
        reader_solo_run(m, a, word, events).0.policy.time_out == m.policy.time_out,
    decreases events.len(),
{
    if events.len() > 0 && m.awaits(events[0]) && solo_answer(word, a, events[0]) {
        law_reader_steps(m, events[0]);
        let (n, b) = m.spec_step(events[0]);
        assert(solo_word(word, a) == word);
        assert(reader_blocked(n, b));
        lemma_reader_facing_writer(n, b, word, events.drop_first());
    }
}

/// A reader facing a box that a writer holds or waits for (the word is at
/// least `max_size()`), with no other thread about, never gets the value and
/// never changes the word; it ends only by giving up, and only when its
/// caller gave a positive limit.
pub proof fn law_reader_facing_writer(time_out: Option<i64>, word: u64, events: Seq<AcquireEvent>)
    requires
        word >= max_size(),
    ensures
        reader_solo_run(ReadAcquire::spec_start(time_out), AcquireAction::Load, word, events).2 == word,
        !(reader_solo_run(ReadAcquire::spec_start(time_out), AcquireAction::Load, word, events).1 is Acquired),
        reader_solo_run(ReadAcquire::spec_start(time_out), AcquireAction::Load, word, events).1 is GiveUp
            ==> WaitPolicy::spec_new(time_out).has_deadline(),
{
    lemma_reader_facing_writer(ReadAcquire::spec_start(time_out), AcquireAction::Load, word, events);
}

/// Where a writer stands while others are inside the box (the word is
/// `occupied`: some readers, or another writer) and nobody else comes or
/// goes: its last action and the word before that action, `occupied` with
/// the writer's announcement added once it is made.
spec fn facing_occupied(m: WriteAcquire, a: AcquireAction, word: u64, occupied: u64) -> bool {
    let announced = (occupied + lock_flag()) as u64;
    match m.phase {
        WritePhase::FastSwap => a == AcquireAction::Swap(0, max_size()) && word == occupied,
        WritePhase::Announcing => a is Announce && word == occupied,
        WritePhase::Loading => a is Load && word == announced,
        WritePhase::Reannouncing => a is Announce && word == announced,
        WritePhase::Claiming => a == AcquireAction::Swap(lock_flag(), lock_mask()) && word == announced,
        WritePhase::Snoozing => a is Snooze && word == announced,
        WritePhase::Backoff => a is CheckBackoff && word == announced,
        WritePhase::Clock => a is ReadClock && word == announced,
        WritePhase::Waiting => a is Wait && word == announced,
        WritePhase::ClockAfterWait => a is ReadClock && word == announced,
        WritePhase::Reporting => a is ReportStall && word == announced,
        WritePhase::WithdrawToGiveUp(_) => a is Withdraw && word == announced && m.policy.has_deadline(),
        WritePhase::WithdrawToAcquire => false,
        WritePhase::Finished => a is GiveUp && word == occupied && m.policy.has_deadline(),
    }
}

proof fn lemma_facing_occupied_step(m: WriteAcquire, a: AcquireAction, word: u64, occupied: u64, event: AcquireEvent)
    requires
        0 < occupied <= max_size(),
        facing_occupied(m, a, word, occupied),
        m.awaits(event),
        solo_answer(word, a, event),
    ensures
        facing_occupied(m.spec_step(event).0, m.spec_step(event).1, solo_word(word, a), occupied),
        m.spec_step(event).0.policy.time_out == m.policy.time_out,
{
    assert(!(LockWord { bits: occupied }).write_pending());
    assert((LockWord { bits: (occupied + lock_flag()) as u64 }).write_pending());
}

proof fn lemma_writer_facing_occupied(
    m: WriteAcquire,
    a: AcquireAction,
    word: u64,
    occupied: u64,
    events: Seq<AcquireEvent>,
)
    requires
        0 < occupied <= max_size(),
        facing_occupied(m, a, word, occupied),
    ensures
        facing_occupied(
            writer_solo_run(m, a, word, events).0,
            writer_solo_run(m, a, word, events).1,
            writer_solo_run(m, a, word, events).2,
            occupied,
        ),
        writer_solo_run(m, a, word, events).0.policy.time_out == m.policy.time_out,
    decreases events.len(),
{
    if events.len() > 0 && m.awaits(events[0]) && solo_answer(word, a, events[0]) {
        lemma_facing_occupied_step(m, a, word, occupied, events[0]);
        let (n, b) = m.spec_step(events[0]);
        lemma_writer_facing_occupied(n, b, solo_word(word, a), occupied, events.drop_first());
    }
}

/// A writer facing a box with others inside (the word `occupied` counts
/// some readers, or is `max_size()` for another writer), with nobody coming or
/// going meanwhile, never gets the value: a writer never gets in while a
/// reader or another writer is inside. While it waits its announcement
/// stands (`occupied + lock_flag()`); when it ends it has given up, only
/// because its caller gave a positive limit, and has left the word as it
/// found it.
pub proof fn law_writer_facing_occupied(time_out: Option<i64>, occupied: u64, events: Seq<AcquireEvent>)
    requires
        0 < occupied <= max_size(),
    ensures
        !(writer_solo_run(WriteAcquire::spec_start(time_out), AcquireAction::Swap(0, max_size()), occupied, events).1 is Acquired),
        writer_solo_run(WriteAcquire::spec_start(time_out), AcquireAction::Swap(0, max_size()), occupied, events).2
            == occupied || writer_solo_run(
            WriteAcquire::spec_start(time_out),
            AcquireAction::Swap(0, max_size()),
            occupied,
            events,
        ).2 == occupied + lock_flag(),
        writer_solo_run(WriteAcquire::spec_start(time_out), AcquireAction::Swap(0, max_size()), occupied, events).0.phase is Finished
            ==> writer_solo_run(
            WriteAcquire::spec_start(time_out),
            AcquireAction::Swap(0, max_size()),
            occupied,
            events,
        ).1 is GiveUp && writer_solo_run(
            WriteAcquire::spec_start(time_out),
            AcquireAction::Swap(0, max_size()),
            occupied,
            events,
        ).2 == occupied && WaitPolicy::spec_new(time_out).has_deadline(),
{
    lemma_writer_facing_occupied(
        WriteAcquire::spec_start(time_out),
        AcquireAction::Swap(0, max_size()),
        occupied,
        occupied,
        events,
    );
}

/// Alone with a box that no writer holds or waits for (the word counts only
/// `readers` readers), a reader gets in at its first attempt, one reader
/// more on the word; alone with a free box a writer gets in at its first
/// attempt, the word then `max_size()`. Neither depends on the caller's limit.
pub proof fn law_alone_with_a_free_box(time_out: Option<i64>, readers: u64)
    requires
        readers + 1 < max_size(),
    ensures
        reader_solo_run(
            ReadAcquire::spec_start(time_out),
            AcquireAction::Load,
            readers,
            seq![AcquireEvent::Loaded(readers), AcquireEvent::Swapped(true, readers)],
        ) matches (m, a, w) && a == AcquireAction::Acquired && w == readers + 1,
        writer_solo_run(
            WriteAcquire::spec_start(time_out),
            AcquireAction::Swap(0, max_size()),
            0,
            seq![AcquireEvent::Swapped(true, 0)],
        ) matches (m, a, w) && a == AcquireAction::Acquired && w == max_size(),
{
    let events = seq![AcquireEvent::Loaded(readers), AcquireEvent::Swapped(true, readers)];
    let m0 = ReadAcquire::spec_start(time_out);
    let (m1, a1) = m0.spec_step(events[0]);
    let (m2, a2) = m1.spec_step(events[1]);
    assert(a1 == AcquireAction::Swap(readers, (readers + 1) as u64));
    assert(a2 == AcquireAction::Acquired);
    assert(events.drop_first() =~= seq![events[1]]);
    assert(events.drop_first().drop_first() =~= Seq::<AcquireEvent>::empty());
    assert(reader_solo_run(m2, a2, (readers + 1) as u64, Seq::<AcquireEvent>::empty()) == (m2, a2, (readers + 1) as u64));
    assert(reader_solo_run(m1, a1, readers, seq![events[1]]) == (m2, a2, (readers + 1) as u64));
    let w_events = seq![AcquireEvent::Swapped(true, 0)];
    let w0 = WriteAcquire::spec_start(time_out);
    let (w1, b1) = w0.spec_step(w_events[0]);
    assert(b1 == AcquireAction::Acquired);
    assert(w_events.drop_first() =~= Seq::<AcquireEvent>::empty());
    assert(writer_solo_run(w1, b1, max_size(), Seq::<AcquireEvent>::empty()) == (w1, b1, max_size()));
}

/// A reader with a positive limit `t` facing a box that a writer holds, with
/// no other thread about, gives up at its first clock reading at or past `t`:
/// after its first attempt and the retry fail and its spinning is over, it
/// ends without the value and leaves the word as it was.
pub proof fn law_reader_facing_writer_gives_up(t: i64, word: u64, elapsed: u128)
    requires
        t > 0,
        word >= max_size(),
        elapsed >= t,
    ensures
        reader_solo_run(
            ReadAcquire::spec_start(Some(t)),
            AcquireAction::Load,
            word,
            seq![
                AcquireEvent::Loaded(word),
                AcquireEvent::Loaded(word),
                AcquireEvent::BackoffCompleted(true),
                AcquireEvent::Clock(elapsed),
            ],
        ) matches (m, a, w) && m.phase == ReadPhase::Finished && a == AcquireAction::GiveUp(None) && w == word,
{
    let events = seq![
        AcquireEvent::Loaded(word),
        AcquireEvent::Loaded(word),
        AcquireEvent::BackoffCompleted(true),
        AcquireEvent::Clock(elapsed),
    ];
    let m0 = ReadAcquire::spec_start(Some(t));
    let (m1, a1) = m0.spec_step(events[0]);
    let (m2, a2) = m1.spec_step(events[1]);
    let (m3, a3) = m2.spec_step(events[2]);
    let (m4, a4) = m3.spec_step(events[3]);
    assert(a1 == AcquireAction::Load && m1.phase == ReadPhase::Loading && !m1.first);
    assert(a2 == AcquireAction::CheckBackoff && m2.phase == ReadPhase::Backoff);
    assert(a3 == AcquireAction::ReadClock && m3.phase == ReadPhase::Clock);
    assert(a4 == AcquireAction::GiveUp(None) && m4.phase == ReadPhase::Finished);
    assert(events.drop_first() =~= seq![events[1], events[2], events[3]]);
    assert(events.drop_first().drop_first() =~= seq![events[2], events[3]]);
    assert(events.drop_first().drop_first().drop_first() =~= seq![events[3]]);
    assert(events.drop_first().drop_first().drop_first().drop_first() =~= Seq::<AcquireEvent>::empty());
    assert(reader_solo_run(m4, a4, word, Seq::<AcquireEvent>::empty()) == (m4, a4, word));
    assert(reader_solo_run(m3, a3, word, seq![events[3]]) == (m4, a4, word));
    assert(reader_solo_run(m2, a2, word, seq![events[2], events[3]]) == (m4, a4, word));
    assert(reader_solo_run(m1, a1, word, seq![events[1], events[2], events[3]]) == (m4, a4, word));
}

/// A writer with a positive limit `t` facing a box with others inside (the
/// word `occupied`), with nobody coming or going, gives up at its first clock
/// reading at or past `t`: its fast attempt fails, it announces itself, its
/// claim fails, its spinning is over, and on that reading it withdraws its
/// announcement and ends without the value, the word back at `occupied`.
pub proof fn law_writer_facing_occupied_gives_up(t: i64, occupied: u64, elapsed: u128)
    requires
        t > 0,
        0 < occupied <= max_size(),
        elapsed >= t,
    ensures
        writer_solo_run(
            WriteAcquire::spec_start(Some(t)),
            AcquireAction::Swap(0, max_size()),
            occupied,
            seq![
                AcquireEvent::Swapped(false, occupied),
                AcquireEvent::Done,
                AcquireEvent::Loaded((occupied + lock_flag()) as u64),
                AcquireEvent::Swapped(false, (occupied + lock_flag()) as u64),
                AcquireEvent::BackoffCompleted(true),
                AcquireEvent::Clock(elapsed),
                AcquireEvent::Done,
            ],
        ) matches (m, a, w) && m.phase == WritePhase::Finished && a == AcquireAction::GiveUp(None) && w
            == occupied,
{
    let events = seq![
        AcquireEvent::Swapped(false, occupied),
        AcquireEvent::Done,
        AcquireEvent::Loaded((occupied + lock_flag()) as u64),
        AcquireEvent::Swapped(false, (occupied + lock_flag()) as u64),
        AcquireEvent::BackoffCompleted(true),
        AcquireEvent::Clock(elapsed),
        AcquireEvent::Done,
    ];
    let m0 = WriteAcquire::spec_start(Some(t));
    let a0 = AcquireAction::Swap(0, max_size());
    let (m1, a1) = m0.spec_step(events[0]);
    let (m2, a2) = m1.spec_step(events[1]);
    let (m3, a3) = m2.spec_step(events[2]);
    let (m4, a4) = m3.spec_step(events[3]);
    let (m5, a5) = m4.spec_step(events[4]);
    let (m6, a6) = m5.spec_step(events[5]);
    let (m7, a7) = m6.spec_step(events[6]);
    assert(a1 == AcquireAction::Announce && m1.phase == WritePhase::Announcing);
    let announced = (occupied + lock_flag()) as u64;
    assert(!(LockWord { bits: occupied }).write_pending());
    assert((LockWord { bits: announced }).write_pending());
    assert(solo_word(occupied, a1) == announced);
    assert(a2 == AcquireAction::Load && m2.phase == WritePhase::Loading);
    assert(a3 == AcquireAction::Swap(lock_flag(), lock_mask()) && m3.phase == WritePhase::Claiming);
    assert(a4 == AcquireAction::CheckBackoff && m4.phase == WritePhase::Backoff);
    assert(a5 == AcquireAction::ReadClock && m5.phase == WritePhase::Clock);
    assert(a6 == AcquireAction::Withdraw && m6.phase == WritePhase::WithdrawToGiveUp(None));
    assert(solo_word(announced, a6) == occupied);
    assert(a7 == AcquireAction::GiveUp(None) && m7.phase == WritePhase::Finished);
    let e1 = events.drop_first();
    let e2 = e1.drop_first();
    let e3 = e2.drop_first();
    let e4 = e3.drop_first();
    let e5 = e4.drop_first();
    let e6 = e5.drop_first();
    let e7 = e6.drop_first();
    assert(e1 =~= seq![events[1], events[2], events[3], events[4], events[5], events[6]]);
    assert(e2 =~= seq![events[2], events[3], events[4], events[5], events[6]]);
    assert(e3 =~= seq![events[3], events[4], events[5], events[6]]);
    assert(e4 =~= seq![events[4], events[5], events[6]]);
    assert(e5 =~= seq![events[5], events[6]]);
    assert(e6 =~= seq![events[6]]);
    assert(e7 =~= Seq::<AcquireEvent>::empty());
    assert(writer_solo_run(m7, a7, occupied, e7) == (m7, a7, occupied));
    assert(writer_solo_run(m6, a6, announced, e6) == (m7, a7, occupied));
    assert(writer_solo_run(m5, a5, announced, e5) == (m7, a7, occupied));
    assert(writer_solo_run(m4, a4, announced, e4) == (m7, a7, occupied));
    assert(writer_solo_run(m3, a3, announced, e3) == (m7, a7, occupied));
    assert(writer_solo_run(m2, a2, announced, e2) == (m7, a7, occupied));
    assert(writer_solo_run(m1, a1, occupied, e1) == (m7, a7, occupied));
    assert(writer_solo_run(m0, a0, occupied, events) == (m7, a7, occupied));
}

/// The word counts who is inside: it is well formed, its reader count is the
/// number of readers inside and its holder bit says whether a writer is
/// inside (so never a writer together with a reader).
pub open spec fn counts_holders(word: u64, readers: nat, writer: bool) -> bool {
    &&& (LockWord { bits: word }).wf()
    &&& (LockWord { bits: word }).readers() == readers
    &&& (LockWord { bits: word }).write_held() == writer
}

/// Whatever the threads do and in whatever order, the word counts who is
/// inside the box. It does for a new box; a reader's exchange (the only
/// kind that [`law_reader_steps`] lets a reader make) that succeeds adds a
/// reader and finds no writer inside; a writer's exchange (the only kinds
/// that [`law_writer_steps`] lets a writer make) that succeeds makes it the
/// only one inside; announcing and withdrawing leave who is inside alone; and
/// a reader or the writer leaving takes itself out. Readers are counted up to
/// `max_size() - 2` at once.
pub proof fn law_word_counts_holders(word: u64, readers: nat, writer: bool, x: u64, y: u64)
    requires
        counts_holders(word, readers, writer),
    ensures
        counts_holders(0, 0, false),
        word == x && (LockWord { bits: x }).spec_read_acquired() == Some(LockWord { bits: y }) && readers + 1
            < max_size() - 1 ==> !writer && counts_holders(y, readers + 1, false),
        word == x && ((x == 0 && y == max_size()) || (LockWord { bits: x }).spec_write_claimed() == Some(
            LockWord { bits: y },
        )) ==> readers == 0 && !writer && counts_holders(y, 0, true),
        counts_holders((LockWord { bits: word }).spec_with_pending().bits, readers, writer),
        counts_holders((LockWord { bits: word }).spec_without_pending().bits, readers, writer),
        readers >= 1 ==> counts_holders((LockWord { bits: word }).spec_read_released().bits, (readers - 1) as nat, writer),
        writer ==> counts_holders((LockWord { bits: word }).spec_write_released().bits, readers, false),
{
    law_transitions_keep_wf(LockWord { bits: word });
}


/// A writer that reads the clock after a wait gives up only when its caller
/// gave a positive limit `t` and either the wait ran out or `t`
/// milliseconds have passed; then it first withdraws its announcement.
/// Otherwise it keeps trying: it reads the word again, or first reports a
/// stall once when it has waited more than `STALL_REPORT_MS`.
pub proof fn law_writer_after_wait(w: WriteAcquire, elapsed: u128)
    requires
        w.phase == WritePhase::ClockAfterWait,
    ensures
        (w.policy.time_out matches Some(t) && t > 0 && (w.timed_out || t <= elapsed)) ==> w.spec_step(
            AcquireEvent::Clock(elapsed),
        ) == (WriteAcquire { phase: WritePhase::WithdrawToGiveUp(Some(elapsed)), ..w }, AcquireAction::Withdraw),
        !(w.policy.time_out matches Some(t) && t > 0 && (w.timed_out || t <= elapsed)) ==> {
            let (n, a) = w.spec_step(AcquireEvent::Clock(elapsed));
            &&& !(a is Withdraw) && !(a is GiveUp)
            &&& (w.stall_reported || elapsed <= STALL_REPORT_MS) ==> a == AcquireAction::Load && n.phase
                == WritePhase::Loading
            &&& (!w.stall_reported && elapsed > STALL_REPORT_MS) ==> a == AcquireAction::ReportStall(
                elapsed,
                w.last_seen,
            ) && n.stall_reported
            &&& n.policy == w.policy
        },
{
}

/// A reader woken from a wait gives up only when its caller gave a positive
/// limit `t` and either the wait ran out or `t` milliseconds had passed when
/// the wait began; otherwise it reads the word again.
pub proof fn law_reader_after_wait(r: ReadAcquire, timed_out: bool)
    requires
        r.phase == ReadPhase::Waiting,
    ensures
        (r.policy.time_out matches Some(t) && t > 0 && (timed_out || t <= r.waited_at)) ==> r.spec_step(
            AcquireEvent::Woke(timed_out),
        ).1 == AcquireAction::GiveUp(None),
        !(r.policy.time_out matches Some(t) && t > 0 && (timed_out || t <= r.waited_at)) ==> r.spec_step(
            AcquireEvent::Woke(timed_out),
        ) == (ReadAcquire { phase: ReadPhase::Loading, ..r }, AcquireAction::Load),
{
}

/// A reader is always ready for the answer to what it just did: it starts
/// awaiting the word it asked for, and after every step it awaits every
/// answer that its new action may get (the word after a load, the outcome
/// of an exchange, `Done` after spinning, the state of the backoff, the
/// clock, the end of a wait). Only `Acquired` and `GiveUp` await nothing.
pub proof fn law_reader_awaits_its_answers(
    time_out: Option<i64>,
    m: ReadAcquire,
    event: AcquireEvent,
    word: u64,
    answer: AcquireEvent,
)
    requires
        m.awaits(event),
    ensures
        solo_answer(word, AcquireAction::Load, answer) ==> ReadAcquire::spec_start(time_out).awaits(answer),
        solo_answer(word, m.spec_step(event).1, answer) ==> m.spec_step(event).0.awaits(answer),
        (m.spec_step(event).1 is Snooze) ==> m.spec_step(event).0.awaits(AcquireEvent::Done),
        (m.spec_step(event).1 is Load) ==> m.spec_step(event).0.awaits(AcquireEvent::Loaded(word)),
        (m.spec_step(event).1 is Acquired || m.spec_step(event).1 is GiveUp) ==> !m.spec_step(event).0.awaits(
            answer,
        ),
{
}

/// A writer is always ready for the answer to what it just did: it starts
/// awaiting the outcome of its first exchange, and after every step it
/// awaits every answer that its new action may get. Only `Acquired` and
/// `GiveUp` await nothing.
pub proof fn law_writer_awaits_its_answers(
    time_out: Option<i64>,
    m: WriteAcquire,
    event: AcquireEvent,
    word: u64,
    answer: AcquireEvent,
)
    requires
        m.awaits(event),
    ensures
        solo_answer(word, AcquireAction::Swap(0, max_size()), answer) ==> WriteAcquire::spec_start(
            time_out,
        ).awaits(answer),
        solo_answer(word, m.spec_step(event).1, answer) ==> m.spec_step(event).0.awaits(answer),
        (m.spec_step(event).1 is Snooze || m.spec_step(event).1 is Announce || m.spec_step(event).1 is Withdraw
            || m.spec_step(event).1 is ReportStall) ==> m.spec_step(event).0.awaits(AcquireEvent::Done),
        (m.spec_step(event).1 is Load) ==> m.spec_step(event).0.awaits(AcquireEvent::Loaded(word)),
        (m.spec_step(event).1 is Acquired || m.spec_step(event).1 is GiveUp) ==> !m.spec_step(event).0.awaits(
            answer,
        ),
{
}


/// How a reader answers each outcome: a word below `max_size()` is met
/// with an exchange for one reader more; a failed attempt is retried at once
/// the first time and goes to the backoff later; an unfinished backoff
/// spins and reloads, a finished one reads the clock; with a positive limit
/// `t` it waits the time left until `t` or gives up at `t`, and without one
/// it waits its policy's wait.
pub proof fn law_reader_reactions(r: ReadAcquire, word: u64, ok: bool, seen: u64, done: bool, elapsed: u128)
    ensures
        r.phase == ReadPhase::Loading && word < max_size() ==> r.spec_step(AcquireEvent::Loaded(word)) == (
            ReadAcquire { phase: ReadPhase::Swapping, ..r },
            AcquireAction::Swap(word, (word + 1) as u64),
        ),
        r.phase == ReadPhase::Loading && word >= max_size() ==> r.spec_step(AcquireEvent::Loaded(word)) == (if r.first {
            (ReadAcquire { phase: ReadPhase::Loading, first: false, ..r }, AcquireAction::Load)
        } else {
            (ReadAcquire { phase: ReadPhase::Backoff, ..r }, AcquireAction::CheckBackoff)
        }),
        r.phase == ReadPhase::Swapping && ok ==> r.spec_step(AcquireEvent::Swapped(ok, seen)).1
            == AcquireAction::Acquired,
        r.phase == ReadPhase::Swapping && !ok ==> r.spec_step(AcquireEvent::Swapped(ok, seen)).1 == (if r.first {
            AcquireAction::Load
        } else {
            AcquireAction::CheckBackoff
        }),
        r.phase == ReadPhase::Backoff ==> r.spec_step(AcquireEvent::BackoffCompleted(done)).1 == (if done {
            AcquireAction::ReadClock
        } else {
            AcquireAction::Snooze
        }),
        r.phase == ReadPhase::Snoozing ==> r.spec_step(AcquireEvent::Done).1 == AcquireAction::Load,
        r.phase == ReadPhase::Clock && !(r.policy.time_out matches Some(t) && t > 0) ==> r.spec_step(
            AcquireEvent::Clock(elapsed),
        ).1 == AcquireAction::Wait(r.policy.wait_ms),
        r.phase == ReadPhase::Clock && (r.policy.time_out matches Some(t) && t > 0 && t > elapsed) ==> (r.spec_step(
            AcquireEvent::Clock(elapsed),
        ) matches (n, AcquireAction::Wait(ms)) && n.waited_at == elapsed && ms + elapsed == r.policy.time_out->0),
        r.phase == ReadPhase::Clock && (r.policy.time_out matches Some(t) && t > 0 && t <= elapsed) ==> r.spec_step(
            AcquireEvent::Clock(elapsed),
        ).1 == AcquireAction::GiveUp(None),
{
}

/// How a writer answers each outcome: a free box taken at once is acquired,
/// otherwise it announces itself; it re-announces while the word is below
/// `max_size()` and claims the box by exchanging `lock_flag()` for
/// `lock_mask()`; a successful claim withdraws the announcement and then
/// acquires; a failed one remembers the word it found and goes to the
/// backoff; the backoff spins and reloads or reads the clock; with a
/// positive limit `t` it waits the time left until `t` or withdraws and gives
/// up at `t`, without one it waits its policy's wait; after a wait it reads
/// the clock, remembering whether the wait ran out.
pub proof fn law_writer_reactions(m: WriteAcquire, word: u64, ok: bool, seen: u64, done: bool, elapsed: u128)
    ensures
        m.phase == WritePhase::FastSwap ==> m.spec_step(AcquireEvent::Swapped(ok, seen)).1 == (if ok {
            AcquireAction::Acquired
        } else {
            AcquireAction::Announce
        }),
        m.phase == WritePhase::Announcing ==> m.spec_step(AcquireEvent::Done).1 == AcquireAction::Load,
        m.phase == WritePhase::Loading ==> m.spec_step(AcquireEvent::Loaded(word)).1 == (if word < max_size() {
            AcquireAction::Announce
        } else {
            AcquireAction::Swap(lock_flag(), lock_mask())
        }),
        m.phase == WritePhase::Reannouncing ==> m.spec_step(AcquireEvent::Done).1 == AcquireAction::Swap(
            lock_flag(),
            lock_mask(),
        ),
        m.phase == WritePhase::Claiming && ok ==> m.spec_step(AcquireEvent::Swapped(ok, seen)).1
            == AcquireAction::Withdraw && m.spec_step(AcquireEvent::Swapped(ok, seen)).0.spec_step(
            AcquireEvent::Done,
        ).1 == AcquireAction::Acquired,
        m.phase == WritePhase::Claiming && !ok ==> m.spec_step(AcquireEvent::Swapped(ok, seen)).1
            == AcquireAction::CheckBackoff && m.spec_step(AcquireEvent::Swapped(ok, seen)).0.last_seen == seen,
        m.phase == WritePhase::Backoff ==> m.spec_step(AcquireEvent::BackoffCompleted(done)).1 == (if done {
            AcquireAction::ReadClock
        } else {
            AcquireAction::Snooze
        }),
        m.phase == WritePhase::Snoozing ==> m.spec_step(AcquireEvent::Done).1 == AcquireAction::Load,
        m.phase == WritePhase::Reporting ==> m.spec_step(AcquireEvent::Done).1 == AcquireAction::Load,
        m.phase == WritePhase::Clock && !(m.policy.time_out matches Some(t) && t > 0) ==> m.spec_step(
            AcquireEvent::Clock(elapsed),
        ).1 == AcquireAction::Wait(m.policy.wait_ms),
        m.phase == WritePhase::Clock && (m.policy.time_out matches Some(t) && t > 0 && t > elapsed) ==> (m.spec_step(
            AcquireEvent::Clock(elapsed),
        ).1 matches AcquireAction::Wait(ms) && ms + elapsed == m.policy.time_out->0),
        m.phase == WritePhase::Clock && (m.policy.time_out matches Some(t) && t > 0 && t <= elapsed) ==> m.spec_step(
            AcquireEvent::Clock(elapsed),
        ).1 == AcquireAction::Withdraw && m.spec_step(AcquireEvent::Clock(elapsed)).0.spec_step(AcquireEvent::Done).1
            == AcquireAction::GiveUp(None),
        m.phase == WritePhase::Waiting ==> m.spec_step(AcquireEvent::Woke(done)).1 == AcquireAction::ReadClock
            && m.spec_step(AcquireEvent::Woke(done)).0.timed_out == done,
{
}

/// Without a limit an acquisition waits 500 ms at a time; with a limit `t`
/// its first wait is `t` milliseconds.
pub proof fn law_initial_wait(t: i64)
    ensures
        WaitPolicy::spec_new(None).wait_ms == 500,
        WaitPolicy::spec_new(Some(t)).wait_ms == t as u64,
        WaitPolicy::spec_new(Some(t)).time_out == Some(t),
{
}

} // verus!
