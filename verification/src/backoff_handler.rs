//! Binary exponential backoff with jitter.
//!
//! Each failed attempt doubles the base pause and adds up to 255 µs of
//! jitter. When the attempt count reaches the cap the scheduler gives up and
//! starts over from zero.

use vstd::prelude::*;
use vstd::arithmetic::power2::*;
use vstd::bits::*;
use crate::async_timer::{
    lemma_ticks_monotonic, ticks_in, AsyncBasicTimer, TimerError, TimerPoll,
};

verus! {

/// Attempts after which the scheduler gives up.
pub const BACKOFF_CAP: u16 = 5;

/// The unit that the exponential component doubles, in microseconds.
pub const BACKOFF_BASE_US: u64 = 1000;

/// The largest jitter added to a pause, in microseconds.
pub const BACKOFF_JITTER_MAX_US: u64 = 255;

/// The largest cap for which every pause fits 64 bits with room to spare.
pub const MAX_BACKOFF_CAP: u16 = 32;

/// The exponential component of the pause after `attempts` failed attempts.
pub open spec fn exponential_delay(attempts: nat) -> nat {
    BACKOFF_BASE_US as nat * pow2(attempts)
}

/// The jitter drawn from one word of entropy: its low byte.
pub open spec fn jitter(entropy: u64) -> nat {
    (entropy % 256) as nat
}

/// The pause after `attempts` failed attempts with the given entropy.
pub open spec fn backoff_delay(attempts: nat, entropy: u64) -> nat {
    exponential_delay(attempts) + jitter(entropy)
}

/// The longest pause that a scheduler with cap `cap` can ask for.
pub open spec fn longest_delay(cap: u16) -> nat {
    if cap >= 2 {
        exponential_delay((cap - 1) as nat) + BACKOFF_JITTER_MAX_US as nat
    } else {
        0
    }
}

/// The exponential component under a valid cap is far below the 64-bit
/// limit.
pub proof fn lemma_exponential_bound(attempts: nat)
    requires
        attempts < MAX_BACKOFF_CAP,
    ensures
        exponential_delay(attempts) <= 1000 * 0x8000_0000,
{
    lemma2_to64();
    if attempts < 31 {
        lemma_pow2_strictly_increases(attempts, 31);
    }
    assert(1000 * pow2(attempts) <= 1000 * 0x8000_0000) by (nonlinear_arith)
        requires
            pow2(attempts) <= 0x8000_0000,
    ;
}

/// Every pause under a valid cap is far below the 64-bit limit, and pauses
/// grow with the attempt count.
pub proof fn lemma_delay_bounds(attempts: nat, cap: u16, entropy: u64)
    requires
        attempts < cap <= MAX_BACKOFF_CAP,
        1 <= attempts,
    ensures
        exponential_delay(attempts) <= 1000 * 0x8000_0000,
        backoff_delay(attempts, entropy) <= longest_delay(cap),
        longest_delay(cap) <= 1000 * 0x8000_0000 + 255,
{
    lemma2_to64();
    let top = (cap - 1) as nat;
    if attempts < top {
        lemma_pow2_strictly_increases(attempts, top);
    }
    if top < 31 {
        lemma_pow2_strictly_increases(top, 31);
    }
    assert(pow2(attempts) <= pow2(top) <= 0x8000_0000);
    assert(1000 * pow2(attempts) <= 1000 * pow2(top) <= 1000 * 0x8000_0000) by (nonlinear_arith)
        requires
            pow2(attempts) <= pow2(top) <= 0x8000_0000,
    ;
}

/// Where a station stands in its retries.
#[derive(Debug, Clone, Copy, PartialEq, Eq, Structural)]
pub struct BackoffState {
    pub in_backoff_state: bool,
    pub number_backoffs_attempted: u16,
    pub max_backoffs: u16,
}

impl Default for BackoffState {
    fn default() -> (state: Self)
        ensures
            state == (BackoffState {
                in_backoff_state: false,
                number_backoffs_attempted: 0,
                max_backoffs: BACKOFF_CAP,
            }),
    {
        BackoffState { in_backoff_state: false, number_backoffs_attempted: 0, max_backoffs: BACKOFF_CAP }
    }
}

impl BackoffState {
    /// The attempt count stays below the cap, and the cap is one that the
    /// arithmetic supports.
    pub open spec fn wf(self) -> bool {
        &&& self.max_backoffs <= MAX_BACKOFF_CAP
        &&& (self.number_backoffs_attempted < self.max_backoffs || self.number_backoffs_attempted
            == 0)
    }

    /// This state with the retries forgotten.
    pub open spec fn cleared(self) -> BackoffState {
        BackoffState { in_backoff_state: false, number_backoffs_attempted: 0, ..self }
    }

    /// Forgets the retries. The cap stays.
    pub fn clear(&mut self)
        ensures
            *final(self) == old(self).cleared(),
    {
        self.in_backoff_state = false;
        self.number_backoffs_attempted = 0;
    }
}

/// The backoff scheduler: the retry state and the one-shot timer that
/// enforces the pauses.
#[derive(Debug, Clone, Copy, PartialEq, Eq, Structural)]
pub struct BackoffHandler {
    pub timer: AsyncBasicTimer,
    pub state: BackoffState,
}

impl BackoffHandler {
    /// The state is valid and the timer can represent the longest pause.
    pub open spec fn wf(self) -> bool {
        &&& self.state.wf()
        &&& longest_delay(self.state.max_backoffs) <= u64::MAX
        &&& self.timer.in_range(longest_delay(self.state.max_backoffs) as u64)
    }

    /// A fresh scheduler on `timer`, if the timer can represent the longest
    /// pause of the default schedule.
    pub open spec fn new_spec(timer: AsyncBasicTimer) -> Result<BackoffHandler, TimerError> {
        if timer.in_range(longest_delay(BACKOFF_CAP) as u64) {
            Ok(
                BackoffHandler {
                    timer,
                    state: BackoffState {
                        in_backoff_state: false,
                        number_backoffs_attempted: 0,
                        max_backoffs: BACKOFF_CAP,
                    },
                },
            )
        } else {
            Err(TimerError::OutOfRange)
        }
    }

    /// The scheduler after one more failed attempt with the given entropy,
    /// and what it reports: the pause it armed the timer for, or that it gave
    /// up.
    pub open spec fn incremented(self, entropy: u64) -> (BackoffHandler, Result<u64, ()>) {
        let attempts = self.state.number_backoffs_attempted + 1;
        if attempts >= self.state.max_backoffs {
            (BackoffHandler { state: self.state.cleared(), ..self }, Err(()))
        } else {
            let delay = backoff_delay(attempts as nat, entropy) as u64;
            (
                BackoffHandler {
                    state: BackoffState {
                        in_backoff_state: true,
                        number_backoffs_attempted: attempts as u16,
                        ..self.state
                    },
                    timer: self.timer.armed_with(self.timer.ticks_for(delay) as u16),
                },
                Ok(delay),
            )
        }
    }

    /// The scheduler after one poll of its pending pause, and what the poll
    /// found; an error if no pause is pending.
    pub open spec fn resumed(self) -> (BackoffHandler, Result<TimerPoll, ()>) {
        if self.timer.initialized {
            (BackoffHandler { timer: self.timer.polled().0, ..self }, Ok(self.timer.polled().1))
        } else {
            (self, Err(()))
        }
    }

    /// A scheduler with no failed attempts and the default cap, on `timer`.
    /// Fails if the timer cannot represent the longest pause of the
    /// schedule.
    pub fn new(timer: AsyncBasicTimer) -> (handler: Result<Self, TimerError>)
        ensures
            handler == Self::new_spec(timer),
            handler is Ok ==> handler->Ok_0.wf(),
    {
        proof {
            lemma2_to64();
        }
        assert(1000u64 << 4u64 == 16_000u64) by (bit_vector);
        let longest: u64 = (BACKOFF_BASE_US << 4u64) + BACKOFF_JITTER_MAX_US;
        assert(longest == longest_delay(BACKOFF_CAP));
        match timer.to_ticks(longest) {
            Some(_) => Ok(BackoffHandler { timer, state: BackoffState::default() }),
            None => Err(TimerError::OutOfRange),
        }
    }

    /// Whether this scheduler is valid: a check for callers that cannot
    /// know it otherwise.
    pub fn is_valid(&self) -> (valid: bool)
        ensures
            valid == self.wf(),
    {
        let cap: u16 = self.state.max_backoffs;
        let attempts: u16 = self.state.number_backoffs_attempted;
        if cap > MAX_BACKOFF_CAP || (attempts >= cap && attempts != 0) {
            return false;
        }
        if cap < 2 {
            assert(ticks_in(0, self.timer.rate()) == 0);
            return true;
        }
        let shift: u64 = (cap - 1) as u64;
        proof {
            lemma_exponential_bound(shift as nat);
            lemma_u64_shl_is_mul(BACKOFF_BASE_US, shift);
        }
        let longest: u64 = (BACKOFF_BASE_US << shift) + BACKOFF_JITTER_MAX_US;
        self.timer.to_ticks(longest).is_some()
    }

    /// Counts one more failed attempt. Below the cap it arms the timer for
    /// the next pause and returns that pause in microseconds; at the cap it
    /// forgets the retries and reports that it gave up.
    pub fn increment_backoff(&mut self, entropy: u64) -> (outcome: Result<u64, ()>)
        requires
            old(self).wf(),
        ensures
            (*final(self), outcome) == old(self).incremented(entropy),
            final(self).wf(),
    {
        self.state.in_backoff_state = true;
        self.state.number_backoffs_attempted += 1;
        if self.state.number_backoffs_attempted >= self.state.max_backoffs {
            self.state.clear();
            Err(())
        } else {
            let to_wait = self.calculate_backoff(entropy);
            proof {
                let attempts = self.state.number_backoffs_attempted as nat;
                lemma_delay_bounds(attempts, self.state.max_backoffs, entropy);
                lemma_ticks_monotonic(
                    to_wait as nat,
                    longest_delay(self.state.max_backoffs),
                    self.timer.rate(),
                );
            }
            let armed = self.timer.duration(to_wait);
            assert(armed is Ok);
            Ok(to_wait)
        }
    }

    /// Polls the pending pause. Fails if the timer is not armed.
    pub fn resume_backoff(&mut self) -> (outcome: Result<TimerPoll, ()>)
        ensures
            (*final(self), outcome) == old(self).resumed(),
    {
        match self.timer.get_handle() {
            Some(_) => Ok(self.timer.poll()),
            None => Err(()),
        }
    }

    /// The pause for the current attempt count: the exponential component
    /// plus the jitter drawn from `entropy`.
    pub fn calculate_backoff(&self, entropy: u64) -> (delay: u64)
        requires
            self.state.number_backoffs_attempted < MAX_BACKOFF_CAP,
        ensures
            delay == backoff_delay(self.state.number_backoffs_attempted as nat, entropy),
    {
        proof {
            lemma_exponential_bound(self.state.number_backoffs_attempted as nat);
        }
        self.exponential_component() + self.random_component(entropy) as u64
    }

    /// The base pause shifted left by the attempt count.
    pub fn exponential_component(&self) -> (base: u64)
        requires
            self.state.number_backoffs_attempted < MAX_BACKOFF_CAP,
        ensures
            base == exponential_delay(self.state.number_backoffs_attempted as nat),
    {
        let shift: u64 = self.state.number_backoffs_attempted as u64;
        proof {
            lemma_exponential_bound(shift as nat);
            lemma_u64_shl_is_mul(BACKOFF_BASE_US, shift);
        }
        BACKOFF_BASE_US << shift
    }

    /// The low byte of one word of entropy.
    pub fn random_component(&self, entropy: u64) -> (low: u8)
        ensures
            low == jitter(entropy),
    {
        (entropy % 256) as u8
    }

    /// Forgets the retries. The timer is left as it is.
    pub fn clear(&mut self)
        ensures
            *final(self) == (BackoffHandler { state: old(self).state.cleared(), ..*old(self) }),
    {
        self.state.clear();
    }
}

} // verus!
