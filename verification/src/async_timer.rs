//! A one-shot countdown timer as a suspendable wait.
//!
//! The timer counts at `clock_hz / (psc + 1)` ticks per second and reloads
//! from a 16-bit register. The type below holds the flags that the waiting
//! task and the interrupt handler share, and decides what the hardware is to
//! be told; the caller touches the registers.

use vstd::prelude::*;

verus! {

pub const MICROS_PER_SECOND: u64 = 1_000_000;

/// The largest value of the reload register.
pub const MAX_RELOAD: u16 = 0xFFFF;

/// The only way arming can fail: the duration is not representable in the
/// reload register at the configured counting rate.
#[derive(Debug, Clone, Copy, PartialEq, Eq, Structural)]
pub enum TimerError {
    OutOfRange,
}

/// What one poll of an armed timer found.
#[derive(Debug, Clone, Copy, PartialEq, Eq, Structural)]
pub enum TimerPoll {
    /// First poll since arming: the waker is to be stored and the counter
    /// started. The caller stays suspended.
    Started,
    /// The counter runs and has not expired. The caller stays suspended.
    Pending,
    /// The interrupt has fired. The wait is over and the timer is disarmed.
    Ready,
}

/// A handle to an armed timer: the reload value it was armed with.
#[derive(Debug, Clone, Copy, PartialEq, Eq, Structural)]
pub struct TimerFuture {
    pub ticks: u16,
}

/// Ticks per second of a counter fed by `clock_hz` through a prescaler that
/// divides by `psc + 1`.
pub open spec fn counter_hz(clock_hz: u32, psc: u16) -> nat {
    (clock_hz as nat) / ((psc as nat) + 1)
}

/// The whole number of ticks that fit into `duration_us` microseconds at
/// `hz` ticks per second.
pub open spec fn ticks_in(duration_us: nat, hz: nat) -> nat {
    duration_us * hz / 1_000_000
}

/// A longer duration never asks for fewer ticks.
pub proof fn lemma_ticks_monotonic(shorter_us: nat, longer_us: nat, hz: nat)
    requires
        shorter_us <= longer_us,
    ensures
        ticks_in(shorter_us, hz) <= ticks_in(longer_us, hz),
{
    assert(shorter_us * hz <= longer_us * hz) by (nonlinear_arith)
        requires
            shorter_us <= longer_us,
    ;
    assert(shorter_us * hz / 1_000_000 <= longer_us * hz / 1_000_000) by (nonlinear_arith)
        requires
            shorter_us * hz <= longer_us * hz,
    ;
}

/// The tick count is the requested duration rounded down to the counter's
/// resolution: the programmed time is never longer than asked for and falls
/// short of it by less than one tick.
pub proof fn law_ticks_round_down(duration_us: nat, hz: nat)
    ensures
        ticks_in(duration_us, hz) * 1_000_000 <= duration_us * hz,
        duration_us * hz < (ticks_in(duration_us, hz) + 1) * 1_000_000,
{
    let product = duration_us * hz;
    assert(0 <= product) by (nonlinear_arith)
        requires
            product == duration_us * hz,
    ;
    assert((product / 1_000_000) * 1_000_000 <= product < (product / 1_000_000 + 1)
        * 1_000_000) by (nonlinear_arith)
        requires
            0 <= product,
    ;
}

/// At the reference rate of one tick per microsecond, behind a prescaler
/// that divides by one, the tick count is the duration itself.
pub proof fn law_ticks_at_one_megahertz(duration_us: nat)
    ensures
        counter_hz(1_000_000, 0) == 1_000_000,
        ticks_in(duration_us, 1_000_000) == duration_us,
{
    assert(1_000_000nat / 1 == 1_000_000);
    assert(duration_us * 1_000_000 / 1_000_000 == duration_us) by (nonlinear_arith);
}

/// The flags that the owning task and the interrupt handler share, with the
/// clock configuration that durations are converted by.
#[derive(Debug, Clone, Copy, PartialEq, Eq, Structural)]
pub struct AsyncBasicTimer {
    /// Frequency of the clock that feeds the timer, in hertz.
    pub clock_hz: u32,
    /// The prescaler register: the counter divides its clock by `psc + 1`.
    pub psc: u16,
    /// The reload register.
    pub reload: u16,
    /// Armed and not yet consumed by a completed wait.
    pub initialized: bool,
    /// The interrupt has fired since the timer was last armed.
    pub expired: bool,
    /// The counter has been started for the current arming.
    pub run_once: bool,
    /// A waker has been stored for the interrupt handler to wake.
    pub has_waker: bool,
}

impl AsyncBasicTimer {
    /// Ticks per second of this timer's counter.
    pub open spec fn rate(self) -> nat {
        counter_hz(self.clock_hz, self.psc)
    }

    /// Ticks that this timer needs for `duration_us` microseconds.
    pub open spec fn ticks_for(self, duration_us: u64) -> nat {
        ticks_in(duration_us as nat, self.rate())
    }

    /// Whether `duration_us` fits the reload register.
    pub open spec fn in_range(self, duration_us: u64) -> bool {
        self.ticks_for(duration_us) <= MAX_RELOAD
    }

    /// This timer armed afresh with `ticks`.
    pub open spec fn armed_with(self, ticks: u16) -> AsyncBasicTimer {
        AsyncBasicTimer { reload: ticks, initialized: true, expired: false, run_once: false, ..self }
    }

    /// This timer after one poll, with what the poll found.
    pub open spec fn polled(self) -> (AsyncBasicTimer, TimerPoll) {
        if !self.run_once {
            (AsyncBasicTimer { run_once: true, has_waker: true, ..self }, TimerPoll::Started)
        } else if self.expired {
            (AsyncBasicTimer { initialized: false, expired: false, ..self }, TimerPoll::Ready)
        } else {
            (self, TimerPoll::Pending)
        }
    }

    /// This timer after its interrupt has fired.
    pub open spec fn fired(self) -> AsyncBasicTimer {
        AsyncBasicTimer { expired: true, ..self }
    }

    /// A disarmed timer on a clock of `clock_hz` hertz behind prescaler
    /// register `psc`.
    pub fn new(clock_hz: u32, psc: u16) -> (timer: Self)
        ensures
            timer == (AsyncBasicTimer {
                clock_hz,
                psc,
                reload: 0,
                initialized: false,
                expired: false,
                run_once: false,
                has_waker: false,
            }),
    {
        AsyncBasicTimer {
            clock_hz,
            psc,
            reload: 0,
            initialized: false,
            expired: false,
            run_once: false,
            has_waker: false,
        }
    }

    /// The factor by which the prescaler divides the clock.
    pub fn prescaler(&self) -> (factor: u32)
        ensures
            factor == self.psc + 1,
    {
        self.psc as u32 + 1
    }

    /// Converts a duration to reload ticks, or reports that it does not fit
    /// the 16-bit register.
    pub fn to_ticks(&self, duration_us: u64) -> (ticks: Option<u16>)
        ensures
            self.in_range(duration_us) ==> ticks == Some(self.ticks_for(duration_us) as u16),
            !self.in_range(duration_us) ==> ticks is None,
    {
        let freq: u32 = self.clock_hz / self.prescaler();
        assert(freq as nat == self.rate());
        let wide_us: u128 = duration_us as u128;
        let wide_freq: u128 = freq as u128;
        assert(wide_us * wide_freq <= 0xFFFF_FFFF_FFFF_FFFF * 0xFFFF_FFFF) by (nonlinear_arith)
            requires
                0 <= wide_us <= 0xFFFF_FFFF_FFFF_FFFF,
                0 <= wide_freq <= 0xFFFF_FFFF,
        ;
        let product: u128 = wide_us * wide_freq;
        let ticks: u128 = product / (MICROS_PER_SECOND as u128);
        assert(ticks as nat == self.ticks_for(duration_us));
        if ticks <= MAX_RELOAD as u128 {
            Some(ticks as u16)
        } else {
            None
        }
    }

    /// Arms the timer for `duration_us` microseconds and hands out the handle
    /// to wait on. A duration that does not fit the reload register leaves
    /// the timer exactly as it was.
    pub fn duration(&mut self, duration_us: u64) -> (handle: Result<TimerFuture, TimerError>)
        ensures
            old(self).in_range(duration_us) ==> {
                &&& handle == Ok::<TimerFuture, TimerError>(
                    TimerFuture { ticks: old(self).ticks_for(duration_us) as u16 },
                )
                &&& *final(self) == old(self).armed_with(old(self).ticks_for(duration_us) as u16)
            },
            !old(self).in_range(duration_us) ==> {
                &&& handle == Err::<TimerFuture, TimerError>(TimerError::OutOfRange)
                &&& *final(self) == *old(self)
            },
    {
        match self.to_ticks(duration_us) {
            Some(ticks) => {
                self.reload = ticks;
                self.initialized = true;
                self.expired = false;
                self.run_once = false;
                Ok(TimerFuture { ticks })
            },
            None => Err(TimerError::OutOfRange),
        }
    }

    /// A fresh handle to the timer if it is armed and its wait has not
    /// completed; `None` otherwise.
    pub fn get_handle(&self) -> (handle: Option<TimerFuture>)
        ensures
            handle == (if self.initialized {
                Some(TimerFuture { ticks: self.reload })
            } else {
                None
            }),
    {
        if self.initialized {
            Some(TimerFuture { ticks: self.reload })
        } else {
            None
        }
    }

    /// One poll of the wait. The first poll after arming asks for the counter
    /// to be started; a poll after the interrupt completes the wait and
    /// disarms the timer; any other poll changes nothing.
    pub fn poll(&mut self) -> (found: TimerPoll)
        ensures
            (*final(self), found) == old(self).polled(),
    {
        if !self.run_once {
            self.has_waker = true;
            self.run_once = true;
            TimerPoll::Started
        } else if self.expired {
            self.initialized = false;
            self.expired = false;
            TimerPoll::Ready
        } else {
            TimerPoll::Pending
        }
    }

    /// The interrupt handler's part: records the expiry. Returns whether a
    /// stored waker is to be woken.
    pub fn handler(&mut self) -> (wake: bool)
        ensures
            *final(self) == old(self).fired(),
            wake == old(self).has_waker,
    {
        self.expired = true;
        self.has_waker
    }
}

/// Arming, the interrupt and the acknowledging poll take a disarmed timer
/// through armed-and-counting and armed-and-expired back to disarmed, and the
/// wait completes at that last poll and not before.
pub proof fn law_timer_cycle(timer: AsyncBasicTimer, ticks: u16)
    ensures
        ({
            let armed = timer.armed_with(ticks);
            let (started, first) = armed.polled();
            let (waiting, second) = started.polled();
            let expired = waiting.fired();
            let (acked, third) = expired.polled();
            &&& armed.initialized && !armed.expired
            &&& first == TimerPoll::Started && second == TimerPoll::Pending
            &&& expired.initialized && expired.expired
            &&& third == TimerPoll::Ready
            &&& !acked.initialized && !acked.expired
            &&& acked.reload == ticks
        }),
{
}

/// A wait never completes before the interrupt: a poll of a timer that has
/// not expired is not ready, and leaves the timer unexpired and armed as
/// it was.
pub proof fn law_no_early_completion(timer: AsyncBasicTimer)
    requires
        !timer.expired,
    ensures
        !(timer.polled().1 is Ready),
        !timer.polled().0.expired,
        timer.polled().0.initialized == timer.initialized,
        timer.polled().0.reload == timer.reload,
{
}

} // verus!
