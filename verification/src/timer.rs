//! A non-blocking count-down timer with a fixed tick frequency.
//!
//! [`TimerState`] is the timer as a state machine: every operation takes the
//! current monotonic time in nanoseconds as an argument and decides from it.
//! [`Timer`] binds one such state to the process's monotonic clock and offers
//! the same operations without a time argument.
//!
//! Both are described by [`TimerModel`], a plain mathematical record on which
//! the outcome of every operation is a function. The laws that follow from
//! these functions are proved in [`crate::laws`].
use vstd::prelude::*;
use crate::clock::MonotonicClock;
use crate::ticks::{tick_period_micros, ticks_to_nanos, TimerDuration, TimerInstant};

verus! {

/// `nb::Error`: either an error of the operation itself or the sign that the
/// operation cannot finish yet. Declared with its two variants, so that they
/// can be built and told apart here.
#[verifier::external_type_specification]
#[verifier::reject_recursive_types(E)]
pub struct ExNbError<E>(nb::Error<E>);

/// Why a timer refused an operation.
#[derive(Clone, Copy, Debug, PartialEq, Eq, Structural)]
pub enum TimerError {
    /// The timer was canceled before; it can never be used again.
    AlreadyCanceled,
    /// A new count-down was requested while the previous one was still
    /// running.
    StillArmed,
}

impl TimerError {
    /// The text that describes the error.
    pub open spec fn spec_message(self) -> Seq<char> {
        match self {
            TimerError::AlreadyCanceled => "Timer was already canceled"@,
            TimerError::StillArmed => "start() called but duration has not yet expired"@,
        }
    }

    /// A description of the error for people.
    pub fn message(&self) -> (text: String)
        ensures
            text@ == self.spec_message(),
    {
        match self {
            TimerError::AlreadyCanceled => "Timer was already canceled".to_owned(),
            TimerError::StillArmed => "start() called but duration has not yet expired".to_owned(),
        }
    }
}

/// The largest tick count that an instant holds.
pub open spec fn max_tick_count() -> nat {
    u64::MAX as nat
}

/// What a timer is, mathematically.
pub struct TimerModel {
    /// Ticks per second.
    pub hz: nat,
    /// Whether the timer is still usable. Once false it stays false.
    pub running: bool,
    /// The time at which the timer was built.
    pub epoch_ns: nat,
    /// The time at which the current count-down began.
    pub start_ns: nat,
    /// The length of the current count-down in ticks; zero while the timer
    /// has never been armed.
    pub duration_ticks: nat,
}

impl TimerModel {
    /// The timer as it is built at time `now_ns`: usable and not armed.
    pub open spec fn fresh(hz: nat, now_ns: nat) -> TimerModel {
        TimerModel { hz, running: true, epoch_ns: now_ns, start_ns: now_ns, duration_ticks: 0 }
    }

    /// Nanoseconds gone at time `now_ns` since the current count-down began;
    /// zero if `now_ns` lies before that.
    pub open spec fn elapsed_ns(self, now_ns: nat) -> nat {
        if now_ns >= self.start_ns {
            (now_ns - self.start_ns) as nat
        } else {
            0
        }
    }

    /// Nanoseconds gone at time `now_ns` since the timer was built; zero if
    /// `now_ns` lies before that.
    pub open spec fn uptime_ns(self, now_ns: nat) -> nat {
        if now_ns >= self.epoch_ns {
            (now_ns - self.epoch_ns) as nat
        } else {
            0
        }
    }

    /// The length of the current count-down in nanoseconds, rounded down.
    pub open spec fn required_ns(self) -> nat {
        ticks_to_nanos(self.hz, self.duration_ticks)
    }

    /// Whether a count-down has ever been started with a duration other than
    /// zero.
    pub open spec fn armed(self) -> bool {
        self.duration_ticks > 0
    }

    /// Whether at time `now_ns` a count-down is running that has not reached
    /// its end.
    pub open spec fn pending(self, now_ns: nat) -> bool {
        self.armed() && self.elapsed_ns(now_ns) < self.required_ns()
    }

    /// Whether at time `now_ns` the current count-down has reached its end.
    pub open spec fn expired(self, now_ns: nat) -> bool {
        self.armed() && self.elapsed_ns(now_ns) >= self.required_ns()
    }

    /// What `start` answers at time `now_ns`.
    pub open spec fn start_outcome(self, now_ns: nat) -> Result<(), TimerError> {
        if !self.running {
            Err(TimerError::AlreadyCanceled)
        } else if self.pending(now_ns) {
            Err(TimerError::StillArmed)
        } else {
            Ok(())
        }
    }

    /// The timer after `start` was asked at time `now_ns` for a count-down
    /// of `ticks` ticks: re-armed where the request was granted, unchanged
    /// where it was refused.
    pub open spec fn after_start(self, now_ns: nat, ticks: nat) -> TimerModel {
        if self.start_outcome(now_ns) is Ok {
            TimerModel { start_ns: now_ns, duration_ticks: ticks, ..self }
        } else {
            self
        }
    }

    /// What `cancel` answers.
    pub open spec fn cancel_outcome(self) -> Result<(), TimerError> {
        if self.running {
            Ok(())
        } else {
            Err(TimerError::AlreadyCanceled)
        }
    }

    /// The timer after `cancel`: never usable again, otherwise unchanged.
    pub open spec fn after_cancel(self) -> TimerModel {
        TimerModel { running: false, ..self }
    }

    /// What `wait` answers at time `now_ns`.
    pub open spec fn wait_outcome(self, now_ns: nat) -> Result<(), nb::Error<TimerError>> {
        if !self.running {
            Err(nb::Error::Other(TimerError::AlreadyCanceled))
        } else if self.expired(now_ns) {
            Ok(())
        } else {
            Err(nb::Error::WouldBlock)
        }
    }

    /// Whole ticks gone at time `now_ns` since the timer was built.
    ///
    /// Where a tick lasts at least one microsecond, the time gone is taken
    /// in whole microseconds and divided by the tick period in whole
    /// microseconds. Where a tick is shorter than that, above 1 MHz, the
    /// count is the number of whole ticks in the nanoseconds gone.
    pub open spec fn ticks_since_epoch(self, now_ns: nat) -> nat {
        if tick_period_micros(self.hz) > 0 {
            (self.uptime_ns(now_ns) / 1000) / tick_period_micros(self.hz)
        } else {
            (self.uptime_ns(now_ns) * self.hz) / 1_000_000_000
        }
    }

    /// What `now` reports at time `now_ns`: the ticks since the timer was
    /// built, and the largest count that an instant holds where they are
    /// more than that. A count of 64-bit nanoseconds goes beyond it only
    /// where a tick is shorter than a nanosecond.
    pub open spec fn now_ticks(self, now_ns: nat) -> nat {
        if self.ticks_since_epoch(now_ns) <= max_tick_count() {
            self.ticks_since_epoch(now_ns)
        } else {
            max_tick_count()
        }
    }

    /// By how many whole microseconds the time gone at `now_ns` exceeds the
    /// length of the current count-down; negative while it falls short.
    pub open spec fn overshoot_micros(self, now_ns: nat) -> int {
        lateness(self.elapsed_ns(now_ns), self.required_ns())
    }

    /// A timer built at time `now_ns` shows no tick at that time, is not
    /// ready, and grants a first `start` and a `cancel`.
    pub proof fn lemma_fresh(hz: nat, now_ns: nat, later_ns: nat)
        ensures
            TimerModel::fresh(hz, now_ns).ticks_since_epoch(now_ns) == 0,
            TimerModel::fresh(hz, now_ns).now_ticks(now_ns) == 0,
            TimerModel::fresh(hz, now_ns).start_outcome(later_ns) is Ok,
            TimerModel::fresh(hz, now_ns).cancel_outcome() is Ok,
            TimerModel::fresh(hz, now_ns).wait_outcome(later_ns) == Err::<
                (),
                nb::Error<TimerError>,
            >(nb::Error::WouldBlock),
    {
        let fresh = TimerModel::fresh(hz, now_ns);
        let period = tick_period_micros(hz);
        assert(fresh.uptime_ns(now_ns) == 0);
        if period > 0 {
            assert(0nat / period == 0) by (nonlinear_arith)
                requires
                    period > 0,
            ;
        } else {
            assert(0 * hz == 0) by (nonlinear_arith);
        }
    }
}

/// By how many whole microseconds `elapsed_ns` nanoseconds exceed
/// `required_ns` nanoseconds; negative where they fall short. Rounded
/// towards zero.
pub open spec fn lateness(elapsed_ns: nat, required_ns: nat) -> int {
    if elapsed_ns >= required_ns {
        (elapsed_ns - required_ns) / 1000
    } else {
        -((required_ns - elapsed_ns) / 1000)
    }
}

/// By how many whole microseconds a time gone of `elapsed_ns` nanoseconds
/// exceeds a duration of `required_ns` nanoseconds: the lateness of a poll
/// that found a count-down over. Negative where the time falls short.
pub fn lateness_micros(elapsed_ns: u64, required_ns: u64) -> (micros: i64)
    ensures
        micros == lateness(elapsed_ns as nat, required_ns as nat),
{
    if elapsed_ns >= required_ns {
        ((elapsed_ns - required_ns) / 1000) as i64
    } else {
        -(((required_ns - elapsed_ns) / 1000) as i64)
    }
}

/// The timer as a state machine over explicit timestamps.
///
/// Every operation is handed the current time in nanoseconds of one
/// monotonic clock. A timestamp that lies before the start of the current
/// count-down counts as no time gone.
#[derive(Clone, Copy, Debug)]
pub struct TimerState<const TIMER_HZ: u32> {
    running: bool,
    epoch_ns: u64,
    start_ns: u64,
    duration: TimerDuration<TIMER_HZ>,
    tick_duration: TimerDuration<TIMER_HZ>,
}

impl<const TIMER_HZ: u32> View for TimerState<TIMER_HZ> {
    type V = TimerModel;

    closed spec fn view(&self) -> TimerModel {
        TimerModel {
            hz: TIMER_HZ as nat,
            running: self.running,
            epoch_ns: self.epoch_ns as nat,
            start_ns: self.start_ns as nat,
            duration_ticks: self.duration@,
        }
    }
}

impl<const TIMER_HZ: u32> TimerState<TIMER_HZ> {
    /// The frequency is not zero and the stored tick period is one tick.
    pub closed spec fn wf(&self) -> bool {
        &&& TIMER_HZ > 0
        &&& self.tick_duration@ == 1
    }

    /// The stored period of the tick frequency, in ticks.
    pub closed spec fn tick_period(&self) -> nat {
        self.tick_duration@
    }

    /// The model of a well-formed timer has the frequency of its type, which
    /// is not zero, and its tick period is one tick.
    pub proof fn lemma_frequency(&self)
        requires
            self.wf(),
        ensures
            self@.hz == TIMER_HZ as nat,
            self@.hz > 0,
            self.tick_period() == 1,
    {
    }

    /// A usable, unarmed timer built at time `now_ns`. It shows no tick at
    /// that time.
    pub fn new(now_ns: u64) -> (state: Self)
        requires
            TIMER_HZ > 0,
        ensures
            state.wf(),
            state@ == TimerModel::fresh(TIMER_HZ as nat, now_ns as nat),
            state@.now_ticks(now_ns as nat) == 0,
    {
        proof {
            TimerModel::lemma_fresh(TIMER_HZ as nat, now_ns as nat, now_ns as nat);
        }
        TimerState {
            running: true,
            epoch_ns: now_ns,
            start_ns: now_ns,
            duration: TimerDuration::from_ticks(0),
            tick_duration: TimerDuration::tick_period(),
        }
    }

    /// The length of the current count-down; zero ticks while the timer has
    /// never been armed.
    pub fn duration(&self) -> (duration: TimerDuration<TIMER_HZ>)
        ensures
            duration@ == self@.duration_ticks,
    {
        self.duration
    }

    /// Nanoseconds gone at time `now_ns` since the current count-down began.
    pub fn elapsed_ns(&self, now_ns: u64) -> (elapsed: u64)
        ensures
            elapsed == self@.elapsed_ns(now_ns as nat),
    {
        now_ns.saturating_sub(self.start_ns)
    }

    /// The current time as a tick count since the timer was built. The
    /// count never starts over.
    ///
    /// Where a tick lasts at least one microsecond, both the time gone and
    /// the tick period are taken in whole microseconds before they are
    /// divided, so the count drifts from the true one where the period is
    /// not a whole number of microseconds. Above 1 MHz the count is the
    /// number of whole ticks in the nanoseconds gone.
    pub fn now(&self, now_ns: u64) -> (instant: TimerInstant<TIMER_HZ>)
        requires
            self.wf(),
        ensures
            instant@ == self@.now_ticks(now_ns as nat),
    {
        let uptime_ns: u64 = now_ns.saturating_sub(self.epoch_ns);
        let period_micros: u64 = self.tick_duration.to_micros();
        let ticks: u128 = if period_micros > 0 {
            ((uptime_ns / 1000) / period_micros) as u128
        } else {
            assert(uptime_ns * TIMER_HZ <= 0xffff_ffff_ffff_ffff * 0xffff_ffff) by (nonlinear_arith)
                requires
                    0 <= uptime_ns <= 0xffff_ffff_ffff_ffff,
                    0 <= TIMER_HZ <= 0xffff_ffff,
            ;
            (uptime_ns as u128 * TIMER_HZ as u128) / 1_000_000_000
        };
        if ticks > u64::MAX as u128 {
            TimerInstant::from_ticks(u64::MAX)
        } else {
            TimerInstant::from_ticks(ticks as u64)
        }
    }

    /// Begins a count-down of `duration` at time `now_ns`.
    ///
    /// Refused with `AlreadyCanceled` on a canceled timer, and with
    /// `StillArmed` while an earlier count-down has not reached its end;
    /// a refused request changes nothing.
    pub fn start(&mut self, now_ns: u64, duration: TimerDuration<TIMER_HZ>) -> (outcome: Result<
        (),
        TimerError,
    >)
        requires
            old(self).wf(),
        ensures
            final(self).wf(),
            outcome == old(self)@.start_outcome(now_ns as nat),
            final(self)@ == old(self)@.after_start(now_ns as nat, duration@),
    {
        if !self.running {
            return Err(TimerError::AlreadyCanceled);
        }
        if self.duration.ticks() > 0 && self.elapsed_ns(now_ns) < self.duration.to_nanos() {
            return Err(TimerError::StillArmed);
        }
        self.start_ns = now_ns;
        self.duration = duration;
        Ok(())
    }

    /// Disables the timer for good. Refused with `AlreadyCanceled` if that
    /// was done before.
    pub fn cancel(&mut self) -> (outcome: Result<(), TimerError>)
        requires
            old(self).wf(),
        ensures
            final(self).wf(),
            outcome == old(self)@.cancel_outcome(),
            final(self)@ == old(self)@.after_cancel(),
    {
        if self.running {
            self.running = false;
            Ok(())
        } else {
            Err(TimerError::AlreadyCanceled)
        }
    }

    /// Polls the count-down at time `now_ns`, without ever blocking.
    ///
    /// `Ok` once the count-down has reached its end, `WouldBlock` before
    /// that and on a timer that was never armed, `AlreadyCanceled` on a
    /// canceled timer. The timer is not re-armed.
    pub fn wait(&self, now_ns: u64) -> (outcome: Result<(), nb::Error<TimerError>>)
        requires
            self.wf(),
        ensures
            outcome == self@.wait_outcome(now_ns as nat),
    {
        if !self.running {
            return Err(nb::Error::Other(TimerError::AlreadyCanceled));
        }
        if self.duration.ticks() == 0 {
            return Err(nb::Error::WouldBlock);
        }
        if self.elapsed_ns(now_ns) < self.duration.to_nanos() {
            return Err(nb::Error::WouldBlock);
        }
        Ok(())
    }

    /// By how many whole microseconds the time gone at `now_ns` exceeds the
    /// length of the current count-down: the lateness of a poll that found
    /// the count-down over. Negative while it falls short.
    pub fn overshoot_micros(&self, now_ns: u64) -> (micros: i64)
        requires
            self.wf(),
        ensures
            micros == self@.overshoot_micros(now_ns as nat),
    {
        lateness_micros(self.elapsed_ns(now_ns), self.duration.to_nanos())
    }
}

/// A timer bound to the process's monotonic clock.
///
/// Each operation reads the clock once and then decides as [`TimerState`]
/// does at that reading. The reading is the timer's `latest_ns` after the
/// call; it never lies before the one of the call before.
pub struct Timer<const TIMER_HZ: u32> {
    clock: MonotonicClock,
    state: TimerState<TIMER_HZ>,
}

impl<const TIMER_HZ: u32> View for Timer<TIMER_HZ> {
    type V = TimerModel;

    closed spec fn view(&self) -> TimerModel {
        self.state@
    }
}

impl<const TIMER_HZ: u32> Timer<TIMER_HZ> {
    /// The clock reading of the latest operation that recorded one.
    pub closed spec fn latest_ns(&self) -> nat {
        self.clock.latest_ns()
    }

    /// The moment from which the timer's clock counts. No operation moves
    /// it.
    pub closed spec fn clock_origin(&self) -> std::time::Instant {
        self.clock.origin()
    }

    /// The state is well formed, and neither the timer's epoch nor the start
    /// of its count-down lies after the latest clock reading: time gone is
    /// never negative.
    pub closed spec fn wf(&self) -> bool {
        &&& self.state.wf()
        &&& self@.epoch_ns <= self@.start_ns <= self.latest_ns()
    }

    /// The stored period of the tick frequency, in ticks.
    pub closed spec fn tick_period(&self) -> nat {
        self.state.tick_period()
    }

    /// The model of a well-formed timer has the frequency of its type, which
    /// is not zero, and its tick period is one tick.
    pub proof fn lemma_frequency(&self)
        requires
            self.wf(),
        ensures
            self@.hz == TIMER_HZ as nat,
            self@.hz > 0,
            self.tick_period() == 1,
    {
        self.state.lemma_frequency();
    }

    /// A usable, unarmed timer whose epoch is the moment of the call. It
    /// shows no tick at the clock reading it was built at.
    pub fn new() -> (timer: Self)
        requires
            TIMER_HZ > 0,
        ensures
            timer.wf(),
            timer@ == TimerModel::fresh(TIMER_HZ as nat, timer.latest_ns()),
            timer@.now_ticks(timer.latest_ns()) == 0,
    {
        let mut clock = MonotonicClock::new();
        let now_ns: u64 = clock.now_ns();
        Timer { clock, state: TimerState::new(now_ns) }
    }

    /// The length of the current count-down; zero ticks while the timer has
    /// never been armed.
    pub fn duration(&self) -> (duration: TimerDuration<TIMER_HZ>)
        ensures
            duration@ == self@.duration_ticks,
    {
        self.state.duration()
    }

    /// Nanoseconds gone since the current count-down began, at a clock
    /// reading that does not lie before the latest recorded one. The reading
    /// is not recorded.
    pub fn elapsed_ns(&self) -> (elapsed: u64)
        requires
            self.wf(),
        ensures
            exists|now_ns: nat|
                self.latest_ns() <= now_ns <= u64::MAX && elapsed == #[trigger] self@.elapsed_ns(
                    now_ns,
                ),
    {
        let now_ns: u64 = self.clock.peek_ns();
        self.state.elapsed_ns(now_ns)
    }

    /// The current time as a tick count since the timer was built. See
    /// [`TimerState::now`] for how ticks are counted.
    pub fn now(&mut self) -> (instant: TimerInstant<TIMER_HZ>)
        requires
            old(self).wf(),
        ensures
            final(self).wf(),
            final(self)@ == old(self)@,
            final(self).latest_ns() >= old(self).latest_ns(),
            final(self).clock_origin() == old(self).clock_origin(),
            instant@ == old(self)@.now_ticks(final(self).latest_ns()),
    {
        let now_ns: u64 = self.clock.now_ns();
        self.state.now(now_ns)
    }

    /// Begins a count-down of `duration` now. See [`TimerState::start`].
    pub fn start(&mut self, duration: TimerDuration<TIMER_HZ>) -> (outcome: Result<(), TimerError>)
        requires
            old(self).wf(),
        ensures
            final(self).wf(),
            final(self).latest_ns() >= old(self).latest_ns(),
            final(self).clock_origin() == old(self).clock_origin(),
            outcome == old(self)@.start_outcome(final(self).latest_ns()),
            final(self)@ == old(self)@.after_start(final(self).latest_ns(), duration@),
    {
        let now_ns: u64 = self.clock.now_ns();
        self.state.start(now_ns, duration)
    }

    /// Disables the timer for good. See [`TimerState::cancel`]. The clock is
    /// not read.
    pub fn cancel(&mut self) -> (outcome: Result<(), TimerError>)
        requires
            old(self).wf(),
        ensures
            final(self).wf(),
            final(self).latest_ns() == old(self).latest_ns(),
            final(self).clock_origin() == old(self).clock_origin(),
            outcome == old(self)@.cancel_outcome(),
            final(self)@ == old(self)@.after_cancel(),
    {
        self.state.cancel()
    }

    /// Polls the count-down now, without ever blocking. See
    /// [`TimerState::wait`]. Only the clock reading is recorded.
    pub fn wait(&mut self) -> (outcome: Result<(), nb::Error<TimerError>>)
        requires
            old(self).wf(),
        ensures
            final(self).wf(),
            final(self)@ == old(self)@,
            final(self).latest_ns() >= old(self).latest_ns(),
            final(self).clock_origin() == old(self).clock_origin(),
            outcome == old(self)@.wait_outcome(final(self).latest_ns()),
    {
        let now_ns: u64 = self.clock.now_ns();
        self.state.wait(now_ns)
    }

    /// By how many whole microseconds the time gone at the latest recorded
    /// clock reading exceeds the length of the current count-down. After a
    /// `wait` that answered `Ok` this is the lateness of that poll.
    pub fn overshoot_micros(&self) -> (micros: i64)
        requires
            self.wf(),
        ensures
            micros == self@.overshoot_micros(self.latest_ns()),
    {
        self.state.overshoot_micros(self.clock.latest())
    }
}

} // verus!
