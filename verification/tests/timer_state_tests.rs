use auto_arena::ticks::TimerDuration;
use auto_arena::timer::{lateness_micros, TimerError, TimerState};

const MS: u64 = 1_000_000;

fn ticks(n: u32) -> TimerDuration<1000> {
    TimerDuration::from_ticks(n)
}

#[test]
fn fifty_ms_countdown_is_ready_after_fifty_ms() {
    let t0 = 7 * MS;
    let mut timer = TimerState::<1000>::new(t0);
    assert_eq!(timer.start(t0, ticks(50)), Ok(()));
    assert_eq!(timer.wait(t0 + 10 * MS), Err(nb::Error::WouldBlock));
    assert_eq!(timer.wait(t0 + 49 * MS), Err(nb::Error::WouldBlock));
    assert_eq!(timer.wait(t0 + 51 * MS), Ok(()));
    assert_eq!(timer.start(t0 + 51 * MS, ticks(50)), Ok(()));
}

#[test]
fn restart_before_expiry_is_still_armed() {
    let mut timer = TimerState::<1000>::new(0);
    assert_eq!(timer.start(0, ticks(50)), Ok(()));
    assert_eq!(timer.start(5 * MS, ticks(10)), Err(TimerError::StillArmed));
}

#[test]
fn wait_after_cancel_is_already_canceled() {
    let mut timer = TimerState::<1000>::new(0);
    assert_eq!(timer.cancel(), Ok(()));
    assert_eq!(timer.wait(0), Err(nb::Error::Other(TimerError::AlreadyCanceled)));
}

#[test]
fn wait_turns_ready_exactly_at_the_deadline() {
    let t0 = 123_456_789;
    let mut timer = TimerState::<1000>::new(0);
    assert_eq!(timer.start(t0, ticks(50)), Ok(()));
    assert_eq!(timer.wait(t0), Err(nb::Error::WouldBlock));
    assert_eq!(timer.wait(t0 + 50 * MS - 1), Err(nb::Error::WouldBlock));
    assert_eq!(timer.wait(t0 + 50 * MS), Ok(()));
    assert_eq!(timer.wait(t0 + 50 * MS + 1), Ok(()));
    assert_eq!(timer.wait(u64::MAX), Ok(()));
}

#[test]
fn wait_follows_the_rounded_down_duration() {
    // One tick at 3 Hz lasts 333_333_333 whole nanoseconds.
    let mut timer = TimerState::<3>::new(0);
    assert_eq!(timer.start(10, TimerDuration::from_ticks(1)), Ok(()));
    assert_eq!(timer.wait(10 + 333_333_332), Err(nb::Error::WouldBlock));
    assert_eq!(timer.wait(10 + 333_333_333), Ok(()));
}

#[test]
fn wait_does_not_rearm() {
    let mut timer = TimerState::<1000>::new(0);
    assert_eq!(timer.start(0, ticks(5)), Ok(()));
    assert_eq!(timer.wait(5 * MS), Ok(()));
    assert_eq!(timer.wait(6 * MS), Ok(()));
    assert_eq!(timer.wait(600 * MS), Ok(()));
    assert_eq!(timer.elapsed_ns(600 * MS), 600 * MS);
}

#[test]
fn wait_on_a_timer_never_armed_is_not_ready() {
    let timer = TimerState::<1000>::new(0);
    assert_eq!(timer.wait(0), Err(nb::Error::WouldBlock));
    assert_eq!(timer.wait(1_000 * MS), Err(nb::Error::WouldBlock));
    assert_eq!(timer.wait(u64::MAX), Err(nb::Error::WouldBlock));
}

#[test]
fn wait_after_a_start_of_zero_ticks_is_not_ready() {
    let mut timer = TimerState::<1000>::new(0);
    assert_eq!(timer.start(0, ticks(0)), Ok(()));
    assert_eq!(timer.wait(0), Err(nb::Error::WouldBlock));
    assert_eq!(timer.wait(1_000 * MS), Err(nb::Error::WouldBlock));
    // Nothing is pending, so the next start is granted at once.
    assert_eq!(timer.start(1, ticks(3)), Ok(()));
    assert_eq!(timer.wait(1 + 3 * MS), Ok(()));
}

#[test]
fn wait_on_a_long_countdown() {
    // Five seconds are more nanoseconds than 32 bits hold.
    let mut timer = TimerState::<1000>::new(0);
    assert_eq!(timer.start(0, ticks(5000)), Ok(()));
    assert_eq!(timer.wait(705_032_704), Err(nb::Error::WouldBlock));
    assert_eq!(timer.wait(4_999_999_999), Err(nb::Error::WouldBlock));
    assert_eq!(timer.wait(5_000_000_000), Ok(()));
}

#[test]
fn wait_at_a_time_before_the_start_counts_no_time() {
    let mut timer = TimerState::<1000>::new(100 * MS);
    assert_eq!(timer.start(100 * MS, ticks(1)), Ok(()));
    assert_eq!(timer.elapsed_ns(40 * MS), 0);
    assert_eq!(timer.wait(40 * MS), Err(nb::Error::WouldBlock));
}

#[test]
fn cancel_twice_succeeds_then_fails() {
    let mut timer = TimerState::<1000>::new(0);
    assert_eq!(timer.cancel(), Ok(()));
    assert_eq!(timer.cancel(), Err(TimerError::AlreadyCanceled));
    assert_eq!(timer.cancel(), Err(TimerError::AlreadyCanceled));
}

#[test]
fn everything_fails_after_cancel_whatever_the_state() {
    // Never armed.
    let mut fresh = TimerState::<1000>::new(0);
    assert_eq!(fresh.cancel(), Ok(()));
    assert_eq!(fresh.start(1, ticks(1)), Err(TimerError::AlreadyCanceled));
    assert_eq!(fresh.wait(2), Err(nb::Error::Other(TimerError::AlreadyCanceled)));

    // Armed and pending.
    let mut pending = TimerState::<1000>::new(0);
    assert_eq!(pending.start(0, ticks(50)), Ok(()));
    assert_eq!(pending.cancel(), Ok(()));
    assert_eq!(pending.start(1 * MS, ticks(1)), Err(TimerError::AlreadyCanceled));
    assert_eq!(pending.wait(1 * MS), Err(nb::Error::Other(TimerError::AlreadyCanceled)));
    assert_eq!(pending.start(500 * MS, ticks(1)), Err(TimerError::AlreadyCanceled));
    assert_eq!(pending.wait(500 * MS), Err(nb::Error::Other(TimerError::AlreadyCanceled)));

    // Armed and expired.
    let mut expired = TimerState::<1000>::new(0);
    assert_eq!(expired.start(0, ticks(50)), Ok(()));
    assert_eq!(expired.wait(60 * MS), Ok(()));
    assert_eq!(expired.cancel(), Ok(()));
    assert_eq!(expired.wait(61 * MS), Err(nb::Error::Other(TimerError::AlreadyCanceled)));
    assert_eq!(expired.start(61 * MS, ticks(1)), Err(TimerError::AlreadyCanceled));
    assert_eq!(expired.cancel(), Err(TimerError::AlreadyCanceled));
}

#[test]
fn refused_start_changes_nothing() {
    let mut timer = TimerState::<1000>::new(0);
    assert_eq!(timer.start(0, ticks(50)), Ok(()));
    assert_eq!(timer.start(20 * MS, ticks(1)), Err(TimerError::StillArmed));
    // Still the first count-down: 50 ms from time 0.
    assert_eq!(timer.elapsed_ns(30 * MS), 30 * MS);
    assert_eq!(timer.wait(49 * MS), Err(nb::Error::WouldBlock));
    assert_eq!(timer.wait(50 * MS), Ok(()));
}

#[test]
fn start_after_expiry_resets_the_countdown() {
    let mut timer = TimerState::<1000>::new(0);
    assert_eq!(timer.start(0, ticks(50)), Ok(()));
    assert_eq!(timer.start(50 * MS - 1, ticks(10)), Err(TimerError::StillArmed));
    assert_eq!(timer.start(50 * MS, ticks(10)), Ok(()));
    assert_eq!(timer.elapsed_ns(50 * MS), 0);
    assert_eq!(timer.elapsed_ns(53 * MS), 3 * MS);
    assert_eq!(timer.wait(59 * MS), Err(nb::Error::WouldBlock));
    assert_eq!(timer.wait(60 * MS), Ok(()));
}

#[test]
fn start_is_granted_without_a_poll_in_between() {
    let mut timer = TimerState::<1000>::new(0);
    assert_eq!(timer.start(0, ticks(2)), Ok(()));
    assert_eq!(timer.start(2 * MS, ticks(2)), Ok(()));
    assert_eq!(timer.start(3 * MS, ticks(2)), Err(TimerError::StillArmed));
    assert_eq!(timer.start(4 * MS, ticks(2)), Ok(()));
}

#[test]
fn elapsed_counts_from_the_latest_start() {
    let mut timer = TimerState::<1000>::new(1_000);
    assert_eq!(timer.elapsed_ns(1_000), 0);
    assert_eq!(timer.elapsed_ns(4_500), 3_500);
    assert_eq!(timer.start(10_000, ticks(1)), Ok(()));
    assert_eq!(timer.elapsed_ns(10_000), 0);
    assert_eq!(timer.elapsed_ns(10_001), 1);
    assert_eq!(timer.elapsed_ns(u64::MAX), u64::MAX - 10_000);
}

#[test]
fn now_counts_whole_ticks_since_the_epoch() {
    let epoch = 5_000;
    let timer = TimerState::<1000>::new(epoch);
    assert_eq!(timer.now(epoch).ticks(), 0);
    assert_eq!(timer.now(epoch + 999_999).ticks(), 0);
    assert_eq!(timer.now(epoch + 1_000_000).ticks(), 1);
    assert_eq!(timer.now(epoch + 56_000_999).ticks(), 56);
    assert_eq!(timer.now(epoch - 1).ticks(), 0);
}

#[test]
fn now_is_not_moved_by_start_or_cancel() {
    let mut timer = TimerState::<1000>::new(0);
    assert_eq!(timer.now(30 * MS).ticks(), 30);
    assert_eq!(timer.start(10 * MS, ticks(5)), Ok(()));
    assert_eq!(timer.now(30 * MS).ticks(), 30);
    assert_eq!(timer.wait(30 * MS), Ok(()));
    assert_eq!(timer.now(30 * MS).ticks(), 30);
    assert_eq!(timer.cancel(), Ok(()));
    assert_eq!(timer.now(30 * MS).ticks(), 30);
    assert_eq!(timer.now(31 * MS).ticks(), 31);
}

#[test]
fn now_never_decreases_while_time_advances() {
    let timer = TimerState::<48_000>::new(17);
    let mut previous: u64 = 0;
    let mut now_ns: u64 = 17;
    for step in 0..20_000u64 {
        now_ns += step * 37 % 5_000;
        let ticks = timer.now(now_ns).ticks();
        assert!(ticks >= previous);
        previous = ticks;
    }
    assert!(previous > 0);
}

#[test]
fn now_divides_by_the_period_in_whole_microseconds() {
    // A tick of 3 kHz lasts 333.33 us and is counted as 333 us: after one
    // second the count is 3003, not 3000.
    let timer = TimerState::<3000>::new(0);
    assert_eq!(timer.now(1_000_000_000).ticks(), 3003);
    assert_eq!(timer.now(332_999).ticks(), 0);
    assert_eq!(timer.now(333_000).ticks(), 1);
}

#[test]
fn now_goes_on_counting_beyond_32_bits() {
    let timer = TimerState::<1_000_000>::new(0);
    assert_eq!(timer.now(4_294_967_295_000).ticks(), 4_294_967_295);
    assert_eq!(timer.now(4_294_967_296_000).ticks(), 4_294_967_296);
    assert_eq!(timer.now(4_294_967_297_999).ticks(), 4_294_967_297);
    let slow = TimerState::<1000>::new(0);
    assert_eq!(slow.now(4_294_967_295_000_000).ticks(), 4_294_967_295);
    assert_eq!(slow.now(4_294_967_296_000_000).ticks(), 4_294_967_296);
    assert_eq!(slow.now(u64::MAX).ticks(), 18_446_744_073_709);
}

#[test]
fn overshoot_is_the_lateness_in_microseconds() {
    let mut timer = TimerState::<1000>::new(0);
    assert_eq!(timer.start(0, ticks(50)), Ok(()));
    assert_eq!(timer.overshoot_micros(50 * MS), 0);
    assert_eq!(timer.overshoot_micros(51 * MS), 1000);
    assert_eq!(timer.overshoot_micros(50 * MS + 1_999), 1);
    assert_eq!(timer.overshoot_micros(49 * MS), -1000);
    assert_eq!(timer.overshoot_micros(50 * MS - 1_999), -1);
    assert_eq!(timer.overshoot_micros(50 * MS - 999), 0);
    assert_eq!(timer.overshoot_micros(0), -50_000);
    assert_eq!(timer.overshoot_micros(u64::MAX), 18_446_744_073_659_551);
}

#[test]
fn error_messages() {
    assert_eq!(TimerError::AlreadyCanceled.message(), "Timer was already canceled");
    assert_eq!(
        TimerError::StillArmed.message(),
        "start() called but duration has not yet expired"
    );
}

#[test]
fn duration_is_that_of_the_granted_start() {
    let mut timer = TimerState::<1000>::new(0);
    assert_eq!(timer.duration().ticks(), 0);
    assert_eq!(timer.start(0, ticks(50)), Ok(()));
    assert_eq!(timer.duration(), ticks(50));
    assert_eq!(timer.start(1, ticks(7)), Err(TimerError::StillArmed));
    assert_eq!(timer.duration(), ticks(50));
    assert_eq!(timer.start(50 * MS, ticks(7)), Ok(()));
    assert_eq!(timer.duration(), ticks(7));
}

#[test]
fn now_counts_ticks_shorter_than_a_microsecond() {
    // At 2 MHz a tick lasts 500 ns.
    let timer = TimerState::<2_000_000>::new(0);
    assert_eq!(timer.now(0).ticks(), 0);
    assert_eq!(timer.now(499).ticks(), 0);
    assert_eq!(timer.now(500).ticks(), 1);
    assert_eq!(timer.now(5_000).ticks(), 10);
    assert_eq!(timer.now(1_000_000_000).ticks(), 2_000_000);
    // At 3 MHz a tick lasts a third of a microsecond.
    let third = TimerState::<3_000_000>::new(40);
    assert_eq!(third.now(40 + 333).ticks(), 0);
    assert_eq!(third.now(40 + 334).ticks(), 1);
    assert_eq!(third.now(40 + 999_999_999).ticks(), 2_999_999);
    assert_eq!(third.now(40 + 1_000_000_000).ticks(), 3_000_000);
    // Four ticks to the nanosecond.
    let fast = TimerState::<4_000_000_000>::new(0);
    assert_eq!(fast.now(1).ticks(), 4);
    assert_eq!(fast.now(1_000_000_000).ticks(), 4_000_000_000);
}

#[test]
fn now_stays_at_the_largest_count_where_the_ticks_are_more() {
    // Four ticks to the nanosecond: the count reaches 64 bits before the
    // nanoseconds do.
    let fast = TimerState::<4_000_000_000>::new(0);
    assert_eq!(fast.now(4_611_686_018_427_387_903).ticks(), u64::MAX - 3);
    assert_eq!(fast.now(4_611_686_018_427_387_904).ticks(), u64::MAX);
    assert_eq!(fast.now(u64::MAX).ticks(), u64::MAX);
    let fastest = TimerState::<{ u32::MAX }>::new(17);
    assert_eq!(fastest.now(u64::MAX).ticks(), u64::MAX);
    assert_eq!(fastest.now(16).ticks(), 0);
    // At one tick to the nanosecond the count is the nanoseconds gone.
    let even = TimerState::<1_000_000_000>::new(17);
    assert_eq!(even.now(u64::MAX).ticks(), u64::MAX - 17);
}

#[test]
fn now_never_decreases_above_one_megahertz() {
    let timer = TimerState::<48_000_000>::new(3);
    let mut previous: u64 = 0;
    let mut now_ns: u64 = 0;
    for step in 0..20_000u64 {
        now_ns += step * 37 % 500;
        let ticks = timer.now(now_ns).ticks();
        assert!(ticks >= previous);
        previous = ticks;
    }
    assert!(previous > 0);
}

#[test]
fn new_timer_shows_no_tick_at_its_own_time() {
    assert_eq!(TimerState::<1>::new(0).now(0).ticks(), 0);
    assert_eq!(TimerState::<1000>::new(123_456_789).now(123_456_789).ticks(), 0);
    assert_eq!(TimerState::<1_000_000>::new(77).now(77).ticks(), 0);
    assert_eq!(TimerState::<1_000_001>::new(77).now(77).ticks(), 0);
    assert_eq!(TimerState::<{ u32::MAX }>::new(u64::MAX).now(u64::MAX).ticks(), 0);
}

#[test]
fn new_timer_is_usable_and_unarmed() {
    let mut timer = TimerState::<2_000_000>::new(9);
    assert_eq!(timer.duration().ticks(), 0);
    assert_eq!(timer.elapsed_ns(9), 0);
    assert_eq!(timer.wait(9), Err(nb::Error::WouldBlock));
    assert_eq!(timer.start(9, TimerDuration::from_ticks(4)), Ok(()));
    assert_eq!(timer.wait(9 + 1_999), Err(nb::Error::WouldBlock));
    assert_eq!(timer.wait(9 + 2_000), Ok(()));
    let mut other = TimerState::<2_000_000>::new(9);
    assert_eq!(other.cancel(), Ok(()));
}

#[test]
fn lateness_is_rounded_towards_zero() {
    assert_eq!(lateness_micros(0, 0), 0);
    assert_eq!(lateness_micros(51_000_000, 50_000_000), 1000);
    assert_eq!(lateness_micros(50_001_999, 50_000_000), 1);
    assert_eq!(lateness_micros(50_000_999, 50_000_000), 0);
    assert_eq!(lateness_micros(49_999_001, 50_000_000), 0);
    assert_eq!(lateness_micros(49_998_001, 50_000_000), -1);
    assert_eq!(lateness_micros(0, 50_000_000), -50_000);
    assert_eq!(lateness_micros(u64::MAX, 0), 18_446_744_073_709_551);
    assert_eq!(lateness_micros(0, u64::MAX), -18_446_744_073_709_551);
}
