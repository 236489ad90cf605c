//! Durations and instants counted in ticks of a fixed frequency, and their
//! conversion to wall-clock units.
//!
//! The conversions are done by `fugit`, on a fraction that it reduces
//! first. That this gives the plain rounded-down quotient is proved here, so
//! that the timer's contracts can speak of nanoseconds in the simplest
//! terms.
use vstd::prelude::*;

verus! {

/// The length in nanoseconds of `ticks` ticks at `hz` ticks per second,
/// rounded down.
pub open spec fn ticks_to_nanos(hz: nat, ticks: nat) -> nat {
    (ticks * 1_000_000_000) / hz
}

/// The length in microseconds of `ticks` ticks at `hz` ticks per second,
/// rounded down.
pub open spec fn ticks_to_micros(hz: nat, ticks: nat) -> nat {
    (ticks * 1_000_000) / hz
}

/// The length of one tick in whole microseconds. It is zero for every
/// frequency above 1 MHz.
pub open spec fn tick_period_micros(hz: nat) -> nat {
    ticks_to_micros(hz, 1)
}

/// Whether `g` divides both `a` and `b`.
pub open spec fn is_common_divisor(g: nat, a: nat, b: nat) -> bool {
    g > 0 && a % g == 0 && b % g == 0
}

/// The length of `ticks` ticks at `hz` ticks per second in units of which
/// `per_sec` make a second, computed on the fraction `per_sec / hz` reduced
/// by `g`.
pub open spec fn reduced_quotient(ticks: nat, per_sec: nat, hz: nat, g: nat) -> nat {
    (ticks * (per_sec / g)) / (hz / g)
}

/// Whether `result` is the length of `ticks` ticks computed on the fraction
/// `per_sec / hz` reduced by one of its common divisors.
pub open spec fn is_reduced_quotient(result: nat, ticks: nat, per_sec: nat, hz: nat) -> bool {
    exists|g: nat|
        is_common_divisor(g, per_sec, hz) && result == #[trigger] reduced_quotient(
            ticks,
            per_sec,
            hz,
            g,
        )
}

/// Reducing the fraction by a common divisor before the multiplication does
/// not change the rounded-down result.
pub proof fn lemma_reduced_quotient(ticks: nat, per_sec: nat, hz: nat, g: nat)
    requires
        hz > 0,
        is_common_divisor(g, per_sec, hz),
    ensures
        reduced_quotient(ticks, per_sec, hz, g) == (ticks * per_sec) / hz,
{
    let a = per_sec / g;
    let b = hz / g;
    vstd::arithmetic::div_mod::lemma_fundamental_div_mod(per_sec as int, g as int);
    vstd::arithmetic::div_mod::lemma_fundamental_div_mod(hz as int, g as int);
    assert(per_sec == g * a);
    assert(hz == g * b);
    assert(b > 0) by (nonlinear_arith)
        requires
            hz == g * b,
            hz > 0,
            g > 0,
    ;
    assert(ticks * per_sec == g * (ticks * a)) by (nonlinear_arith)
        requires
            per_sec == g * a,
    ;
    vstd::arithmetic::div_mod::lemma_div_multiples_vanish((ticks * a) as int, g as int);
    vstd::arithmetic::div_mod::lemma_div_denominator((g * (ticks * a)) as int, g as int, b as int);
}

/// A length computed on a reduced fraction is the plain rounded-down
/// quotient, whichever common divisor the fraction was reduced by.
pub proof fn lemma_reduced_quotient_is_plain(result: nat, ticks: nat, per_sec: nat, hz: nat)
    requires
        hz > 0,
        is_reduced_quotient(result, ticks, per_sec, hz),
    ensures
        result == (ticks * per_sec) / hz,
{
    let g = choose|g: nat|
        is_common_divisor(g, per_sec, hz) && result == #[trigger] reduced_quotient(
            ticks,
            per_sec,
            hz,
            g,
        );
    lemma_reduced_quotient(ticks, per_sec, hz, g);
}

/// `fugit::Duration::<u64, 1, HZ>::to_nanos`, on a duration of `ticks` ticks
/// built with `from_ticks`.
///
/// Trusted: fugit multiplies the tick count by `10^9 / g` and divides the
/// product by `HZ / g`, where `g` is the greatest common divisor of `10^9`
/// and `HZ`, of which only that it divides both is used here. The 64-bit
/// duration is taken so that the product fits for every 32-bit tick count.
/// `HZ == 0` is left out: fugit rejects a zero denominator when the program
/// is built.
#[verifier::external_body]
fn fugit_to_nanos<const HZ: u32>(ticks: u32) -> (ns: u64)
    requires
        HZ > 0,
    ensures
        is_reduced_quotient(ns as nat, ticks as nat, 1_000_000_000, HZ as nat),
{
    fugit::Duration::<u64, 1, HZ>::from_ticks(u64::from(ticks)).to_nanos()
}

/// `fugit::Duration::<u64, 1, HZ>::to_micros`, on a duration of `ticks` ticks
/// built with `from_ticks`.
///
/// Trusted: as for nanoseconds, with `10^6` in place of `10^9`.
#[verifier::external_body]
fn fugit_to_micros<const HZ: u32>(ticks: u32) -> (micros: u64)
    requires
        HZ > 0,
    ensures
        is_reduced_quotient(micros as nat, ticks as nat, 1_000_000, HZ as nat),
{
    fugit::Duration::<u64, 1, HZ>::from_ticks(u64::from(ticks)).to_micros()
}

/// `fugit::Rate::<u32, HZ, 1>::into_duration::<1, HZ>`, on the rate of `HZ`
/// hertz built by `fugit::RateExtU32::Hz`: the period of the tick frequency,
/// in ticks.
///
/// Trusted: the rate of `HZ` hertz in units of `HZ` hertz has the raw value
/// one, and fugit turns a raw rate `r` in that unit into `1 / r` ticks of
/// `1 / HZ` seconds, so the result is one tick.
#[verifier::external_body]
fn fugit_tick_period<const HZ: u32>() -> (ticks: u32)
    requires
        HZ > 0,
    ensures
        ticks == 1,
{
    let rate: fugit::Rate<u32, HZ, 1> = fugit::RateExtU32::Hz(HZ);
    let period: fugit::Duration<u32, 1, HZ> = rate.into_duration();
    period.ticks()
}

/// A span of time, counted in ticks of `1 / TIMER_HZ` seconds.
#[derive(Clone, Copy, Debug, PartialEq, Eq)]
pub struct TimerDuration<const TIMER_HZ: u32> {
    ticks: u32,
}

impl<const TIMER_HZ: u32> View for TimerDuration<TIMER_HZ> {
    type V = nat;

    /// The number of ticks.
    closed spec fn view(&self) -> nat {
        self.ticks as nat
    }
}

impl<const TIMER_HZ: u32> TimerDuration<TIMER_HZ> {
    /// A duration of `ticks` ticks.
    pub fn from_ticks(ticks: u32) -> (d: Self)
        ensures
            d@ == ticks,
    {
        TimerDuration { ticks }
    }

    /// The number of ticks in the duration.
    pub fn ticks(&self) -> (ticks: u32)
        ensures
            ticks == self@,
    {
        self.ticks
    }

    /// The period of the tick frequency itself: one tick.
    pub fn tick_period() -> (d: Self)
        requires
            TIMER_HZ > 0,
        ensures
            d@ == 1,
    {
        TimerDuration { ticks: fugit_tick_period::<TIMER_HZ>() }
    }

    /// The duration in whole nanoseconds, rounded down.
    pub fn to_nanos(&self) -> (ns: u64)
        requires
            TIMER_HZ > 0,
        ensures
            ns == ticks_to_nanos(TIMER_HZ as nat, self@),
    {
        let ns: u64 = fugit_to_nanos::<TIMER_HZ>(self.ticks);
        proof {
            lemma_reduced_quotient_is_plain(
                ns as nat,
                self.ticks as nat,
                1_000_000_000,
                TIMER_HZ as nat,
            );
        }
        ns
    }

    /// The duration in whole microseconds, rounded down.
    pub fn to_micros(&self) -> (us: u64)
        requires
            TIMER_HZ > 0,
        ensures
            us == ticks_to_micros(TIMER_HZ as nat, self@),
    {
        let us: u64 = fugit_to_micros::<TIMER_HZ>(self.ticks);
        proof {
            lemma_reduced_quotient_is_plain(
                us as nat,
                self.ticks as nat,
                1_000_000,
                TIMER_HZ as nat,
            );
        }
        us
    }
}

/// A point in time, counted in ticks of `1 / TIMER_HZ` seconds since the
/// timer that reported it was built. The count is held in 64 bits, so that
/// it does not start over while a timer lives.
#[derive(Clone, Copy, Debug, PartialEq, Eq)]
pub struct TimerInstant<const TIMER_HZ: u32> {
    ticks: u64,
}

impl<const TIMER_HZ: u32> View for TimerInstant<TIMER_HZ> {
    type V = nat;

    /// The number of ticks.
    closed spec fn view(&self) -> nat {
        self.ticks as nat
    }
}

impl<const TIMER_HZ: u32> TimerInstant<TIMER_HZ> {
    /// The instant `ticks` ticks after the origin.
    pub fn from_ticks(ticks: u64) -> (i: Self)
        ensures
            i@ == ticks,
    {
        TimerInstant { ticks }
    }

    /// The number of ticks since the origin.
    pub fn ticks(&self) -> (ticks: u64)
        ensures
            ticks == self@,
    {
        self.ticks
    }
}

} // verus!
