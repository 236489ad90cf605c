//! Laws of the timer, proved from the functions of [`TimerModel`] that the
//! contracts of [`crate::timer::TimerState`] and [`crate::timer::Timer`]
//! are stated with.
use vstd::prelude::*;
use crate::ticks::{tick_period_micros, ticks_to_nanos};
use crate::timer::{TimerError, TimerModel};

verus! {

/// One operation on a timer, with the clock reading it is made at.
pub enum TimerOp {
    /// `start` at time `now_ns` with a duration of `ticks` ticks.
    Start { now_ns: nat, ticks: nat },
    /// `wait` at time `now_ns`.
    Wait { now_ns: nat },
    /// `now` at time `now_ns`.
    Now { now_ns: nat },
    /// `cancel`.
    Cancel,
}

/// The timer after one operation.
pub open spec fn after_op(m: TimerModel, op: TimerOp) -> TimerModel {
    match op {
        TimerOp::Start { now_ns, ticks } => m.after_start(now_ns, ticks),
        TimerOp::Wait { now_ns } => m,
        TimerOp::Now { now_ns } => m,
        TimerOp::Cancel => m.after_cancel(),
    }
}

/// The timer after a series of operations, the first of `ops` made first.
pub open spec fn after_ops(m: TimerModel, ops: Seq<TimerOp>) -> TimerModel
    decreases ops.len(),
{
    if ops.len() == 0 {
        m
    } else {
        after_op(after_ops(m, ops.drop_last()), ops.last())
    }
}

/// A whole number lies below a rounded-down quotient exactly if its
/// successor, multiplied back, does not exceed the dividend; and the
/// successor's product is the larger one.
proof fn lemma_below_quotient(e: int, n: int, f: int)
    by (nonlinear_arith)
    requires
        0 <= e,
        0 <= n,
        0 < f,
    ensures
        e < n / f <==> (e + 1) * f <= n,
        e * f < (e + 1) * f,
{
}

/// Rounded-down division by a positive number keeps the order.
proof fn lemma_quotient_grows(a: nat, b: nat, d: nat)
    by (nonlinear_arith)
    requires
        d > 0,
        a <= b,
    ensures
        a / d <= b / d,
{
}

/// After a granted `start` of `ticks > 0` ticks at time `start_ns`, a poll
/// at a later time `now_ns` answers `WouldBlock` exactly while the
/// nanoseconds gone are fewer than the duration in whole nanoseconds, and
/// `Ok` from then on.
///
/// In exact terms, with `e` nanoseconds gone and a duration of
/// `ticks / hz` seconds: the poll is not ready exactly if even `e + 1`
/// nanoseconds do not exceed the duration; it is ready whenever `e`
/// nanoseconds are at least the duration, and when it is ready the duration
/// is over in less than one nanosecond, the resolution of the clock.
pub proof fn law_wait_follows_countdown(m: TimerModel, start_ns: nat, ticks: nat, now_ns: nat)
    requires
        m.hz > 0,
        ticks > 0,
        m.start_outcome(start_ns) is Ok,
        now_ns >= start_ns,
    ensures
        ({
            let armed = m.after_start(start_ns, ticks);
            let gone = now_ns - start_ns;
            &&& armed.wait_outcome(now_ns) == (if gone < ticks_to_nanos(m.hz, ticks) {
                Err::<(), nb::Error<TimerError>>(nb::Error::WouldBlock)
            } else {
                Ok::<(), nb::Error<TimerError>>(())
            })
            &&& armed.wait_outcome(now_ns) is Err <==> (gone + 1) * m.hz <= ticks * 1_000_000_000
            &&& gone * m.hz >= ticks * 1_000_000_000 ==> armed.wait_outcome(now_ns) is Ok
            &&& armed.wait_outcome(now_ns) is Ok ==> (gone + 1) * m.hz > ticks * 1_000_000_000
        }),
{
    let armed = m.after_start(start_ns, ticks);
    let gone = now_ns - start_ns;
    lemma_below_quotient(gone, (ticks * 1_000_000_000) as int, m.hz as int);
    assert(armed.elapsed_ns(now_ns) == gone);
    assert(armed.required_ns() == (ticks * 1_000_000_000) / m.hz);
}

/// Once a poll has found the count-down over, every later poll finds it
/// over too, until the timer is started again or canceled.
pub proof fn law_expiry_is_stable(m: TimerModel, first_ns: nat, later_ns: nat)
    requires
        first_ns <= later_ns,
        m.wait_outcome(first_ns) is Ok,
    ensures
        m.wait_outcome(later_ns) is Ok,
{
}

/// A timer that was never armed, or was armed with a duration of zero
/// ticks, is never reported as ready.
pub proof fn law_unarmed_is_never_ready(m: TimerModel, now_ns: nat)
    requires
        m.duration_ticks == 0,
    ensures
        m.wait_outcome(now_ns) is Err,
        m.running ==> m.wait_outcome(now_ns) == Err::<(), nb::Error<TimerError>>(
            nb::Error::WouldBlock,
        ),
{
}

/// The first `cancel` of a usable timer succeeds, and a second one is
/// refused with `AlreadyCanceled`.
pub proof fn law_cancel_twice(m: TimerModel)
    requires
        m.running,
    ensures
        m.cancel_outcome() is Ok,
        m.after_cancel().cancel_outcome() == Err::<(), TimerError>(TimerError::AlreadyCanceled),
        m.after_cancel().after_cancel() == m.after_cancel(),
{
}

/// After `cancel`, whatever the timer's state was before and whatever
/// operations follow, the timer stays as `cancel` left it, and every
/// `start`, `wait` and `cancel` is refused with `AlreadyCanceled`.
pub proof fn law_cancel_is_final(
    m: TimerModel,
    ops: Seq<TimerOp>,
    now_ns: nat,
)
    ensures
        after_ops(m.after_cancel(), ops) == m.after_cancel(),
        after_ops(m.after_cancel(), ops).start_outcome(now_ns) == Err::<(), TimerError>(
            TimerError::AlreadyCanceled,
        ),
        after_ops(m.after_cancel(), ops).wait_outcome(now_ns) == Err::<(), nb::Error<TimerError>>(
            nb::Error::Other(TimerError::AlreadyCanceled),
        ),
        after_ops(m.after_cancel(), ops).cancel_outcome() == Err::<(), TimerError>(
            TimerError::AlreadyCanceled,
        ),
    decreases ops.len(),
{
    if ops.len() > 0 {
        law_cancel_is_final(m, ops.drop_last(), now_ns);
    }
}

/// A second `start` at time `now_ns`, after one that was granted at time
/// `start_ns` for `ticks` ticks: while fewer nanoseconds are gone than the
/// first duration holds it is refused with `StillArmed` and changes nothing;
/// from then on it is granted and the count-down begins anew at `now_ns`
/// with the new duration.
pub proof fn law_restart_after_expiry_only(
    m: TimerModel,
    start_ns: nat,
    ticks: nat,
    now_ns: nat,
    next_ticks: nat,
)
    requires
        m.start_outcome(start_ns) is Ok,
        now_ns >= start_ns,
    ensures
        ({
            let armed = m.after_start(start_ns, ticks);
            let again = armed.after_start(now_ns, next_ticks);
            if ticks > 0 && now_ns - start_ns < ticks_to_nanos(m.hz, ticks) {
                &&& armed.start_outcome(now_ns) == Err::<(), TimerError>(TimerError::StillArmed)
                &&& again == armed
            } else {
                &&& armed.start_outcome(now_ns) is Ok
                &&& again.start_ns == now_ns
                &&& again.duration_ticks == next_ticks
                &&& again.elapsed_ns(now_ns) == 0
                &&& again.running
                &&& again.epoch_ns == m.epoch_ns
            }
        }),
{
}

/// On a usable timer a `start` is granted exactly when a poll at the same
/// time would not find a count-down still running: on a timer that was
/// never armed, and on one whose count-down a poll would find over.
pub proof fn law_start_granted_iff_not_pending(m: TimerModel, now_ns: nat)
    requires
        m.running,
    ensures
        m.start_outcome(now_ns) is Ok <==> (!m.armed() || m.wait_outcome(now_ns) is Ok),
        m.start_outcome(now_ns) is Err ==> m.start_outcome(now_ns) == Err::<(), TimerError>(
            TimerError::StillArmed,
        ),
{
}

/// No operation moves the timer's epoch or changes its frequency, and only
/// a granted `start` moves the start of the count-down or its duration.
pub proof fn law_fields_change_only_where_stated(m: TimerModel, op: TimerOp)
    ensures
        after_op(m, op).hz == m.hz,
        after_op(m, op).epoch_ns == m.epoch_ns,
        !m.running ==> !after_op(m, op).running,
        !(op matches TimerOp::Start { now_ns, ticks } && m.start_outcome(now_ns) is Ok) ==> {
            &&& after_op(m, op).start_ns == m.start_ns
            &&& after_op(m, op).duration_ticks == m.duration_ticks
        },
{
}

/// What `now` reports depends on the clock reading alone, whatever
/// operations were made on the timer in between.
pub proof fn law_now_ignores_operations(m: TimerModel, ops: Seq<TimerOp>, now_ns: nat)
    ensures
        after_ops(m, ops).hz == m.hz,
        after_ops(m, ops).epoch_ns == m.epoch_ns,
        after_ops(m, ops).now_ticks(now_ns) == m.now_ticks(now_ns),
    decreases ops.len(),
{
    if ops.len() > 0 {
        law_now_ignores_operations(m, ops.drop_last(), now_ns);
        law_fields_change_only_where_stated(after_ops(m, ops.drop_last()), ops.last());
    }
}

/// The product with a fixed factor keeps the order.
proof fn lemma_product_grows(a: nat, b: nat, f: nat)
    by (nonlinear_arith)
    requires
        a <= b,
    ensures
        a * f <= b * f,
{
}

/// The tick count since the timer was built never decreases while the
/// clock does not run backwards, at any frequency.
pub proof fn law_tick_count_grows(m: TimerModel, earlier_ns: nat, later_ns: nat)
    requires
        earlier_ns <= later_ns,
    ensures
        m.ticks_since_epoch(earlier_ns) <= m.ticks_since_epoch(later_ns),
{
    let period = tick_period_micros(m.hz);
    if period > 0 {
        lemma_quotient_grows(m.uptime_ns(earlier_ns), m.uptime_ns(later_ns), 1000);
        lemma_quotient_grows(m.uptime_ns(earlier_ns) / 1000, m.uptime_ns(later_ns) / 1000, period);
    } else {
        lemma_product_grows(m.uptime_ns(earlier_ns), m.uptime_ns(later_ns), m.hz);
        lemma_quotient_grows(
            m.uptime_ns(earlier_ns) * m.hz,
            m.uptime_ns(later_ns) * m.hz,
            1_000_000_000,
        );
    }
}

/// While the clock does not run backwards, `now` never reports less than
/// it reported before, at any frequency, at any time, and whatever
/// operations were made on the timer in between.
pub proof fn law_now_never_decreases(
    m: TimerModel,
    ops: Seq<TimerOp>,
    earlier_ns: nat,
    later_ns: nat,
)
    requires
        earlier_ns <= later_ns,
    ensures
        m.now_ticks(earlier_ns) <= after_ops(m, ops).now_ticks(later_ns),
{
    law_now_ignores_operations(m, ops, later_ns);
    law_tick_count_grows(m, earlier_ns, later_ns);
}

/// A quotient by a positive number is not above its dividend, and the
/// share `f / d` of a number is not above the number where `f <= d`.
proof fn lemma_share_is_smaller(x: nat, f: nat, d: nat)
    by (nonlinear_arith)
    requires
        d > 0,
        f <= d,
    ensures
        x / d <= x,
        (x * f) / d <= x,
{
}

/// Where a tick lasts at least a nanosecond, `now` reports the tick count
/// itself at every time that 64 bits hold: the count is never more than an
/// instant holds.
pub proof fn law_now_is_the_tick_count(m: TimerModel, now_ns: nat)
    requires
        m.hz <= 1_000_000_000,
        now_ns <= u64::MAX,
    ensures
        m.now_ticks(now_ns) == m.ticks_since_epoch(now_ns),
        m.ticks_since_epoch(now_ns) <= m.uptime_ns(now_ns),
{
    let period = tick_period_micros(m.hz);
    let uptime = m.uptime_ns(now_ns);
    if period > 0 {
        lemma_share_is_smaller(uptime, 1, 1000);
        lemma_share_is_smaller(uptime / 1000, 1, period);
    } else {
        lemma_share_is_smaller(uptime, m.hz, 1_000_000_000);
    }
}

/// A timer built at time `now_ns`, at any frequency, is usable and not
/// armed, has its epoch and the start of its count-down at `now_ns`, and
/// shows no tick at that time; a first `start` and a `cancel` are granted,
/// and a poll is not ready.
pub proof fn law_new_timer(hz: nat, now_ns: nat, later_ns: nat, ticks: nat)
    ensures
        ({
            let fresh = TimerModel::fresh(hz, now_ns);
            &&& fresh.hz == hz
            &&& fresh.running
            &&& !fresh.armed()
            &&& fresh.epoch_ns == now_ns
            &&& fresh.start_ns == now_ns
            &&& fresh.now_ticks(now_ns) == 0
            &&& fresh.start_outcome(later_ns) is Ok
            &&& fresh.after_start(later_ns, ticks).duration_ticks == ticks
            &&& fresh.cancel_outcome() is Ok
            &&& fresh.wait_outcome(later_ns) == Err::<(), nb::Error<TimerError>>(
                nb::Error::WouldBlock,
            )
        }),
{
    TimerModel::lemma_fresh(hz, now_ns, later_ns);
}

} // verus!
