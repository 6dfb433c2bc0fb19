use vstd::prelude::*;

verus! {

/// What one tick of a repeating timer yields: the elapsed time left on the
/// timer afterwards, and whether the timer completed a period during the tick.
pub open spec fn repeating_tick(period: int, elapsed: int, delta: int) -> (int, bool) {
    let total = elapsed + delta;
    if total < period {
        (total, false)
    } else if period == 0 {
        (0, true)
    } else {
        (total % period, (total / period) % 0x1_0000_0000 != 0)
    }
}

/// Result of ticking the timer, as plain values.
pub(crate) struct TickOutcome {
    pub elapsed_nanos: u128,
    pub just_finished: bool,
}

/// The arithmetic of one tick of a repeating timer, computed here: the
/// elapsed time plus the frame time, wrapped to the period once it reaches
/// it, with the number of whole periods counted as a `u32`.
pub(crate) fn repeating_tick_arith(period_nanos: u64, elapsed_nanos: u64, delta_nanos: u64) -> (r: TickOutcome)
    ensures
        r.elapsed_nanos == repeating_tick(period_nanos as int, elapsed_nanos as int, delta_nanos as int).0,
        r.just_finished == repeating_tick(period_nanos as int, elapsed_nanos as int, delta_nanos as int).1,
{
    let total: u128 = elapsed_nanos as u128 + delta_nanos as u128;
    let period: u128 = period_nanos as u128;
    if total < period {
        TickOutcome { elapsed_nanos: total, just_finished: false }
    } else if period == 0 {
        TickOutcome { elapsed_nanos: 0, just_finished: true }
    } else {
        TickOutcome { elapsed_nanos: total % period, just_finished: (total / period) % 0x1_0000_0000 != 0 }
    }
}

/// Ticks the palette's repeating timer: bevy's `Timer` does the tick, and
/// its answer is kept only where it agrees with the timer's arithmetic
/// computed by `repeating_tick_arith`; elsewhere the arithmetic's answer is
/// kept. By the contract of `timer_tick` the two always agree, but what this
/// function returns rests on verified code alone.
pub(crate) fn tick_timer(period_nanos: u64, elapsed_nanos: u64, delta_nanos: u64) -> (r: TickOutcome)
    ensures
        r.elapsed_nanos == repeating_tick(period_nanos as int, elapsed_nanos as int, delta_nanos as int).0,
        r.just_finished == repeating_tick(period_nanos as int, elapsed_nanos as int, delta_nanos as int).1,
{
    let ticked = timer_tick(period_nanos, elapsed_nanos, delta_nanos);
    let expected = repeating_tick_arith(period_nanos, elapsed_nanos, delta_nanos);
    if ticked.elapsed_nanos == expected.elapsed_nanos && ticked.just_finished == expected.just_finished {
        ticked
    } else {
        expected
    }
}

/// Ticks a repeating `bevy::time::Timer` once.
///
/// The body builds the timer with `Timer::new` (period `period_nanos`,
/// `TimerMode::Repeating`), sets its elapsed time with `Timer::set_elapsed`,
/// calls `Timer::tick` with `delta_nanos`, and reads back `Timer::elapsed`
/// and `Timer::just_finished`. The contract restates what bevy_time's
/// `tick` does for an unpaused repeating timer: the stopwatch adds `delta`;
/// when the sum reaches the period, the elapsed time wraps to the sum modulo
/// the period and the number of completed periods is kept as a `u32`
/// (truncating), `just_finished` being whether that count is non-zero; a
/// zero period always finishes and resets the elapsed time to zero.
#[verifier::external_body]
pub(crate) fn timer_tick(period_nanos: u64, elapsed_nanos: u64, delta_nanos: u64) -> (r: TickOutcome)
    ensures
        r.elapsed_nanos == repeating_tick(period_nanos as int, elapsed_nanos as int, delta_nanos as int).0,
        r.just_finished == repeating_tick(period_nanos as int, elapsed_nanos as int, delta_nanos as int).1,
{
    let mut timer = bevy::time::Timer::new(
        core::time::Duration::from_nanos(period_nanos),
        bevy::time::TimerMode::Repeating,
    );
    timer.set_elapsed(core::time::Duration::from_nanos(elapsed_nanos));
    timer.tick(core::time::Duration::from_nanos(delta_nanos));
    TickOutcome { elapsed_nanos: timer.elapsed().as_nanos(), just_finished: timer.just_finished() }
}

} // verus!
