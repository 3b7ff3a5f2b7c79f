//! Laws of the cadence runner over whole runs.
//!
//! A run is the sequence of reports a runner receives. The first part of
//! this file follows a runner of the regular mode through a sequence of
//! clock readings and bounds the number of clicks; the second shows that
//! nothing happens once the cancellation was observed.

use crate::config::{at_least_one, Mode};
use crate::policy::{
    jitter_outcome_allowed, lemma_jitter_delay_bounds, regular_delay_ms, PolicyError,
};
use crate::runner::{elapsed_ms, Order, Phase, Report, Runner};
use vstd::prelude::*;

verus! {

/// One whole loop iteration of a running regular-mode runner at the clock
/// reading `now_ms`, every line being taken by the log: the state after it,
/// and whether it clicked.
pub open spec fn regular_cycle(runner: Runner, interval_ms: u64, now_ms: u128) -> (Runner, bool) {
    let ticked = runner.spec_tick(
        true,
        now_ms,
        Mode::Regular,
        Ok(regular_delay_ms(interval_ms) as u128),
    );
    if ticked.1 is Fire {
        (ticked.0.spec_action_done(Seq::empty()).0.spec_emitted(true).0, true)
    } else {
        (ticked.0, false)
    }
}

/// The number of clicks of a running regular-mode runner that polls at the
/// clock readings `readings`, one loop iteration for each.
pub open spec fn regular_fires(runner: Runner, interval_ms: u64, readings: Seq<u128>) -> nat
    decreases readings.len(),
{
    if readings.len() == 0 {
        0
    } else {
        let cycle = regular_cycle(runner, interval_ms, readings[0]);
        let fired: nat = if cycle.1 {
            1
        } else {
            0
        };
        fired + regular_fires(cycle.0, interval_ms, readings.drop_first())
    }
}

/// The readings never go back and no two neighbours, the start and the
/// first reading included, lie more than `quantum_ms` apart.
pub open spec fn paced(start_ms: u128, readings: Seq<u128>, quantum_ms: nat) -> bool {
    &&& readings.len() > 0 ==> start_ms <= readings[0] <= start_ms + quantum_ms
    &&& forall|i: int|
        0 <= i < readings.len() - 1 ==> readings[i] <= #[trigger] readings[i + 1] <= readings[i]
            + quantum_ms
}

/// The time from the start to the last reading.
pub open spec fn window_ms(start_ms: u128, readings: Seq<u128>) -> int {
    if readings.len() == 0 {
        0
    } else {
        readings.last() - start_ms
    }
}

proof fn lemma_paced_rest(start_ms: u128, readings: Seq<u128>, quantum_ms: nat)
    requires
        readings.len() > 0,
        paced(start_ms, readings, quantum_ms),
    ensures
        paced(readings[0], readings.drop_first(), quantum_ms),
        start_ms <= readings.last(),
    decreases readings.len(),
{
    let rest = readings.drop_first();
    if rest.len() > 0 {
        let first: int = 0;
        assert(readings[first] <= readings[first + 1] <= readings[first] + quantum_ms);
        assert forall|i: int| 0 <= i < rest.len() - 1 implies rest[i] <= #[trigger] rest[i + 1]
            <= rest[i] + quantum_ms by {
            assert(readings[i + 1] <= readings[(i + 1) + 1] <= readings[i + 1] + quantum_ms);
        }
        lemma_paced_rest(readings[0], rest, quantum_ms);
        assert(rest.last() == readings.last());
    }
}

proof fn lemma_fires_between(
    interval_ms: u64,
    last_ms: u128,
    seen_ms: u128,
    readings: Seq<u128>,
    quantum_ms: nat,
)
    requires
        quantum_ms >= 1,
        last_ms <= seen_ms,
        seen_ms - last_ms < regular_delay_ms(interval_ms),
        paced(seen_ms, readings, quantum_ms),
    ensures
        ({
            let fires = regular_fires(Runner::started(last_ms), interval_ms, readings);
            let end_ms = seen_ms + window_ms(seen_ms, readings);
            let period = regular_delay_ms(interval_ms) + quantum_ms - 1;
            &&& fires * period + period > end_ms - last_ms
            &&& fires * regular_delay_ms(interval_ms) <= end_ms - last_ms
        }),
    decreases readings.len(),
{
    let delay = regular_delay_ms(interval_ms) as int;
    let period = delay + quantum_ms - 1;
    let runner = Runner::started(last_ms);
    let fires = regular_fires(runner, interval_ms, readings);
    if readings.len() == 0 {
        assert(fires * period == 0) by (nonlinear_arith)
            requires
                fires == 0,
        ;
        assert(fires * delay == 0) by (nonlinear_arith)
            requires
                fires == 0,
        ;
    } else {
        let now_ms = readings[0];
        let rest = readings.drop_first();
        lemma_paced_rest(seen_ms, readings, quantum_ms);
        let end_ms = seen_ms + window_ms(seen_ms, readings);
        assert(end_ms == now_ms + window_ms(now_ms, rest)) by {
            if rest.len() > 0 {
                assert(rest.last() == readings.last());
            }
        }
        let cycle = regular_cycle(runner, interval_ms, now_ms);
        if now_ms - last_ms >= delay {
            assert(cycle == (Runner::started(now_ms), true));
            lemma_fires_between(interval_ms, now_ms, now_ms, rest, quantum_ms);
            let later = regular_fires(Runner::started(now_ms), interval_ms, rest);
            assert(fires == 1 + later);
            assert(fires * period == period + later * period) by (nonlinear_arith)
                requires
                    fires == 1 + later,
            ;
            assert(fires * delay == delay + later * delay) by (nonlinear_arith)
                requires
                    fires == 1 + later,
            ;
        } else {
            assert(cycle == (runner, false));
            lemma_fires_between(interval_ms, last_ms, now_ms, rest, quantum_ms);
        }
    }
}

/// A running regular-mode runner that starts at `start_ms` and polls at
/// `readings` clicks at least once in every `delay + quantum_ms - 1`
/// milliseconds of the observed window, where `delay` is the interval, at
/// least one millisecond, and `quantum_ms` bounds the time between two
/// polls. It never clicks more than once in every `delay` milliseconds.
pub proof fn lemma_regular_fire_rate(
    interval_ms: u64,
    start_ms: u128,
    readings: Seq<u128>,
    quantum_ms: nat,
)
    requires
        quantum_ms >= 1,
        paced(start_ms, readings, quantum_ms),
    ensures
        regular_fires(Runner::started(start_ms), interval_ms, readings) >= window_ms(
            start_ms,
            readings,
        ) / (regular_delay_ms(interval_ms) + quantum_ms - 1),
        regular_fires(Runner::started(start_ms), interval_ms, readings) <= window_ms(
            start_ms,
            readings,
        ) / (regular_delay_ms(interval_ms) as int),
{
    lemma_fires_between(interval_ms, start_ms, start_ms, readings, quantum_ms);
    let fires = regular_fires(Runner::started(start_ms), interval_ms, readings) as int;
    let window = window_ms(start_ms, readings);
    let delay = regular_delay_ms(interval_ms) as int;
    let period = delay + quantum_ms - 1;
    assert(fires >= window / period) by (nonlinear_arith)
        requires
            period >= 1,
            fires >= 0,
            fires * period + period > window,
    ;
    assert(fires <= window / delay) by (nonlinear_arith)
        requires
            delay >= 1,
            fires >= 0,
            fires * delay <= window,
    ;
}

/// A running regular-mode runner whose interval is at least a millisecond
/// and which polls at least once in every millisecond clicks exactly
/// `floor(window / interval)` times over the observed window.
pub proof fn lemma_regular_fire_count(interval_ms: u64, start_ms: u128, readings: Seq<u128>)
    requires
        interval_ms >= 1,
        paced(start_ms, readings, 1),
    ensures
        regular_fires(Runner::started(start_ms), interval_ms, readings) == window_ms(
            start_ms,
            readings,
        ) / (interval_ms as int),
{
    lemma_regular_fire_rate(interval_ms, start_ms, readings, 1);
}

/// A running jitter-mode runner that polls never clicks before the lower
/// end of the band, taken as at least one millisecond, has passed since the
/// last click, and always clicks once the upper end plus the jitter width
/// has passed, whatever delay was drawn. With an empty band it waits.
pub proof fn lemma_jitter_fire_window(
    runner: Runner,
    min_ms: u64,
    max_ms: u64,
    jitter_ms: u64,
    now_ms: u128,
    delay: Result<u128, PolicyError>,
)
    requires
        runner.phase == Phase::Polling,
        jitter_outcome_allowed(min_ms, max_ms, jitter_ms, delay),
    ensures
        ({
            let elapsed = elapsed_ms(runner.last_fire_ms, now_ms);
            let answer = runner.spec_tick(true, now_ms, Mode::Jitter, delay);
            &&& answer.1 is Fire || answer == (runner, Order::Wait)
            &&& elapsed < at_least_one(min_ms) ==> answer.1 is Wait
            &&& delay is Ok && elapsed >= max_ms + jitter_ms ==> answer.1 is Fire
            &&& delay is Err ==> answer.1 is Wait
            &&& answer.1 is Fire ==> answer.0.last_fire_ms == now_ms && at_least_one(min_ms)
                <= elapsed
        }),
{
    if delay is Ok {
        lemma_jitter_delay_bounds(min_ms, max_ms, jitter_ms, delay->Ok_0 as int);
    }
}

/// A tick that observes the cancellation ends the runner, whatever it was
/// doing, and asks for nothing but to leave the loop.
pub proof fn lemma_cancel_ends_runner(
    runner: Runner,
    now_ms: u128,
    mode: Mode,
    delay: Result<u128, PolicyError>,
)
    ensures
        runner.spec_tick(false, now_ms, mode, delay) == (runner.ended(), Order::Exit),
{
}

/// A runner that has ended stays as it is and answers every report with
/// `Exit`.
pub proof fn lemma_finished_stays_finished(runner: Runner, report: Report)
    requires
        runner.phase == Phase::Finished,
    ensures
        runner.step(report) == (runner, Order::Exit),
{
}

/// Once a tick has observed the cancellation, the runner answers that tick
/// and every later report with `Exit`: it asks for no further click and no
/// further line, and it has ended.
pub proof fn lemma_nothing_after_cancel(
    runner: Runner,
    reports: Seq<Report>,
    cancel: int,
    later: int,
)
    requires
        0 <= cancel <= later < reports.len(),
        reports[cancel] is Tick,
        !reports[cancel]->running,
    ensures
        runner.order_at(reports, later) == Order::Exit,
        runner.after(reports.take(later + 1)).phase == Phase::Finished,
    decreases later - cancel,
{
    let through = reports.take(later + 1);
    assert(through.drop_last() =~= reports.take(later));
    assert(through.last() == reports[later]);
    if later > cancel {
        lemma_nothing_after_cancel(runner, reports, cancel, later - 1);
    }
}

} // verus!
