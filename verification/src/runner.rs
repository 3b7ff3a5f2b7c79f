//! The cadence runner: the decisions of the loop that fires the clicks.
//!
//! The loop itself belongs to the program around this crate, which owns the
//! clock, the click injection and the channel to the log. At every turn it
//! tells the runner what happened and does what the runner answers:
//!
//! 1. [`Command::Wait`]: read the cancellation signal, the settings and the
//!    clock again and call [`Runner::poll`].
//! 2. [`Command::Fire`]: perform one click and call
//!    [`Runner::action_done`] with a line for each failure it met.
//! 3. [`Command::Emit`]: send the lines, in order, and call
//!    [`Runner::emitted`], saying whether all of them were taken.
//! 4. [`Command::Exit`]: leave the loop.
//!
//! A report that does not answer the command given last ends the runner.

use crate::config::{IntervalConfig, Mode};
use crate::entropy::RandomSource;
use crate::events::{click_line, click_text, texts, Click};
use crate::policy::{
    delay_outcome_allowed, jitter_delay, jitter_outcome_allowed, regular_delay, regular_delay_ms,
    PolicyError,
};
use vstd::prelude::*;

verus! {

/// Where a runner stands in its loop.
#[derive(Clone, Copy, Debug, PartialEq, Eq, Structural)]
pub enum Phase {
    /// Waiting for the next reading of the clock.
    Polling,
    /// A click is being performed.
    Firing(Click),
    /// The lines of the last click are being sent.
    Emitting,
    /// The runner has ended and does nothing more.
    Finished,
}

/// The state of one cadence runner.
#[derive(Clone, Copy, Debug, PartialEq, Eq, Structural)]
pub struct Runner {
    /// Where the runner stands in its loop.
    pub phase: Phase,
    /// The clock reading, in milliseconds, at which the last click was
    /// decided; before the first click, the reading at which the runner
    /// started.
    pub last_fire_ms: u128,
}

/// What the runner asks the loop to do next.
#[derive(Debug, PartialEq, Eq)]
pub enum Command {
    /// Nothing is due: poll again.
    Wait,
    /// Perform one click.
    Fire,
    /// Send these lines to the log, in this order.
    Emit(Vec<String>),
    /// Leave the loop: the runner has ended.
    Exit,
}

/// A command as contracts see it: the lines of `Emit` by their texts.
pub enum Order {
    Wait,
    Fire,
    Emit(Seq<Seq<char>>),
    Exit,
}

impl View for Command {
    type V = Order;

    open spec fn view(&self) -> Order {
        match *self {
            Command::Wait => Order::Wait,
            Command::Fire => Order::Fire,
            Command::Emit(lines) => Order::Emit(texts(lines@)),
            Command::Exit => Order::Exit,
        }
    }
}

/// What the loop reports to the runner.
pub enum Report {
    /// The cancellation signal, the clock and the delay of this cycle were
    /// read.
    Tick { running: bool, now_ms: u128, mode: Mode, delay: Result<u128, PolicyError> },
    /// The click was performed; one text for each failure met.
    ActionDone { failures: Seq<Seq<char>> },
    /// The lines were sent; `delivered` tells whether all were taken.
    Emitted { delivered: bool },
}

/// The milliseconds from `last_fire_ms` to `now_ms`, and zero for a reading
/// that lies before the last click.
pub open spec fn elapsed_ms(last_fire_ms: u128, now_ms: u128) -> int {
    if now_ms >= last_fire_ms {
        now_ms - last_fire_ms
    } else {
        0
    }
}

/// A click is due: the policy gave a delay and at least that much time has
/// passed since the last click.
pub open spec fn is_due(last_fire_ms: u128, now_ms: u128, delay: Result<u128, PolicyError>) -> bool {
    delay is Ok && elapsed_ms(last_fire_ms, now_ms) >= delay->Ok_0
}

/// What a click of `mode` reports when it fires after `delay_ms`.
pub open spec fn click_of(mode: Mode, delay_ms: u128) -> Click {
    match mode {
        Mode::Regular => Click::Regular,
        Mode::Jitter => Click::Jitter { delay_ms },
    }
}

impl Runner {
    /// A runner that starts polling at the clock reading `now_ms`.
    pub open spec fn started(now_ms: u128) -> Runner {
        Runner { phase: Phase::Polling, last_fire_ms: now_ms }
    }

    /// This runner, ended.
    pub open spec fn ended(self) -> Runner {
        Runner { phase: Phase::Finished, last_fire_ms: self.last_fire_ms }
    }

    /// The top of one loop iteration.
    ///
    /// A polling runner ends when the cancellation signal is observed
    /// (`running` is false). Otherwise it fires when a click is due, and
    /// remembers the reading; when none is due, or the policy gave no
    /// delay, it waits and changes nothing.
    pub open spec fn spec_tick(
        self,
        running: bool,
        now_ms: u128,
        mode: Mode,
        delay: Result<u128, PolicyError>,
    ) -> (Runner, Order) {
        match self.phase {
            Phase::Polling => {
                if !running {
                    (self.ended(), Order::Exit)
                } else if is_due(self.last_fire_ms, now_ms, delay) {
                    (
                        Runner {
                            phase: Phase::Firing(click_of(mode, delay->Ok_0)),
                            last_fire_ms: now_ms,
                        },
                        Order::Fire,
                    )
                } else {
                    (self, Order::Wait)
                }
            },
            _ => (self.ended(), Order::Exit),
        }
    }

    /// After the click: the failures are logged, then the click itself. A
    /// failed click does not stop the cadence.
    pub open spec fn spec_action_done(self, failures: Seq<Seq<char>>) -> (Runner, Order) {
        match self.phase {
            Phase::Firing(click) => (
                Runner { phase: Phase::Emitting, last_fire_ms: self.last_fire_ms },
                Order::Emit(failures.push(click_text(click))),
            ),
            _ => (self.ended(), Order::Exit),
        }
    }

    /// After the lines were sent: back to polling, unless the log no longer
    /// takes lines, which ends the runner.
    pub open spec fn spec_emitted(self, delivered: bool) -> (Runner, Order) {
        match self.phase {
            Phase::Emitting => {
                if delivered {
                    (
                        Runner { phase: Phase::Polling, last_fire_ms: self.last_fire_ms },
                        Order::Wait,
                    )
                } else {
                    (self.ended(), Order::Exit)
                }
            },
            _ => (self.ended(), Order::Exit),
        }
    }

    /// The runner's answer to any report.
    pub open spec fn step(self, report: Report) -> (Runner, Order) {
        match report {
            Report::Tick { running, now_ms, mode, delay } => self.spec_tick(
                running,
                now_ms,
                mode,
                delay,
            ),
            Report::ActionDone { failures } => self.spec_action_done(failures),
            Report::Emitted { delivered } => self.spec_emitted(delivered),
        }
    }

    /// The state after a sequence of reports.
    pub open spec fn after(self, reports: Seq<Report>) -> Runner
        decreases reports.len(),
    {
        if reports.len() == 0 {
            self
        } else {
            self.after(reports.drop_last()).step(reports.last()).0
        }
    }

    /// The command given in answer to the report at position `index`.
    pub open spec fn order_at(self, reports: Seq<Report>, index: int) -> Order
        recommends
            0 <= index < reports.len(),
    {
        self.after(reports.take(index)).step(reports[index]).1
    }

    /// Starts a runner at the clock reading `now_ms`.
    pub fn start(now_ms: u128) -> (runner: Runner)
        ensures
            runner == Runner::started(now_ms),
    {
        Runner { phase: Phase::Polling, last_fire_ms: now_ms }
    }

    /// Tells whether the runner has ended.
    pub fn is_finished(&self) -> (finished: bool)
        ensures
            finished == (self.phase == Phase::Finished),
    {
        match self.phase {
            Phase::Finished => true,
            _ => false,
        }
    }

    /// The top of one loop iteration, with the delay of this cycle given.
    pub fn tick(
        &mut self,
        running: bool,
        now_ms: u128,
        mode: Mode,
        delay: Result<u128, PolicyError>,
    ) -> (command: Command)
        ensures
            (*final(self), command@) == old(self).spec_tick(running, now_ms, mode, delay),
    {
        match self.phase {
            Phase::Polling => {
                if !running {
                    self.phase = Phase::Finished;
                    return Command::Exit;
                }
                match delay {
                    Ok(delay_ms) => {
                        let elapsed: u128 = if now_ms >= self.last_fire_ms {
                            now_ms - self.last_fire_ms
                        } else {
                            0
                        };
                        if elapsed >= delay_ms {
                            let click = match mode {
                                Mode::Regular => Click::Regular,
                                Mode::Jitter => Click::Jitter { delay_ms },
                            };
                            self.phase = Phase::Firing(click);
                            self.last_fire_ms = now_ms;
                            Command::Fire
                        } else {
                            Command::Wait
                        }
                    },
                    Err(_) => Command::Wait,
                }
            },
            _ => {
                self.phase = Phase::Finished;
                Command::Exit
            },
        }
    }

    /// Reports that the click was performed. `failures` holds one line for
    /// each failure the click met, and is empty when it met none.
    pub fn action_done(&mut self, failures: Vec<String>) -> (command: Command)
        ensures
            (*final(self), command@) == old(self).spec_action_done(texts(failures@)),
    {
        match self.phase {
            Phase::Firing(click) => {
                let mut lines = failures;
                lines.push(click_line(click));
                assert(texts(lines@) =~= texts(failures@).push(click_text(click)));
                self.phase = Phase::Emitting;
                Command::Emit(lines)
            },
            _ => {
                self.phase = Phase::Finished;
                Command::Exit
            },
        }
    }

    /// Reports that the lines were sent. `delivered` is false when the log
    /// no longer takes lines.
    pub fn emitted(&mut self, delivered: bool) -> (command: Command)
        ensures
            (*final(self), command@) == old(self).spec_emitted(delivered),
    {
        match self.phase {
            Phase::Emitting => {
                if delivered {
                    self.phase = Phase::Polling;
                    Command::Wait
                } else {
                    self.phase = Phase::Finished;
                    Command::Exit
                }
            },
            _ => {
                self.phase = Phase::Finished;
                Command::Exit
            },
        }
    }

    /// The top of one loop iteration of a runner of `mode`: reads the delay
    /// of this cycle from the policy and decides.
    ///
    /// In the regular mode the answer is that of [`regular_clicker`]. In
    /// the jitter mode the delay is drawn anew, so the answer is that of
    /// [`Runner::tick`] for one of the outcomes the policy allows.
    pub fn poll(
        &mut self,
        source: &mut RandomSource,
        mode: Mode,
        running: bool,
        config: &IntervalConfig,
        now_ms: u128,
    ) -> (command: Command)
        ensures
            exists|delay: Result<u128, PolicyError>|
                delay_outcome_allowed(*config, mode, delay) && (*final(self), command@) == old(
                    self,
                ).spec_tick(running, now_ms, mode, delay),
    {
        match mode {
            Mode::Regular => {
                let command = regular_clicker(self, running, config.fixed_interval_ms, now_ms);
                proof {
                    let delay = Ok::<u128, PolicyError>(
                        regular_delay_ms(config.fixed_interval_ms) as u128,
                    );
                    assert(delay_outcome_allowed(*config, mode, delay));
                }
                command
            },
            Mode::Jitter => {
                let command = jitter_clicker(
                    self,
                    source,
                    running,
                    config.min_ms,
                    config.max_ms,
                    config.jitter_ms,
                    now_ms,
                );
                proof {
                    let delay = choose|delay: Result<u128, PolicyError>|
                        jitter_outcome_allowed(
                            config.min_ms,
                            config.max_ms,
                            config.jitter_ms,
                            delay,
                        ) && (*self, command@) == old(self).spec_tick(
                            running,
                            now_ms,
                            Mode::Jitter,
                            delay,
                        );
                    assert(delay_outcome_allowed(*config, mode, delay));
                }
                command
            },
        }
    }
}

/// The top of one loop iteration of the regular mode.
///
/// The runner ends when `running` is false. Otherwise it fires when at
/// least `max(1, interval_ms)` milliseconds have passed since the last
/// click, and waits when they have not.
pub fn regular_clicker(runner: &mut Runner, running: bool, interval_ms: u64, now_ms: u128) -> (command:
    Command)
    ensures
        (*final(runner), command@) == old(runner).spec_tick(
            running,
            now_ms,
            Mode::Regular,
            Ok(regular_delay_ms(interval_ms) as u128),
        ),
{
    let delay_ms: u64 = regular_delay(interval_ms);
    runner.tick(running, now_ms, Mode::Regular, Ok(delay_ms as u128))
}

/// The top of one loop iteration of the jitter mode.
///
/// The runner ends when `running` is false. Otherwise a delay is drawn for
/// this cycle, and the runner fires when at least that much time has passed
/// since the last click. With an empty band no delay can be drawn: the
/// runner then waits, without a click and without a line, until the
/// settings are mended or the runner is cancelled.
pub fn jitter_clicker(
    runner: &mut Runner,
    source: &mut RandomSource,
    running: bool,
    min_ms: u64,
    max_ms: u64,
    jitter_ms: u64,
    now_ms: u128,
) -> (command: Command)
    ensures
        exists|delay: Result<u128, PolicyError>|
            jitter_outcome_allowed(min_ms, max_ms, jitter_ms, delay) && (*final(runner), command@)
                == old(runner).spec_tick(running, now_ms, Mode::Jitter, delay),
{
    let delay = jitter_delay(source, min_ms, max_ms, jitter_ms);
    runner.tick(running, now_ms, Mode::Jitter, delay)
}

} // verus!
