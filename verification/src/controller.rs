//! The run controller: one toggle that starts and stops the runners.
//!
//! Every trigger, the button of the control surface and the global hotkey
//! alike, is the same call of [`RunController::toggle`]. The program keeps
//! the controller behind one lock, so that the calls are serialized and a
//! runner reads its cancellation signal from the same value.
//!
//! Every start gets a run number of its own. A runner keeps running only
//! while its mode is flagged *and* the latest start is its own, so a runner
//! that was stopped stays stopped even when its mode is started again
//! before it has looked at its signal.

use crate::config::Mode;
use crate::events::{started_line, started_text, stopped_line, stopped_text, texts};
use vstd::prelude::*;

verus! {

/// The running flags of the two modes and the number of the latest start.
///
/// The value is plain data. The states a controller is ever in are the
/// [`RunState::exclusive`] ones.
#[derive(Clone, Copy, Debug, PartialEq, Eq, Structural)]
pub struct RunState {
    /// A runner of the regular mode is meant to run.
    pub regular_running: bool,
    /// A runner of the jitter mode is meant to run.
    pub jitter_running: bool,
    /// The number of the latest start; zero before the first.
    pub run: u64,
}

/// The identity of one started runner: its mode and the number of the
/// start that launched it.
#[derive(Clone, Copy, Debug, PartialEq, Eq, Structural)]
pub struct Launch {
    /// The cadence the runner follows.
    pub mode: Mode,
    /// The number of the start that launched the runner.
    pub run: u64,
}

/// What the control surface shows of the run state.
#[derive(Clone, Copy, Debug, PartialEq, Eq, Structural)]
pub enum Status {
    /// No runner is meant to run.
    Idle,
    /// A runner of this mode is meant to run.
    Running(Mode),
}

/// What a toggle asks of the program.
#[derive(Debug, PartialEq, Eq)]
pub struct Transition {
    /// The runner to launch, if the toggle started one. A toggle that
    /// stops launches nothing: the runner sees its signal cleared and ends
    /// by itself.
    pub launch: Option<Launch>,
    /// The lines to append to the log, in this order; after the launch,
    /// where there is one.
    pub lines: Vec<String>,
}

impl RunState {
    /// The state a controller begins in: nothing runs and nothing was
    /// started yet.
    pub open spec fn initial() -> RunState {
        RunState { regular_running: false, jitter_running: false, run: 0 }
    }

    /// Nothing runs.
    pub open spec fn is_idle(self) -> bool {
        !self.regular_running && !self.jitter_running
    }

    /// The two modes do not run at once.
    pub open spec fn exclusive(self) -> bool {
        !(self.regular_running && self.jitter_running)
    }

    /// The flag of `mode`.
    pub open spec fn flagged(self, mode: Mode) -> bool {
        match mode {
            Mode::Regular => self.regular_running,
            Mode::Jitter => self.jitter_running,
        }
    }

    /// The "keep running" signal of the runner that `launch` names: its
    /// mode is flagged and no start came after its own.
    pub open spec fn keeps_running(self, launch: Launch) -> bool {
        self.flagged(launch.mode) && self.run == launch.run
    }

    /// A further start can be numbered.
    pub open spec fn can_start(self) -> bool {
        self.run < u64::MAX
    }

    /// This state with nothing running. The run number stays.
    pub open spec fn stopped(self) -> RunState {
        RunState { regular_running: false, jitter_running: false, run: self.run }
    }

    /// The state in which only the runner of `mode` runs, under the next
    /// run number.
    pub open spec fn started(self, mode: Mode) -> RunState
        recommends
            self.can_start(),
    {
        match mode {
            Mode::Regular => RunState {
                regular_running: true,
                jitter_running: false,
                run: (self.run + 1) as u64,
            },
            Mode::Jitter => RunState {
                regular_running: false,
                jitter_running: true,
                run: (self.run + 1) as u64,
            },
        }
    }

    /// What the control surface shows. Of a state with both flags set,
    /// which no controller is ever in, it names the regular mode.
    pub open spec fn status(self) -> Status {
        if self.regular_running {
            Status::Running(Mode::Regular)
        } else if self.jitter_running {
            Status::Running(Mode::Jitter)
        } else {
            Status::Idle
        }
    }

    /// The state after a toggle. From idle, the mode that `selector` names
    /// starts under the next run number; when the run numbers are used up,
    /// nothing starts and the state stays as it is. From any other state
    /// everything stops, both modes if both flags were set, and `selector`
    /// is not read.
    pub open spec fn toggled(self, selector: Mode) -> RunState {
        if !self.is_idle() {
            self.stopped()
        } else if self.can_start() {
            self.started(selector)
        } else {
            self
        }
    }

    /// The runner that a toggle launches.
    pub open spec fn toggle_launch(self, selector: Mode) -> Option<Launch> {
        if self.is_idle() && self.can_start() {
            Some(Launch { mode: selector, run: (self.run + 1) as u64 })
        } else {
            None
        }
    }

    /// The lines that a toggle logs: the start of the selected mode, or the
    /// stop of each mode that ran, the regular mode first. A toggle that
    /// cannot start logs nothing.
    pub open spec fn toggle_texts(self, selector: Mode) -> Seq<Seq<char>> {
        if !self.is_idle() {
            let regular = if self.regular_running {
                seq![stopped_text(Mode::Regular)]
            } else {
                Seq::<Seq<char>>::empty()
            };
            let jitter = if self.jitter_running {
                seq![stopped_text(Mode::Jitter)]
            } else {
                Seq::<Seq<char>>::empty()
            };
            regular + jitter
        } else if self.can_start() {
            seq![started_text(selector)]
        } else {
            Seq::<Seq<char>>::empty()
        }
    }

    /// The state after the toggles `selectors`, one after the other.
    pub open spec fn after_toggles(self, selectors: Seq<Mode>) -> RunState
        decreases selectors.len(),
    {
        if selectors.len() == 0 {
            self
        } else {
            self.after_toggles(selectors.drop_last()).toggled(selectors.last())
        }
    }

    /// One toggle, as a function of the state: the next state and what the
    /// program has to do. Total on every state.
    pub fn toggle(self, selector: Mode) -> (next: (RunState, Transition))
        ensures
            next.0 == self.toggled(selector),
            next.1.launch == self.toggle_launch(selector),
            texts(next.1.lines@) == self.toggle_texts(selector),
    {
        let mut lines: Vec<String> = Vec::new();
        if self.regular_running || self.jitter_running {
            if self.regular_running {
                lines.push(stopped_line(Mode::Regular));
            }
            if self.jitter_running {
                lines.push(stopped_line(Mode::Jitter));
            }
            assert(texts(lines@) =~= self.toggle_texts(selector));
            (
                RunState { regular_running: false, jitter_running: false, run: self.run },
                Transition { launch: None, lines },
            )
        } else if self.run < u64::MAX {
            let run: u64 = self.run + 1;
            lines.push(started_line(selector));
            assert(texts(lines@) =~= self.toggle_texts(selector));
            let state = match selector {
                Mode::Regular => RunState { regular_running: true, jitter_running: false, run },
                Mode::Jitter => RunState { regular_running: false, jitter_running: true, run },
            };
            (state, Transition { launch: Some(Launch { mode: selector, run }), lines })
        } else {
            assert(texts(lines@) =~= self.toggle_texts(selector));
            (self, Transition { launch: None, lines })
        }
    }
}

/// The owner of the run state. It starts idle and changes only by
/// [`RunController::toggle`], so the two modes never run at once.
pub struct RunController {
    state: RunState,
}

impl View for RunController {
    type V = RunState;

    closed spec fn view(&self) -> RunState {
        self.state
    }
}

impl RunController {
    #[verifier::type_invariant]
    spec fn exclusive_modes(self) -> bool {
        self.state.exclusive()
    }

    /// A controller with nothing running.
    pub fn new() -> (controller: RunController)
        ensures
            controller@ == RunState::initial(),
    {
        RunController {
            state: RunState { regular_running: false, jitter_running: false, run: 0 },
        }
    }

    /// Starts the mode that `selector` names when nothing runs, and stops
    /// what runs otherwise. The runner to launch comes back with the
    /// number of this start; every runner launched before it reads a
    /// cleared signal from now on.
    pub fn toggle(&mut self, selector: Mode) -> (transition: Transition)
        ensures
            final(self)@ == old(self)@.toggled(selector),
            final(self)@.exclusive(),
            transition.launch == old(self)@.toggle_launch(selector),
            texts(transition.lines@) == old(self)@.toggle_texts(selector),
    {
        let (state, transition) = self.state.toggle(selector);
        self.state = state;
        transition
    }

    /// The run state at this instant. The two flags are never both set.
    pub fn state(&self) -> (state: RunState)
        ensures
            state == self@,
            state.exclusive(),
    {
        proof {
            use_type_invariant(self);
        }
        self.state
    }

    /// What the control surface shows at this instant.
    pub fn status(&self) -> (status: Status)
        ensures
            status == self@.status(),
            status == Status::Idle <==> self@.is_idle(),
            forall|mode: Mode|
                status == Status::Running(mode) <==> #[trigger] self@.flagged(mode),
    {
        proof {
            use_type_invariant(self);
        }
        if self.state.regular_running {
            Status::Running(Mode::Regular)
        } else if self.state.jitter_running {
            Status::Running(Mode::Jitter)
        } else {
            Status::Idle
        }
    }

    /// The "keep running" signal of the runner that `launch` names: true
    /// while its mode is flagged and no start came after its own. Once a
    /// toggle has cleared it, it is never true again.
    pub fn keeps_running(&self, launch: Launch) -> (running: bool)
        ensures
            running == self@.keeps_running(launch),
    {
        let flagged = match launch.mode {
            Mode::Regular => self.state.regular_running,
            Mode::Jitter => self.state.jitter_running,
        };
        flagged && self.state.run == launch.run
    }
}

/// Two toggles in a row lead back to where the first began: from idle to
/// idle, and from running to running, with one more start numbered. The
/// one state left out is a running one that holds the last run number,
/// after which nothing can start.
pub proof fn lemma_toggle_twice(state: RunState, first: Mode, second: Mode)
    requires
        state.is_idle() || state.can_start(),
    ensures
        state.toggled(first).toggled(second).is_idle() == state.is_idle(),
        state.is_idle() ==> state.toggled(first).toggled(second) == state.toggled(first).stopped(),
        state.is_idle() && state.can_start() ==> state.toggled(first) == state.started(first),
        !state.is_idle() ==> state.toggled(first) == state.stopped(),
        !state.is_idle() ==> state.toggled(first).toggled(second) == state.started(second),
{
}

/// After a toggle the two modes do not run at once, whatever the state
/// before it was.
pub proof fn lemma_toggle_exclusive(state: RunState, selector: Mode)
    ensures
        state.toggled(selector).exclusive(),
        state.toggled(selector).is_idle() || (state.toggled(selector).flagged(selector)
            && state.toggled(selector).status() == Status::Running(selector)),
{
}

/// In every state that toggles lead to from the initial one, the two modes
/// do not run at once.
pub proof fn lemma_never_both(selectors: Seq<Mode>)
    ensures
        RunState::initial().after_toggles(selectors).exclusive(),
    decreases selectors.len(),
{
    if selectors.len() > 0 {
        lemma_never_both(selectors.drop_last());
    }
}

/// The runner that a toggle launches reads a set signal right after the
/// toggle, and its run number is one that no earlier start had.
pub proof fn lemma_launch_is_live(state: RunState, selector: Mode)
    requires
        state.toggle_launch(selector) is Some,
    ensures
        state.toggled(selector).keeps_running(state.toggle_launch(selector)->Some_0),
        state.toggle_launch(selector)->Some_0.mode == selector,
        state.toggle_launch(selector)->Some_0.run > state.run,
{
}

/// At most one runner is live: in a state where the two modes do not run
/// at once, two launches that both read a set signal are the same launch.
pub proof fn lemma_one_live_launch(state: RunState, one: Launch, other: Launch)
    requires
        state.exclusive(),
        state.keeps_running(one),
        state.keeps_running(other),
    ensures
        one == other,
{
}

/// Toggles never lower the run number.
pub proof fn lemma_run_never_decreases(state: RunState, selectors: Seq<Mode>)
    ensures
        state.after_toggles(selectors).run >= state.run,
    decreases selectors.len(),
{
    if selectors.len() > 0 {
        lemma_run_never_decreases(state, selectors.drop_last());
    }
}

/// A runner whose signal is cleared stays stopped: whatever toggles
/// follow, a start of its own mode included, its signal is never set
/// again.
pub proof fn lemma_stopped_run_stays_stopped(state: RunState, launch: Launch, selectors: Seq<Mode>)
    requires
        launch.run <= state.run,
        !state.keeps_running(launch),
    ensures
        !state.after_toggles(selectors).keeps_running(launch),
        launch.run <= state.after_toggles(selectors).run,
    decreases selectors.len(),
{
    if selectors.len() > 0 {
        lemma_stopped_run_stays_stopped(state, launch, selectors.drop_last());
    }
}

/// Start, stop, start: the runner of the first start reads a cleared
/// signal after the stop and after every toggle that follows, and the
/// runner of the second start is the only live one.
pub proof fn lemma_restart_leaves_one_runner(
    state: RunState,
    first: Mode,
    stop: Mode,
    second: Mode,
    later: Seq<Mode>,
)
    requires
        state.toggle_launch(first) is Some,
    ensures
        ({
            let old_launch = state.toggle_launch(first)->Some_0;
            let stopped = state.toggled(first).toggled(stop);
            let restarted = stopped.toggled(second);
            &&& !stopped.keeps_running(old_launch)
            &&& !restarted.keeps_running(old_launch)
            &&& !restarted.after_toggles(later).keeps_running(old_launch)
            &&& stopped.toggle_launch(second) is Some ==> restarted.keeps_running(
                stopped.toggle_launch(second)->Some_0,
            ) && stopped.toggle_launch(second)->Some_0 != old_launch
        }),
{
    let old_launch = state.toggle_launch(first)->Some_0;
    let stopped = state.toggled(first).toggled(stop);
    lemma_stopped_run_stays_stopped(stopped.toggled(second), old_launch, later);
}

} // verus!
