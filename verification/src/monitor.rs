use crate::channel::{ActionKind, ButtonChannel};
use crate::error::{outcome, ErrorKind, ErrorView};
use crate::process::{pgrep, Pid, ProcessTable};
use crate::supervisor::{
    delivered, exit_status, fork, fork_plan, reap_plan, reaped, signal, signal_plan, spawned,
    Delivery, ForkResult, StartStep, WaitResult,
};
use vstd::prelude::*;

verus! {

/// Output behaviour of the data logger, as the button that flips it has it.
#[derive(Clone, Copy, Debug, PartialEq, Eq, Structural)]
pub struct ToggleState {
    pub on: bool,
}

impl ToggleState {
    /// The other state.
    pub open spec fn flipped(self) -> ToggleState {
        ToggleState { on: !self.on }
    }

    /// The state after `presses` flips.
    pub open spec fn after(self, presses: nat) -> ToggleState
        decreases presses,
    {
        if presses == 0 {
            self
        } else {
            self.flipped().after((presses - 1) as nat)
        }
    }

    /// The state at startup: off.
    pub fn new() -> (state: ToggleState)
        ensures
            state == (ToggleState { on: false }),
    {
        ToggleState { on: false }
    }

    /// The other state.
    pub fn flip(self) -> (state: ToggleState)
        ensures
            state == self.flipped(),
    {
        ToggleState { on: !self.on }
    }

    /// Flips add up: `more` flips after `presses` flips are `presses + more`
    /// flips.
    pub proof fn lemma_after_add(self, presses: nat, more: nat)
        ensures
            self.after(presses).after(more) == self.after(presses + more),
        decreases presses,
    {
        if presses > 0 {
            self.flipped().lemma_after_add((presses - 1) as nat, more);
        }
    }

    /// One flip of the startup state turns it on, a second turns it off
    /// again, and any even number of flips leaves a state as it was.
    pub proof fn lemma_round_trip(self, pairs: nat)
        ensures
            (ToggleState { on: false }).after(1) == (ToggleState { on: true }),
            (ToggleState { on: false }).after(2) == (ToggleState { on: false }),
            self.after(2 * pairs) == self,
        decreases pairs,
    {
        reveal_with_fuel(ToggleState::after, 3);
        if pairs > 0 {
            self.lemma_round_trip((pairs - 1) as nat);
            self.lemma_after_add((2 * (pairs - 1)) as nat, 2);
        }
    }
}

/// How the handling of one press ended.
#[derive(Clone, Copy, Debug, PartialEq, Eq, Structural)]
pub enum ActionResult {
    /// A process was started or a signal was delivered.
    Performed,
    /// The press was ignored because the excluded program runs.
    IgnoredExclusivity,
    /// Nothing was to be done: the program to signal does not run.
    IgnoredAlreadyInState,
}

/// Where the handling of a press stands.
#[derive(Clone, Copy, Debug, PartialEq, Eq, Structural)]
pub enum Stage {
    /// Asked for the process table, to see whether the excluded program runs.
    CheckingRival,
    /// Asked for the process table, to see whether the target runs.
    CheckingTarget,
    /// Asked for the process table, to find the process to signal.
    Locating,
    /// Asked for the delivery of a signal.
    Delivering(Delivery),
    /// Asked for a fork of the supervisor.
    Forking,
    /// In the parent, asked to reap the child.
    Reaping(Pid),
    /// In the child, asked for the launch of the target.
    Spawning,
    /// In the child, asked to leave with this status: the child takes no
    /// further press.
    Exiting(i32),
}

/// State of a button monitor.
#[derive(Clone, Copy, Debug, PartialEq, Eq, Structural)]
pub enum State {
    /// Waiting for a press.
    Idle,
    /// A press was reported and its action is under way.
    Triggered(Stage),
}

/// What a monitor asks its caller to do; the caller answers with the
/// matching [`Event`].
#[derive(Clone, Copy, Debug, PartialEq, Eq, Structural)]
pub enum Command {
    /// Block until the next edge on the button's line.
    AwaitEdge,
    /// Read the process table.
    ListProcesses,
    /// Send a signal to a process.
    Deliver(Delivery),
    /// Fork the supervisor.
    Fork,
    /// Wait for the first status change of the child.
    Reap(Pid),
    /// Launch the monitor's target.
    Spawn,
    /// End this process with the given status. Nothing follows it.
    Exit(i32),
}

/// What the caller reports to a monitor.
#[derive(Debug, PartialEq, Eq)]
pub enum Event {
    /// An edge was detected.
    Edge,
    /// Waiting for an edge failed.
    EdgeFailed,
    /// The process table was read, or could not be.
    Processes(ProcessTable),
    /// The signal was sent, or could not be.
    Delivered(bool),
    /// The supervisor was forked, or could not be.
    Forked(ForkResult),
    /// The child was waited for.
    Reaped(WaitResult),
    /// The target was launched, or could not be.
    Spawned(bool),
}

/// Supervises the program behind one button. It decides only: each
/// [`ButtonMonitor::step`] takes the answer to the pending command and
/// gives the next one.
#[derive(Clone, Copy, Debug, PartialEq, Eq, Structural)]
pub struct ButtonMonitor {
    pub channel: ButtonChannel,
    pub toggle: ToggleState,
    pub state: State,
}

/// One move of a monitor: the monitor as it goes on, the command it now
/// waits on, and, where the move ended the handling of a press, how.
#[derive(Clone, Copy, Debug, PartialEq, Eq)]
pub struct Transition {
    pub monitor: ButtonMonitor,
    pub command: Command,
    pub result: Option<ActionResult>,
}

impl State {
    /// The command that a monitor in this state waits on.
    pub open spec fn command(self) -> Command {
        match self {
            State::Idle => Command::AwaitEdge,
            State::Triggered(Stage::CheckingRival) => Command::ListProcesses,
            State::Triggered(Stage::CheckingTarget) => Command::ListProcesses,
            State::Triggered(Stage::Locating) => Command::ListProcesses,
            State::Triggered(Stage::Delivering(delivery)) => Command::Deliver(delivery),
            State::Triggered(Stage::Forking) => Command::Fork,
            State::Triggered(Stage::Reaping(child)) => Command::Reap(child),
            State::Triggered(Stage::Spawning) => Command::Spawn,
            State::Triggered(Stage::Exiting(status)) => Command::Exit(status),
        }
    }
}

impl ButtonMonitor {
    /// Whether the monitor runs in the child of a fork: it is about to
    /// launch its target or to leave.
    pub open spec fn in_child(self) -> bool {
        self.state == State::Triggered(Stage::Spawning) || self.state matches State::Triggered(
            Stage::Exiting(_),
        )
    }

    /// The move that keeps everything as it is and repeats the pending
    /// command.
    pub open spec fn stay(self) -> Transition {
        Transition { monitor: self, command: self.state.command(), result: None }
    }

    /// The move to `stage` of the action under way.
    pub open spec fn proceed(self, stage: Stage) -> Transition {
        let state = State::Triggered(stage);
        Transition {
            monitor: ButtonMonitor { state, ..self },
            command: state.command(),
            result: None,
        }
    }

    /// The move back to waiting, the action having ended with `result`.
    pub open spec fn settle(self, result: ActionResult) -> Transition {
        Transition {
            monitor: ButtonMonitor { state: State::Idle, ..self },
            command: Command::AwaitEdge,
            result: Some(result),
        }
    }

    /// A press: the data logger's button flips the toggle and goes on to
    /// signal the logger; the other two first look for the excluded
    /// program.
    pub open spec fn on_edge(self) -> Transition {
        match self.channel.action {
            ActionKind::ToggleLoggerBehavior => (ButtonMonitor {
                toggle: self.toggle.flipped(),
                ..self
            }).proceed(Stage::Locating),
            _ => self.proceed(Stage::CheckingRival),
        }
    }

    /// The excluded program was looked for in `table`: where it runs the
    /// press is ignored; otherwise the target is looked for next.
    pub open spec fn on_rival_checked(self, table: ProcessTable) -> Result<Transition, ErrorView> {
        match self.channel.action.rival_name() {
            Some(rival) => match table.lookup(rival) {
                Ok(Some(_)) => Ok(self.settle(ActionResult::IgnoredExclusivity)),
                Ok(None) => Ok(self.proceed(Stage::CheckingTarget)),
                Err(error) => Err(error),
            },
            None => Ok(self.proceed(Stage::CheckingTarget)),
        }
    }

    /// The target was looked for in `table`: where it does not run it is
    /// started; where it runs it is signalled, after a lookup of its own.
    pub open spec fn on_target_checked(self, table: ProcessTable) -> Result<Transition, ErrorView> {
        match table.lookup(self.channel.action.target_name()) {
            Ok(Some(_)) => Ok(self.proceed(Stage::Locating)),
            Ok(None) => Ok(self.proceed(Stage::Forking)),
            Err(error) => Err(error),
        }
    }

    /// The process to signal was looked for in `table`: where the target
    /// runs, its first process gets the action's signal; where it does not,
    /// nothing is done.
    pub open spec fn on_located(self, table: ProcessTable) -> Result<Transition, ErrorView> {
        let action = self.channel.action;
        match signal_plan(table, action.target_name(), action.signal_kind()) {
            Ok(Some(delivery)) => Ok(self.proceed(Stage::Delivering(delivery))),
            Ok(None) => Ok(self.settle(ActionResult::IgnoredAlreadyInState)),
            Err(error) => Err(error),
        }
    }

    /// The delivery ended: a signal that was not sent is fatal.
    pub open spec fn on_delivered(self, sent: bool) -> Result<Transition, ErrorView> {
        if sent {
            Ok(self.settle(ActionResult::Performed))
        } else {
            Err(ErrorView::SignalErr(self.channel.action.target_name()))
        }
    }

    /// The fork ended: the parent reaps the child, the child launches the
    /// target, and a failed fork is fatal.
    pub open spec fn on_forked(self, result: ForkResult) -> Result<Transition, ErrorView> {
        match fork_plan(self.channel.action.target_name(), result) {
            Ok(StartStep::Reap { child }) => Ok(self.proceed(Stage::Reaping(child))),
            Ok(StartStep::Spawn) => Ok(self.proceed(Stage::Spawning)),
            Err(error) => Err(error),
        }
    }

    /// The child was waited for: the press is done where the child tells
    /// of a launch, and a launch that is not confirmed is fatal.
    pub open spec fn on_reaped(self, waited: WaitResult) -> Result<Transition, ErrorView> {
        match reap_plan(self.channel.action.target_name(), waited) {
            Ok(_) => Ok(self.settle(ActionResult::Performed)),
            Err(error) => Err(error),
        }
    }

    /// The launch was tried in the child: whatever came of it, the child
    /// leaves, with the status that tells the parent.
    pub open spec fn on_spawned(self, launched: bool) -> Transition {
        self.proceed(Stage::Exiting(exit_status(launched)))
    }

    /// The move that `event` causes: the next monitor, command and result,
    /// or the error that ends the monitor. An event that does not answer
    /// the pending command changes nothing; nothing answers the command to
    /// leave.
    pub open spec fn next(self, event: Event) -> Result<Transition, ErrorView> {
        match (self.state, event) {
            (State::Idle, Event::Edge) => Ok(self.on_edge()),
            (State::Idle, Event::EdgeFailed) => Err(ErrorView::PollInterruptErr),
            (State::Triggered(Stage::CheckingRival), Event::Processes(table)) => {
                self.on_rival_checked(table)
            },
            (State::Triggered(Stage::CheckingTarget), Event::Processes(table)) => {
                self.on_target_checked(table)
            },
            (State::Triggered(Stage::Locating), Event::Processes(table)) => self.on_located(table),
            (State::Triggered(Stage::Delivering(_)), Event::Delivered(sent)) => self.on_delivered(
                sent,
            ),
            (State::Triggered(Stage::Forking), Event::Forked(result)) => self.on_forked(result),
            (State::Triggered(Stage::Reaping(_)), Event::Reaped(waited)) => self.on_reaped(waited),
            (State::Triggered(Stage::Spawning), Event::Spawned(launched)) => Ok(
                self.on_spawned(launched),
            ),
            _ => Ok(self.stay()),
        }
    }

    /// A monitor for `channel`: waiting, with the toggle off.
    pub fn new(channel: ButtonChannel) -> (monitor: ButtonMonitor)
        ensures
            monitor == (ButtonMonitor {
                channel,
                toggle: ToggleState { on: false },
                state: State::Idle,
            }),
    {
        ButtonMonitor { channel, toggle: ToggleState::new(), state: State::Idle }
    }

    /// The command that the monitor waits on.
    pub fn pending(&self) -> (command: Command)
        ensures
            command == self.state.command(),
    {
        match self.state {
            State::Idle => Command::AwaitEdge,
            State::Triggered(Stage::CheckingRival) => Command::ListProcesses,
            State::Triggered(Stage::CheckingTarget) => Command::ListProcesses,
            State::Triggered(Stage::Locating) => Command::ListProcesses,
            State::Triggered(Stage::Delivering(delivery)) => Command::Deliver(delivery),
            State::Triggered(Stage::Forking) => Command::Fork,
            State::Triggered(Stage::Reaping(child)) => Command::Reap(child),
            State::Triggered(Stage::Spawning) => Command::Spawn,
            State::Triggered(Stage::Exiting(status)) => Command::Exit(status),
        }
    }

    /// Repeats the pending command.
    fn keep(self) -> (transition: Transition)
        ensures
            transition == self.stay(),
    {
        let command = self.pending();
        Transition { monitor: self, command, result: None }
    }

    /// Moves on to `stage` of the action under way.
    fn advance(self, stage: Stage) -> (transition: Transition)
        ensures
            transition == self.proceed(stage),
    {
        let monitor = ButtonMonitor {
            channel: self.channel,
            toggle: self.toggle,
            state: State::Triggered(stage),
        };
        let command = monitor.pending();
        Transition { monitor, command, result: None }
    }

    /// Goes back to waiting, the action having ended with `result`.
    fn finish(self, result: ActionResult) -> (transition: Transition)
        ensures
            transition == self.settle(result),
    {
        let monitor = ButtonMonitor {
            channel: self.channel,
            toggle: self.toggle,
            state: State::Idle,
        };
        Transition { monitor, command: Command::AwaitEdge, result: Some(result) }
    }

    /// Takes a reading of the process table while the action stands at
    /// `stage`.
    fn scanned(self, stage: Stage, table: &ProcessTable) -> (out: Result<Transition, ErrorKind>)
        requires
            self.state == State::Triggered(stage),
        ensures
            outcome(out) == self.next(Event::Processes(*table)),
    {
        let action = self.channel.action;
        match stage {
            Stage::CheckingRival => match action.rival() {
                Some(rival) => match pgrep(table, rival) {
                    Ok(Some(_)) => Ok(self.finish(ActionResult::IgnoredExclusivity)),
                    Ok(None) => Ok(self.advance(Stage::CheckingTarget)),
                    Err(error) => Err(error),
                },
                None => Ok(self.advance(Stage::CheckingTarget)),
            },
            Stage::CheckingTarget => match pgrep(table, action.target()) {
                Ok(Some(_)) => Ok(self.advance(Stage::Locating)),
                Ok(None) => Ok(self.advance(Stage::Forking)),
                Err(error) => Err(error),
            },
            Stage::Locating => match signal(table, action.target(), action.signal()) {
                Ok(Some(delivery)) => Ok(self.advance(Stage::Delivering(delivery))),
                Ok(None) => Ok(self.finish(ActionResult::IgnoredAlreadyInState)),
                Err(error) => Err(error),
            },
            _ => Ok(self.keep()),
        }
    }

    /// Takes the answer to the pending command and gives the next move, or
    /// the error that ends the monitor.
    pub fn step(self, event: &Event) -> (out: Result<Transition, ErrorKind>)
        ensures
            outcome(out) == self.next(*event),
            out matches Ok(transition) ==> {
                &&& transition.command == transition.monitor.state.command()
                &&& transition.monitor.channel == self.channel
                &&& transition.result is Some <==> self.state is Triggered
                    && transition.monitor.state is Idle
            },
            self.state is Idle ==> (*event is Edge <==> (out matches Ok(transition)
                && transition.monitor.state is Triggered)),
            self.state is Idle ==> (*event is EdgeFailed <==> out is Err),
            self.in_child() ==> (out matches Ok(transition) && transition.monitor.in_child() && (
            transition.command == Command::Spawn || transition.command is Exit)),
    {
        let action = self.channel.action;
        match self.state {
            State::Idle => match event {
                Event::Edge => match action {
                    ActionKind::ToggleLoggerBehavior => {
                        let flipped = ButtonMonitor {
                            channel: self.channel,
                            toggle: self.toggle.flip(),
                            state: self.state,
                        };
                        Ok(flipped.advance(Stage::Locating))
                    },
                    _ => Ok(self.advance(Stage::CheckingRival)),
                },
                Event::EdgeFailed => Err(ErrorKind::PollInterruptErr),
                _ => Ok(self.keep()),
            },
            State::Triggered(stage) => match event {
                Event::Processes(table) => self.scanned(stage, table),
                Event::Delivered(sent) => match stage {
                    Stage::Delivering(_) => match delivered(action.target(), *sent) {
                        Ok(_) => Ok(self.finish(ActionResult::Performed)),
                        Err(error) => Err(error),
                    },
                    _ => Ok(self.keep()),
                },
                Event::Forked(result) => match stage {
                    Stage::Forking => match fork(action.target(), *result) {
                        Ok(StartStep::Reap { child }) => Ok(self.advance(Stage::Reaping(child))),
                        Ok(StartStep::Spawn) => Ok(self.advance(Stage::Spawning)),
                        Err(error) => Err(error),
                    },
                    _ => Ok(self.keep()),
                },
                Event::Reaped(waited) => match stage {
                    Stage::Reaping(_) => match reaped(action.target(), *waited) {
                        Ok(_) => Ok(self.finish(ActionResult::Performed)),
                        Err(error) => Err(error),
                    },
                    _ => Ok(self.keep()),
                },
                Event::Spawned(launched) => match stage {
                    Stage::Spawning => Ok(self.advance(Stage::Exiting(spawned(*launched)))),
                    _ => Ok(self.keep()),
                },
                _ => Ok(self.keep()),
            },
        }
    }
}

} // verus!
