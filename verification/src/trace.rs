use crate::channel::ActionKind;
use crate::error::{outcome, ErrorKind, ErrorView};
use crate::monitor::{ButtonMonitor, Command, Event, Stage, State};
use crate::process::Pid;
use crate::supervisor::{exit_status, ForkResult, Signal, WaitResult};
use vstd::prelude::*;

verus! {

impl ButtonMonitor {
    /// The commands that the monitor issues while it takes `events` one by
    /// one, a command per event; the run ends with the events or with the
    /// first fatal one.
    pub open spec fn commands(self, events: Seq<Event>) -> Seq<Command>
        decreases events.len(),
    {
        if events.len() == 0 {
            Seq::empty()
        } else {
            match self.next(events[0]) {
                Ok(transition) => seq![transition.command] + transition.monitor.commands(
                    events.drop_first(),
                ),
                Err(_) => Seq::empty(),
            }
        }
    }

    /// The monitor as it stands once it has taken all of `events`, or the
    /// error of the first fatal one.
    pub open spec fn end(self, events: Seq<Event>) -> Result<ButtonMonitor, ErrorView>
        decreases events.len(),
    {
        if events.len() == 0 {
            Ok(self)
        } else {
            match self.next(events[0]) {
                Ok(transition) => transition.monitor.end(events.drop_first()),
                Err(error) => Err(error),
            }
        }
    }

    /// The number of presses among `events` that the monitor takes up: the
    /// edges that reach it while it waits.
    pub open spec fn presses(self, events: Seq<Event>) -> nat
        decreases events.len(),
    {
        if events.len() == 0 {
            0
        } else {
            match self.next(events[0]) {
                Ok(transition) => {
                    let taken: nat = if self.state is Idle && events[0] is Edge {
                        1
                    } else {
                        0
                    };
                    taken + transition.monitor.presses(events.drop_first())
                },
                Err(_) => 0,
            }
        }
    }

    /// Whether the monitor neither starts a process nor is about to, and
    /// has no signal under way but the one of its action.
    pub open spec fn only_signals(self) -> bool {
        match self.state {
            State::Idle => true,
            State::Triggered(Stage::CheckingRival) => true,
            State::Triggered(Stage::CheckingTarget) => true,
            State::Triggered(Stage::Locating) => true,
            State::Triggered(Stage::Delivering(delivery)) => delivery.signal
                == self.channel.action.signal_kind(),
            _ => false,
        }
    }

    /// Runs the monitor over a script of events: the commands it issued,
    /// and the monitor as it stands after the last event, or the error of
    /// the first fatal one.
    pub fn replay(self, events: &Vec<Event>) -> (run: (Vec<Command>, Result<ButtonMonitor, ErrorKind>))
        ensures
            run.0@ == self.commands(events@),
            outcome(run.1) == self.end(events@),
    {
        let mut issued: Vec<Command> = Vec::new();
        let mut current = self;
        let mut i: usize = 0;
        proof {
            assert(events@.skip(0) =~= events@);
            assert(issued@ + current.commands(events@) =~= current.commands(events@));
        }
        while i < events.len()
            invariant
                i <= events.len(),
                self.commands(events@) == issued@ + current.commands(events@.skip(i as int)),
                self.end(events@) == current.end(events@.skip(i as int)),
            decreases events.len() - i,
        {
            let ghost rest = events@.skip(i as int);
            proof {
                assert(rest[0] == events@[i as int]);
                assert(rest.drop_first() =~= events@.skip(i + 1));
            }
            match current.step(&events[i]) {
                Ok(transition) => {
                    proof {
                        assert((issued@ + seq![transition.command]) + transition.monitor.commands(
                            rest.drop_first(),
                        ) =~= issued@ + (seq![transition.command] + transition.monitor.commands(
                            rest.drop_first(),
                        )));
                    }
                    issued.push(transition.command);
                    current = transition.monitor;
                },
                Err(error) => {
                    proof {
                        assert(issued@ + Seq::<Command>::empty() =~= issued@);
                    }
                    return (issued, Err(error));
                },
            }
            i += 1;
        }
        proof {
            assert(issued@ + Seq::<Command>::empty() =~= issued@);
        }
        (issued, Ok(current))
    }

    /// The commands of a run are the command of its first move, followed
    /// by the commands of the rest of the run.
    pub proof fn lemma_commands_unfold(self, events: Seq<Event>)
        requires
            events.len() > 0,
            self.next(events[0]) is Ok,
        ensures
            ({
                let first = self.next(events[0])->Ok_0;
                let tail = first.monitor.commands(events.drop_first());
                &&& self.commands(events).len() == tail.len() + 1
                &&& self.commands(events)[0] == first.command
                &&& forall|j: int|
                    0 < j <= tail.len() ==> #[trigger] self.commands(events)[j] == tail[j - 1]
            }),
    {
    }

    /// Mutual exclusion. While every reading of the process table shows
    /// the excluded program running, a monitor that waits, however many
    /// presses reach it, only ever waits for edges and reads the table: it
    /// starts nothing and signals nothing.
    pub proof fn lemma_excluded_presses_do_nothing(self, events: Seq<Event>)
        requires
            self.channel.action.rival_name() is Some,
            self.state is Idle || self.state == State::Triggered(Stage::CheckingRival),
            forall|i: int|
                0 <= i < events.len() ==> (#[trigger] events[i] matches Event::Processes(table)
                    ==> table.shows(self.channel.action.rival_name()->0)),
        ensures
            forall|j: int|
                0 <= j < self.commands(events).len() ==> {
                    let command = #[trigger] self.commands(events)[j];
                    command == Command::AwaitEdge || command == Command::ListProcesses
                },
            self.end(events) matches Ok(after) ==> after.toggle == self.toggle && (after.state
                is Idle || after.state == State::Triggered(Stage::CheckingRival)),
        decreases events.len(),
    {
        if events.len() > 0 {
            let rest = events.drop_first();
            assert(forall|i: int| 0 <= i < rest.len() ==> rest[i] == events[i + 1]);
            if let Event::Processes(table) = events[0] {
                table.lemma_lookup(self.channel.action.rival_name()->0);
            }
            if let Ok(first) = self.next(events[0]) {
                first.monitor.lemma_excluded_presses_do_nothing(rest);
                self.lemma_commands_unfold(events);
            }
        }
    }

    /// A running target is never started again. While every reading of
    /// the process table shows the target running, a monitor that is not
    /// in the middle of a start never asks for a fork, a reaping, a launch
    /// or an exit, and every signal it asks for is the one of its action:
    /// the graceful stop for the stream server and the capture application.
    pub proof fn lemma_running_target_not_started(self, events: Seq<Event>)
        requires
            self.only_signals(),
            forall|i: int|
                0 <= i < events.len() ==> (#[trigger] events[i] matches Event::Processes(table)
                    ==> table.shows(self.channel.action.target_name())),
        ensures
            forall|j: int|
                0 <= j < self.commands(events).len() ==> {
                    let command = #[trigger] self.commands(events)[j];
                    &&& command != Command::Fork
                    &&& command != Command::Spawn
                    &&& !(command is Reap)
                    &&& !(command is Exit)
                    &&& command matches Command::Deliver(delivery) ==> delivery.signal
                        == self.channel.action.signal_kind()
                },
            self.end(events) matches Ok(after) ==> after.only_signals(),
        decreases events.len(),
    {
        if events.len() > 0 {
            let rest = events.drop_first();
            assert(forall|i: int| 0 <= i < rest.len() ==> rest[i] == events[i + 1]);
            if let Event::Processes(table) = events[0] {
                table.lemma_lookup(self.channel.action.target_name());
            }
            if let Ok(first) = self.next(events[0]) {
                first.monitor.lemma_running_target_not_started(rest);
                self.lemma_commands_unfold(events);
            }
        }
    }

    /// The data logger is only ever signalled. Whatever the events, the
    /// monitor of the logger's button, taken while it waits, never asks
    /// for a fork, a reaping, a launch or an exit, and every signal it asks
    /// for is the toggle signal.
    pub proof fn lemma_logger_only_signalled(self, events: Seq<Event>)
        requires
            self.channel.action == ActionKind::ToggleLoggerBehavior,
            self.state is Idle || self.state == State::Triggered(Stage::Locating) || (
            self.state matches State::Triggered(Stage::Delivering(delivery)) && delivery.signal
                == Signal::SIGUSR1),
        ensures
            forall|j: int|
                0 <= j < self.commands(events).len() ==> {
                    let command = #[trigger] self.commands(events)[j];
                    &&& command != Command::Fork
                    &&& command != Command::Spawn
                    &&& !(command is Reap)
                    &&& !(command is Exit)
                    &&& command matches Command::Deliver(delivery) ==> delivery.signal
                        == Signal::SIGUSR1
                },
        decreases events.len(),
    {
        if events.len() > 0 {
            if let Ok(first) = self.next(events[0]) {
                first.monitor.lemma_logger_only_signalled(events.drop_first());
                self.lemma_commands_unfold(events);
            }
        }
    }

    /// A start returns once. In the child of a fork nothing of the
    /// monitor goes on: whatever the events, the child never fails, never
    /// waits for an edge, reads the table, sends a signal, forks or reaps;
    /// it asks for the launch and then only to leave, and once it has asked
    /// to leave with a status it asks for that again and nothing else.
    pub proof fn lemma_child_launches_and_leaves(self, events: Seq<Event>)
        requires
            self.in_child(),
        ensures
            self.commands(events).len() == events.len(),
            forall|j: int|
                0 <= j < self.commands(events).len() ==> {
                    let command = #[trigger] self.commands(events)[j];
                    &&& command == Command::Spawn || command is Exit
                    &&& self.state matches State::Triggered(Stage::Exiting(status)) ==> command
                        == Command::Exit(status)
                },
            self.end(events) matches Ok(after) && after.in_child() && after.toggle == self.toggle,
        decreases events.len(),
    {
        if events.len() > 0 {
            let first = self.next(events[0])->Ok_0;
            first.monitor.lemma_child_launches_and_leaves(events.drop_first());
            self.lemma_commands_unfold(events);
        }
    }

    /// No second monitor. From the request for a fork, once the answer is
    /// that this is the child, whatever events follow, the commands are
    /// the launch and then exits: no wait for an edge, no reading of the
    /// table, no signal, no fork and no reaping is asked for again.
    pub proof fn lemma_forked_child_never_monitors(self, events: Seq<Event>)
        requires
            self.state == State::Triggered(Stage::Forking),
            events.len() > 0,
            events[0] == Event::Forked(ForkResult::Child),
        ensures
            self.commands(events).len() == events.len(),
            forall|j: int|
                0 <= j < self.commands(events).len() ==> {
                    let command = #[trigger] self.commands(events)[j];
                    command == Command::Spawn || command is Exit
                },
    {
        let first = self.next(events[0])->Ok_0;
        first.monitor.lemma_child_launches_and_leaves(events.drop_first());
        self.lemma_commands_unfold(events);
    }

    /// Both flows of a start. In the child the launch is asked for and
    /// then the exit, with the status that tells of the launch. In the
    /// parent the child is reaped; where the wait reports the status that
    /// the child leaves with after a launch, the press is performed and
    /// the monitor waits again; where it reports the status of a failed
    /// launch, the monitor ends with the spawn error under the target's
    /// name.
    pub proof fn lemma_start_flows(self, child: Pid, launched: bool)
        requires
            self.state == State::Triggered(Stage::Forking),
        ensures
            self.commands(seq![Event::Forked(ForkResult::Child), Event::Spawned(launched)])
                == seq![Command::Spawn, Command::Exit(exit_status(launched))],
            ({
                let events = seq![
                    Event::Forked(ForkResult::Parent { child }),
                    Event::Reaped(WaitResult::Exited(exit_status(launched))),
                ];
                if launched {
                    &&& self.commands(events) == seq![Command::Reap(child), Command::AwaitEdge]
                    &&& self.end(events) == Ok::<ButtonMonitor, ErrorView>(
                        ButtonMonitor { state: State::Idle, ..self },
                    )
                } else {
                    &&& self.commands(events) == seq![Command::Reap(child)]
                    &&& self.end(events) == Err::<ButtonMonitor, ErrorView>(
                        ErrorView::SpawnErr(self.channel.action.target_name()),
                    )
                }
            }),
    {
        let in_child = seq![Event::Forked(ForkResult::Child), Event::Spawned(launched)];
        let in_parent = seq![
            Event::Forked(ForkResult::Parent { child }),
            Event::Reaped(WaitResult::Exited(exit_status(launched))),
        ];
        assert(in_child.drop_first() =~= seq![Event::Spawned(launched)]);
        assert(in_parent.drop_first() =~= seq![
            Event::Reaped(WaitResult::Exited(exit_status(launched))),
        ]);
        assert(in_child.drop_first().drop_first() =~= Seq::<Event>::empty());
        assert(in_parent.drop_first().drop_first() =~= Seq::<Event>::empty());
        reveal_with_fuel(ButtonMonitor::commands, 3);
        reveal_with_fuel(ButtonMonitor::end, 3);
        assert(self.commands(in_child) =~= seq![
            Command::Spawn,
            Command::Exit(exit_status(launched)),
        ]);
        if launched {
            assert(self.commands(in_parent) =~= seq![Command::Reap(child), Command::AwaitEdge]);
        } else {
            assert(self.commands(in_parent) =~= seq![Command::Reap(child)]);
        }
    }

    /// The toggle counts the presses. After a run that no event ended,
    /// the toggle of the logger's monitor is its first state flipped once
    /// for each press taken up, so an even number of presses restores it;
    /// the toggle of the other monitors never changes.
    pub proof fn lemma_toggle_follows_presses(self, events: Seq<Event>)
        ensures
            self.end(events) matches Ok(after) ==> after.toggle == if self.channel.action
                == ActionKind::ToggleLoggerBehavior {
                self.toggle.after(self.presses(events))
            } else {
                self.toggle
            },
            self.end(events) matches Ok(after) ==> after.channel == self.channel,
            self.end(events) matches Ok(after) ==> (self.channel.action
                == ActionKind::ToggleLoggerBehavior && self.presses(events) % 2 == 0
                ==> after.toggle == self.toggle),
        decreases events.len(),
    {
        if events.len() > 0 {
            match self.next(events[0]) {
                Ok(transition) => {
                    transition.monitor.lemma_toggle_follows_presses(events.drop_first());
                },
                Err(_) => {},
            }
        }
        let presses = self.presses(events);
        if presses % 2 == 0 {
            self.toggle.lemma_round_trip(presses / 2);
        }
    }
}

} // verus!
