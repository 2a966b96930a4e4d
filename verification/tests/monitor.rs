use bombuscv_buttons::{
    ActionKind, ActionResult, ButtonChannel, ButtonMonitor, Command, Delivery, ErrorKind, Event,
    ForkResult, Pid, ProcessEntry, ProcessTable, Signal, Stage, State, ToggleState, Transition,
    WaitResult,
};

fn monitor(action: ActionKind) -> ButtonMonitor {
    ButtonMonitor::new(ButtonChannel::new(action))
}

fn at(action: ActionKind, stage: Stage) -> ButtonMonitor {
    ButtonMonitor { state: State::Triggered(stage), ..monitor(action) }
}

fn running(rows: &[(i32, &str)]) -> Event {
    Event::Processes(ProcessTable::Listed(
        rows.iter()
            .map(|(pid, exe)| ProcessEntry::new(Pid::from_raw(*pid), Some(exe)))
            .collect(),
    ))
}

fn step(monitor: ButtonMonitor, event: Event) -> Transition {
    monitor.step(&event).expect("the monitor goes on")
}

#[test]
fn new_monitor_waits_with_the_toggle_off() {
    let stream = monitor(ActionKind::ToggleStreamProcess);
    assert_eq!(stream.state, State::Idle);
    assert_eq!(stream.toggle, ToggleState { on: false });
    assert_eq!(stream.channel, ButtonChannel::new(ActionKind::ToggleStreamProcess));
    assert_eq!(stream.pending(), Command::AwaitEdge);
}

#[test]
fn toggle_starts_off_and_flips() {
    assert_eq!(ToggleState::new(), ToggleState { on: false });
    assert_eq!(ToggleState::new().flip(), ToggleState { on: true });
    assert_eq!(ToggleState::new().flip().flip(), ToggleState { on: false });
}

#[test]
fn pending_command_follows_the_state() {
    let kind = ActionKind::ToggleCaptureProcess;
    let delivery = Delivery { pid: Pid::from_raw(9), signal: Signal::SIGINT };
    assert_eq!(at(kind, Stage::CheckingRival).pending(), Command::ListProcesses);
    assert_eq!(at(kind, Stage::CheckingTarget).pending(), Command::ListProcesses);
    assert_eq!(at(kind, Stage::Locating).pending(), Command::ListProcesses);
    assert_eq!(at(kind, Stage::Delivering(delivery)).pending(), Command::Deliver(delivery));
    assert_eq!(at(kind, Stage::Forking).pending(), Command::Fork);
    assert_eq!(at(kind, Stage::Reaping(Pid::from_raw(4))).pending(), Command::Reap(Pid::from_raw(4)));
    assert_eq!(at(kind, Stage::Spawning).pending(), Command::Spawn);
    assert_eq!(at(kind, Stage::Exiting(1)).pending(), Command::Exit(1));
}

#[test]
fn two_stream_presses_start_then_stop_the_stream() {
    let stream = monitor(ActionKind::ToggleStreamProcess);

    // First press: neither the stream server nor the capture application runs.
    let t = step(stream, Event::Edge);
    assert_eq!(t.command, Command::ListProcesses);
    assert_eq!(t.result, None);
    let t = step(t.monitor, running(&[(1, "/sbin/init")]));
    assert_eq!(t.monitor.state, State::Triggered(Stage::CheckingTarget));
    assert_eq!(t.command, Command::ListProcesses);
    let t = step(t.monitor, running(&[(1, "/sbin/init")]));
    assert_eq!(t.command, Command::Fork);
    let child = Pid::from_raw(500);
    let t = step(t.monitor, Event::Forked(ForkResult::Parent { child }));
    assert_eq!(t.command, Command::Reap(child));
    let t = step(t.monitor, Event::Reaped(WaitResult::Exited(0)));
    assert_eq!(t.command, Command::AwaitEdge);
    assert_eq!(t.result, Some(ActionResult::Performed));
    assert_eq!(t.monitor.state, State::Idle);

    // Second press: the stream server runs, the capture application still does not.
    let table = [(1, "/sbin/init"), (501, "/usr/local/bin/rstp-simple-server")];
    let t = step(t.monitor, Event::Edge);
    assert_eq!(t.command, Command::ListProcesses);
    let t = step(t.monitor, running(&table));
    assert_eq!(t.monitor.state, State::Triggered(Stage::CheckingTarget));
    let t = step(t.monitor, running(&table));
    assert_eq!(t.monitor.state, State::Triggered(Stage::Locating));
    assert_eq!(t.command, Command::ListProcesses);
    let t = step(t.monitor, running(&table));
    let stop = Delivery { pid: Pid::from_raw(501), signal: Signal::SIGINT };
    assert_eq!(t.command, Command::Deliver(stop));
    let t = step(t.monitor, Event::Delivered(true));
    assert_eq!(t.command, Command::AwaitEdge);
    assert_eq!(t.result, Some(ActionResult::Performed));
    assert_eq!(t.monitor, monitor(ActionKind::ToggleStreamProcess));
}

#[test]
fn stream_press_is_ignored_while_capture_runs() {
    let stream = monitor(ActionKind::ToggleStreamProcess);
    let t = step(stream, Event::Edge);
    assert_eq!(t.command, Command::ListProcesses);
    let t = step(t.monitor, running(&[(77, "/usr/bin/bombuscv")]));
    assert_eq!(t.command, Command::AwaitEdge);
    assert_eq!(t.result, Some(ActionResult::IgnoredExclusivity));
    assert_eq!(t.monitor, stream);
}

#[test]
fn capture_press_is_ignored_while_stream_runs() {
    let capture = monitor(ActionKind::ToggleCaptureProcess);
    let t = step(capture, Event::Edge);
    let t = step(t.monitor, running(&[(3, "/usr/bin/rstp-simple-server"), (4, "/usr/bin/bombuscv")]));
    assert_eq!(t.command, Command::AwaitEdge);
    assert_eq!(t.result, Some(ActionResult::IgnoredExclusivity));
    assert_eq!(t.monitor, capture);
}

#[test]
fn any_number_of_stream_presses_does_nothing_while_capture_runs() {
    let mut events = Vec::new();
    for press in 0..25 {
        events.push(Event::Edge);
        events.push(running(&[(77, "/usr/bin/bombuscv"), (78 + press, "/usr/bin/rstp-simple-server")]));
    }
    let (commands, end) = monitor(ActionKind::ToggleStreamProcess).replay(&events);
    assert_eq!(commands.len(), 50);
    for (i, command) in commands.iter().enumerate() {
        let expected = if i % 2 == 0 { Command::ListProcesses } else { Command::AwaitEdge };
        assert_eq!(*command, expected);
    }
    assert_eq!(end, Ok(monitor(ActionKind::ToggleStreamProcess)));
}

#[test]
fn running_stream_is_stopped_and_never_started() {
    let table = [(501, "/usr/local/bin/rstp-simple-server")];
    let mut events = Vec::new();
    for _ in 0..10 {
        events.push(Event::Edge);
        events.push(running(&table));
        events.push(running(&table));
        events.push(running(&table));
        events.push(Event::Delivered(true));
    }
    let (commands, end) = monitor(ActionKind::ToggleStreamProcess).replay(&events);
    let stop = Command::Deliver(Delivery { pid: Pid::from_raw(501), signal: Signal::SIGINT });
    assert_eq!(commands.len(), 50);
    assert_eq!(commands.iter().filter(|command| **command == stop).count(), 10);
    assert!(commands.iter().all(|command| !matches!(
        command,
        Command::Fork | Command::Spawn | Command::Reap(_)
    )));
    assert_eq!(end, Ok(monitor(ActionKind::ToggleStreamProcess)));
}

#[test]
fn capture_press_starts_capture_when_nothing_runs() {
    let capture = monitor(ActionKind::ToggleCaptureProcess);
    let t = step(capture, Event::Edge);
    let t = step(t.monitor, running(&[]));
    let t = step(t.monitor, running(&[]));
    assert_eq!(t.command, Command::Fork);
    assert_eq!(t.monitor.state, State::Triggered(Stage::Forking));
}

#[test]
fn capture_press_stops_running_capture() {
    let table = [(40, "/usr/bin/datalogger"), (41, "/usr/bin/bombuscv")];
    let events = vec![Event::Edge, running(&table), running(&table), running(&table)];
    let (commands, end) = monitor(ActionKind::ToggleCaptureProcess).replay(&events);
    let stop = Delivery { pid: Pid::from_raw(41), signal: Signal::SIGINT };
    assert_eq!(
        commands,
        vec![
            Command::ListProcesses,
            Command::ListProcesses,
            Command::ListProcesses,
            Command::Deliver(stop)
        ]
    );
    assert_eq!(end, Ok(at(ActionKind::ToggleCaptureProcess, Stage::Delivering(stop))));
}

#[test]
fn target_that_exits_before_the_signal_is_left_alone() {
    let stream = at(ActionKind::ToggleStreamProcess, Stage::Locating);
    let t = step(stream, running(&[(1, "/sbin/init")]));
    assert_eq!(t.command, Command::AwaitEdge);
    assert_eq!(t.result, Some(ActionResult::IgnoredAlreadyInState));
    assert_eq!(t.monitor.state, State::Idle);
}

#[test]
fn child_of_the_fork_launches_the_target_and_leaves() {
    let stream = at(ActionKind::ToggleStreamProcess, Stage::Forking);
    let t = step(stream, Event::Forked(ForkResult::Child));
    assert_eq!(t.command, Command::Spawn);
    assert_eq!(t.monitor.state, State::Triggered(Stage::Spawning));
    let t = step(t.monitor, Event::Spawned(true));
    assert_eq!(t.command, Command::Exit(0));
    assert_eq!(t.result, None);
    assert_eq!(t.monitor.state, State::Triggered(Stage::Exiting(0)));
}

#[test]
fn child_that_cannot_launch_leaves_with_a_failure_status() {
    let capture = at(ActionKind::ToggleCaptureProcess, Stage::Spawning);
    let t = step(capture, Event::Spawned(false));
    assert_eq!(t.command, Command::Exit(1));
    assert_eq!(t.result, None);
    assert_eq!(t.monitor.state, State::Triggered(Stage::Exiting(1)));
}

#[test]
fn child_never_goes_on_as_a_monitor() {
    let events = vec![
        Event::Forked(ForkResult::Child),
        Event::Spawned(true),
        Event::Edge,
        running(&[(1, "/usr/bin/bombuscv")]),
        Event::Processes(ProcessTable::Unavailable),
        Event::EdgeFailed,
        Event::Delivered(false),
        Event::Forked(ForkResult::Failed),
        Event::Reaped(WaitResult::Failed),
        Event::Spawned(false),
    ];
    let (commands, end) = at(ActionKind::ToggleStreamProcess, Stage::Forking).replay(&events);
    assert_eq!(commands.len(), 10);
    assert_eq!(commands[0], Command::Spawn);
    assert!(commands[1..].iter().all(|command| *command == Command::Exit(0)));
    assert_eq!(end, Ok(at(ActionKind::ToggleStreamProcess, Stage::Exiting(0))));
}

#[test]
fn parent_learns_that_the_launch_failed() {
    let child = Pid::from_raw(500);
    let stream = at(ActionKind::ToggleStreamProcess, Stage::Forking);
    let t = step(stream, Event::Forked(ForkResult::Parent { child }));
    assert_eq!(t.command, Command::Reap(child));
    assert_eq!(
        t.monitor.step(&Event::Reaped(WaitResult::Exited(1))),
        Err(ErrorKind::SpawnErr("rstp-simple-server".to_string()))
    );
    let capture = at(ActionKind::ToggleCaptureProcess, Stage::Reaping(child));
    assert_eq!(
        capture.step(&Event::Reaped(WaitResult::Exited(1))),
        Err(ErrorKind::SpawnErr("bombuscv".to_string()))
    );
}

#[test]
fn failed_wait_ends_the_monitor_with_an_error() {
    let capture = at(ActionKind::ToggleCaptureProcess, Stage::Reaping(Pid::from_raw(9)));
    for waited in [WaitResult::Failed, WaitResult::Killed, WaitResult::Exited(2)] {
        assert_eq!(
            capture.step(&Event::Reaped(waited)),
            Err(ErrorKind::SpawnErr("bombuscv".to_string()))
        );
    }
}

#[test]
fn start_flow_from_press_to_exit_status() {
    for launched in [true, false] {
        let child = Pid::from_raw(321);
        let in_child = vec![
            Event::Edge,
            running(&[]),
            running(&[]),
            Event::Forked(ForkResult::Child),
            Event::Spawned(launched),
        ];
        let (commands, _) = monitor(ActionKind::ToggleCaptureProcess).replay(&in_child);
        let status = match commands[4] {
            Command::Exit(status) => status,
            other => panic!("the child does not leave: {:?}", other),
        };
        let in_parent = vec![
            Event::Edge,
            running(&[]),
            running(&[]),
            Event::Forked(ForkResult::Parent { child }),
            Event::Reaped(WaitResult::Exited(status)),
        ];
        let (commands, end) = monitor(ActionKind::ToggleCaptureProcess).replay(&in_parent);
        assert_eq!(commands[3], Command::Reap(child));
        if launched {
            assert_eq!(end, Ok(monitor(ActionKind::ToggleCaptureProcess)));
        } else {
            assert_eq!(end, Err(ErrorKind::SpawnErr("bombuscv".to_string())));
        }
    }
}

#[test]
fn logger_press_flips_the_toggle_and_signals_the_logger() {
    let logger = monitor(ActionKind::ToggleLoggerBehavior);
    let t = step(logger, Event::Edge);
    assert_eq!(t.monitor.toggle, ToggleState { on: true });
    assert_eq!(t.monitor.state, State::Triggered(Stage::Locating));
    assert_eq!(t.command, Command::ListProcesses);
    let t = step(t.monitor, running(&[(7, "/usr/bin/bombuscv"), (8, "/usr/bin/datalogger")]));
    let toggle = Delivery { pid: Pid::from_raw(8), signal: Signal::SIGUSR1 };
    assert_eq!(t.command, Command::Deliver(toggle));
    let t = step(t.monitor, Event::Delivered(true));
    assert_eq!(t.command, Command::AwaitEdge);
    assert_eq!(t.result, Some(ActionResult::Performed));
    assert_eq!(t.monitor.toggle, ToggleState { on: true });
}

#[test]
fn logger_press_without_a_logger_only_flips_the_toggle() {
    let logger = monitor(ActionKind::ToggleLoggerBehavior);
    let t = step(logger, Event::Edge);
    let t = step(t.monitor, running(&[(7, "/usr/bin/bombuscv")]));
    assert_eq!(t.command, Command::AwaitEdge);
    assert_eq!(t.result, Some(ActionResult::IgnoredAlreadyInState));
    assert_eq!(t.monitor.toggle, ToggleState { on: true });
    assert_eq!(t.monitor.state, State::Idle);
}

#[test]
fn toggle_round_trip() {
    let mut logger = monitor(ActionKind::ToggleLoggerBehavior);
    assert_eq!(logger.toggle, ToggleState { on: false });
    for press in 1..=6 {
        let t = step(logger, Event::Edge);
        let t = step(t.monitor, running(&[]));
        logger = t.monitor;
        assert_eq!(logger.toggle, ToggleState { on: press % 2 == 1 });
    }
    assert_eq!(logger, monitor(ActionKind::ToggleLoggerBehavior));
}

#[test]
fn toggle_of_the_other_monitors_never_changes() {
    let events = vec![
        Event::Edge,
        running(&[]),
        running(&[]),
        Event::Forked(ForkResult::Parent { child: Pid::from_raw(5) }),
        Event::Reaped(WaitResult::Exited(0)),
        Event::Edge,
    ];
    let (_, end) = monitor(ActionKind::ToggleCaptureProcess).replay(&events);
    assert_eq!(end.map(|m| m.toggle), Ok(ToggleState { on: false }));
}

#[test]
fn failed_wait_ends_the_monitor() {
    for action in [
        ActionKind::ToggleLoggerBehavior,
        ActionKind::ToggleStreamProcess,
        ActionKind::ToggleCaptureProcess,
    ] {
        assert_eq!(monitor(action).step(&Event::EdgeFailed), Err(ErrorKind::PollInterruptErr));
    }
}

#[test]
fn unavailable_table_ends_the_monitor() {
    let unavailable = Event::Processes(ProcessTable::Unavailable);
    for stage in [Stage::CheckingRival, Stage::CheckingTarget, Stage::Locating] {
        assert_eq!(
            at(ActionKind::ToggleStreamProcess, stage).step(&unavailable),
            Err(ErrorKind::ProcListErr)
        );
    }
    assert_eq!(
        at(ActionKind::ToggleLoggerBehavior, Stage::Locating).step(&unavailable),
        Err(ErrorKind::ProcListErr)
    );
}

#[test]
fn undelivered_signal_ends_the_monitor() {
    let delivery = Delivery { pid: Pid::from_raw(8), signal: Signal::SIGUSR1 };
    assert_eq!(
        at(ActionKind::ToggleLoggerBehavior, Stage::Delivering(delivery)).step(&Event::Delivered(false)),
        Err(ErrorKind::SignalErr("datalogger".to_string()))
    );
    let delivery = Delivery { pid: Pid::from_raw(8), signal: Signal::SIGINT };
    assert_eq!(
        at(ActionKind::ToggleCaptureProcess, Stage::Delivering(delivery)).step(&Event::Delivered(false)),
        Err(ErrorKind::SignalErr("bombuscv".to_string()))
    );
}

#[test]
fn failed_fork_ends_the_monitor() {
    assert_eq!(
        at(ActionKind::ToggleStreamProcess, Stage::Forking).step(&Event::Forked(ForkResult::Failed)),
        Err(ErrorKind::ForkErr("rstp-simple-server".to_string()))
    );
}

#[test]
fn event_that_answers_nothing_changes_nothing() {
    let waiting = monitor(ActionKind::ToggleStreamProcess);
    for event in [
        running(&[(1, "/usr/bin/bombuscv")]),
        Event::Delivered(false),
        Event::Forked(ForkResult::Failed),
        Event::Reaped(WaitResult::Failed),
        Event::Spawned(false),
    ] {
        let t = step(waiting, event);
        assert_eq!(t, Transition { monitor: waiting, command: Command::AwaitEdge, result: None });
    }
    let forking = at(ActionKind::ToggleStreamProcess, Stage::Forking);
    for event in [
        Event::Edge,
        Event::EdgeFailed,
        Event::Reaped(WaitResult::Exited(0)),
        Event::Spawned(false),
        running(&[]),
    ] {
        let t = step(forking, event);
        assert_eq!(t, Transition { monitor: forking, command: Command::Fork, result: None });
    }
}

#[test]
fn replay_stops_at_the_first_fatal_event() {
    let events = vec![
        Event::Edge,
        running(&[]),
        Event::Processes(ProcessTable::Unavailable),
        Event::Forked(ForkResult::Child),
    ];
    let (commands, end) = monitor(ActionKind::ToggleStreamProcess).replay(&events);
    assert_eq!(commands, vec![Command::ListProcesses, Command::ListProcesses]);
    assert_eq!(end, Err(ErrorKind::ProcListErr));
}

#[test]
fn replay_of_no_events_issues_nothing() {
    let stream = monitor(ActionKind::ToggleStreamProcess);
    assert_eq!(stream.replay(&Vec::new()), (Vec::new(), Ok(stream)));
}
