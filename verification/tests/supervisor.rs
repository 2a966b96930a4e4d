use bombuscv_buttons::{
    delivered, fork, input_pin, reaped, signal, spawned, Delivery, ErrorKind, ForkResult, InputPin,
    Pid, ProcessEntry, ProcessTable, PullUpDown, Signal, StartStep, WaitResult,
};

fn table(rows: &[(i32, &str)]) -> ProcessTable {
    ProcessTable::Listed(
        rows.iter()
            .map(|(pid, exe)| ProcessEntry::new(Pid::from_raw(*pid), Some(exe)))
            .collect(),
    )
}

#[test]
fn signal_on_an_absent_name_does_nothing() {
    let procs = table(&[(10, "/usr/bin/bombuscv"), (11, "/usr/bin/other")]);
    assert_eq!(signal(&procs, "datalogger", Signal::SIGUSR1), Ok(None));
    assert_eq!(signal(&procs, "datalogger", Signal::SIGINT), Ok(None));
    assert_eq!(signal(&ProcessTable::Listed(vec![]), "bombuscv", Signal::SIGINT), Ok(None));
}

#[test]
fn signal_goes_to_the_first_running_process() {
    let procs = table(&[(10, "/usr/bin/other"), (20, "/usr/bin/datalogger"), (30, "/opt/datalogger")]);
    assert_eq!(
        signal(&procs, "datalogger", Signal::SIGUSR1),
        Ok(Some(Delivery { pid: Pid::from_raw(20), signal: Signal::SIGUSR1 }))
    );
    assert_eq!(
        signal(&procs, "other", Signal::SIGINT),
        Ok(Some(Delivery { pid: Pid::from_raw(10), signal: Signal::SIGINT }))
    );
}

#[test]
fn signal_fails_when_the_table_is_unavailable() {
    assert_eq!(
        signal(&ProcessTable::Unavailable, "datalogger", Signal::SIGUSR1),
        Err(ErrorKind::ProcListErr)
    );
}

#[test]
fn delivered_signal_is_success() {
    assert_eq!(delivered("bombuscv", true), Ok(()));
}

#[test]
fn undelivered_signal_names_the_program() {
    assert_eq!(delivered("bombuscv", false), Err(ErrorKind::SignalErr("bombuscv".to_string())));
}

#[test]
fn fork_in_the_parent_reaps_the_child() {
    let child = Pid::from_raw(1234);
    assert_eq!(fork("bombuscv", ForkResult::Parent { child }), Ok(StartStep::Reap { child }));
}

#[test]
fn fork_in_the_child_spawns() {
    assert_eq!(fork("bombuscv", ForkResult::Child), Ok(StartStep::Spawn));
}

#[test]
fn failed_fork_names_the_program() {
    assert_eq!(
        fork("rstp-simple-server", ForkResult::Failed),
        Err(ErrorKind::ForkErr("rstp-simple-server".to_string()))
    );
}

#[test]
fn child_leaves_with_the_status_of_the_launch() {
    assert_eq!(spawned(true), 0);
    assert_eq!(spawned(false), 1);
}

#[test]
fn reaped_child_that_launched_is_success() {
    assert_eq!(reaped("bombuscv", WaitResult::Exited(0)), Ok(()));
    assert_eq!(reaped("bombuscv", WaitResult::Exited(spawned(true))), Ok(()));
}

#[test]
fn failed_launch_reaches_the_parent_under_the_name_of_the_program() {
    let failed = Err(ErrorKind::SpawnErr("bombuscv".to_string()));
    assert_eq!(reaped("bombuscv", WaitResult::Exited(spawned(false))), failed);
    assert_eq!(reaped("bombuscv", WaitResult::Exited(1)), failed);
    assert_eq!(reaped("bombuscv", WaitResult::Exited(127)), failed);
    assert_eq!(reaped("bombuscv", WaitResult::Exited(-1)), failed);
}

#[test]
fn killed_child_and_failed_wait_are_errors_and_no_panic() {
    let failed = Err(ErrorKind::SpawnErr("rstp-simple-server".to_string()));
    assert_eq!(reaped("rstp-simple-server", WaitResult::Killed), failed);
    assert_eq!(reaped("rstp-simple-server", WaitResult::Failed), failed);
}

#[test]
fn start_succeeds_exactly_when_fork_and_launch_do() {
    let child = Pid::from_raw(77);
    for launched in [true, false] {
        let started = match fork("bombuscv", ForkResult::Parent { child }) {
            Ok(StartStep::Reap { .. }) => reaped("bombuscv", WaitResult::Exited(spawned(launched))),
            Ok(StartStep::Spawn) => unreachable!(),
            Err(error) => Err(error),
        };
        if launched {
            assert_eq!(started, Ok(()));
        } else {
            assert_eq!(started, Err(ErrorKind::SpawnErr("bombuscv".to_string())));
        }
    }
    assert_eq!(
        fork("bombuscv", ForkResult::Failed),
        Err(ErrorKind::ForkErr("bombuscv".to_string()))
    );
}

#[test]
fn acquired_pin_becomes_an_input_with_the_resistor_asked_for() {
    assert_eq!(
        input_pin(27, PullUpDown::PullUp, Ok(())),
        Ok(InputPin { pin: 27, pull_up_down: PullUpDown::PullUp })
    );
    assert_eq!(
        input_pin(22, PullUpDown::PullDown, Ok(())),
        Ok(InputPin { pin: 22, pull_up_down: PullUpDown::PullDown })
    );
    assert_eq!(
        input_pin(0, PullUpDown::Off, Ok(())),
        Ok(InputPin { pin: 0, pull_up_down: PullUpDown::Off })
    );
}

#[test]
fn refused_pin_keeps_the_reason() {
    assert_eq!(
        input_pin(17, PullUpDown::PullUp, Err("Pin 17 is not available".to_string())),
        Err(ErrorKind::PinErr("Pin 17 is not available".to_string()))
    );
}
