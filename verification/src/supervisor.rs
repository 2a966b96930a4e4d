use crate::error::{outcome, ErrorKind, ErrorView};
use crate::process::{pgrep, Pid, ProcessTable};
use vstd::prelude::*;

verus! {

/// The two signals that the supervisor sends.
#[derive(Clone, Copy, Debug, PartialEq, Eq, Structural)]
pub enum Signal {
    /// Asks a process to stop gracefully.
    SIGINT,
    /// Asks a process to flip its output behaviour.
    SIGUSR1,
}

/// A signal that is to be delivered to a process.
#[derive(Clone, Copy, Debug, PartialEq, Eq, Structural)]
pub struct Delivery {
    pub pid: Pid,
    pub signal: Signal,
}

/// How an attempt to fork the supervisor ended.
#[derive(Clone, Copy, Debug, PartialEq, Eq, Structural)]
pub enum ForkResult {
    /// This is the parent; `child` is the new process.
    Parent { child: Pid },
    /// This is the child.
    Child,
    /// No child was made.
    Failed,
}

/// What remains to be done once the supervisor has forked.
#[derive(Clone, Copy, Debug, PartialEq, Eq, Structural)]
pub enum StartStep {
    /// In the parent: wait for the first status change of `child`, so
    /// that no unreaped artifact is left behind, and learn from it how the
    /// launch went.
    Reap { child: Pid },
    /// In the child: launch the program, found on the search path, and
    /// then leave.
    Spawn,
}

/// How the wait for the child ended.
#[derive(Clone, Copy, Debug, PartialEq, Eq, Structural)]
pub enum WaitResult {
    /// The child left with this status.
    Exited(i32),
    /// The child changed its status without leaving one: it was killed.
    Killed,
    /// The wait itself failed.
    Failed,
}

/// The status with which the child leaves: 0 once it has launched the
/// program, 1 where it could not.
pub open spec fn exit_status(launched: bool) -> i32 {
    if launched {
        0
    } else {
        1
    }
}

/// What the wait for the child tells the parent about the start of
/// `name`: the program was launched where the child left with status 0.
/// Any other status, a child that was killed and a wait that failed all
/// leave the launch unconfirmed, which is the error that names the program.
pub open spec fn reap_plan(name: Seq<char>, waited: WaitResult) -> Result<(), ErrorView> {
    if waited == WaitResult::Exited(0) {
        Ok(())
    } else {
        Err(ErrorView::SpawnErr(name))
    }
}

/// What a request to signal `name` amounts to, given a reading of the
/// process table: an error where the table is unavailable, one delivery to
/// the first process that runs `name`, and nothing where none does.
pub open spec fn signal_plan(table: ProcessTable, name: Seq<char>, kind: Signal) -> Result<
    Option<Delivery>,
    ErrorView,
> {
    match table.lookup(name) {
        Ok(Some(pid)) => Ok(Some(Delivery { pid, signal: kind })),
        Ok(None) => Ok(None),
        Err(error) => Err(error),
    }
}

/// What the outcome of forking the supervisor, in order to start
/// `name`, calls for.
pub open spec fn fork_plan(name: Seq<char>, result: ForkResult) -> Result<StartStep, ErrorView> {
    match result {
        ForkResult::Parent { child } => Ok(StartStep::Reap { child }),
        ForkResult::Child => Ok(StartStep::Spawn),
        ForkResult::Failed => Err(ErrorView::ForkErr(name)),
    }
}

/// Decides how to signal the program `bin`: the delivery to make to its
/// first running process, or none, which is success, when it is not
/// running. Fails when the process table could not be read.
pub fn signal(table: &ProcessTable, bin: &str, kind: Signal) -> (plan: Result<
    Option<Delivery>,
    ErrorKind,
>)
    ensures
        outcome(plan) == signal_plan(*table, bin@, kind),
        table.lists_none(bin@) ==> plan == Ok::<Option<Delivery>, ErrorKind>(None),
{
    proof {
        table.lemma_lookup(bin@);
    }
    match pgrep(table, bin) {
        Ok(Some(pid)) => Ok(Some(Delivery { pid, signal: kind })),
        Ok(None) => Ok(None),
        Err(error) => Err(error),
    }
}

/// Concludes a delivery to `bin`: success when the signal was `sent`, and
/// otherwise the error that names the program.
pub fn delivered(bin: &str, sent: bool) -> (done: Result<(), ErrorKind>)
    ensures
        outcome(done) == if sent {
            Ok::<(), ErrorView>(())
        } else {
            Err::<(), ErrorView>(ErrorView::SignalErr(bin@))
        },
{
    if sent {
        Ok(())
    } else {
        Err(ErrorKind::SignalErr(bin.to_owned()))
    }
}

/// Decides how the start of the program `bin` goes on after the fork of
/// the supervisor: the parent reaps the child, the child launches the
/// program, and a failed fork is an error that names the program.
pub fn fork(bin: &str, result: ForkResult) -> (step: Result<StartStep, ErrorKind>)
    ensures
        outcome(step) == fork_plan(bin@, result),
{
    match result {
        ForkResult::Parent { child } => Ok(StartStep::Reap { child }),
        ForkResult::Child => Ok(StartStep::Spawn),
        ForkResult::Failed => Err(ErrorKind::ForkErr(bin.to_owned())),
    }
}

/// Decides, in the child, with which status to leave once the launch of
/// the program was tried: 0 when it was `launched`, 1 when it was not. The
/// parent reads the outcome of the launch from this status.
pub fn spawned(launched: bool) -> (status: i32)
    ensures
        status == exit_status(launched),
{
    if launched {
        0
    } else {
        1
    }
}

/// Concludes, in the parent, the start of `bin` once the child was waited
/// for: success when the child left with status 0, and otherwise the
/// error that names the program. It never panics on a wait that failed.
pub fn reaped(bin: &str, waited: WaitResult) -> (done: Result<(), ErrorKind>)
    ensures
        outcome(done) == reap_plan(bin@, waited),
{
    match waited {
        WaitResult::Exited(status) => {
            if status == 0 {
                Ok(())
            } else {
                Err(ErrorKind::SpawnErr(bin.to_owned()))
            }
        },
        _ => Err(ErrorKind::SpawnErr(bin.to_owned())),
    }
}

/// A start, as the process that asked for it sees it. Where the child
/// leaves with the status chosen for it and the wait reports that status,
/// the start succeeds exactly when both the fork and the launch did; it
/// is the fork error exactly when the fork failed, and the spawn error
/// exactly when the fork succeeded and the launch did not. Both errors
/// name the program.
pub proof fn lemma_start(name: Seq<char>, forked: ForkResult, launched: bool)
    requires
        !(forked is Child),
    ensures
        ({
            let started = match fork_plan(name, forked) {
                Ok(_) => reap_plan(name, WaitResult::Exited(exit_status(launched))),
                Err(error) => Err(error),
            };
            &&& started is Ok <==> forked is Parent && launched
            &&& started == Err::<(), ErrorView>(ErrorView::ForkErr(name)) <==> forked is Failed
            &&& started == Err::<(), ErrorView>(ErrorView::SpawnErr(name)) <==> forked is Parent
                && !launched
        }),
{
}

} // verus!
