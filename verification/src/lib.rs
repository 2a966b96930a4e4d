//! Decision core of a push-button process supervisor.
//!
//! Three buttons drive three cooperating programs: one toggles the output
//! mode of a data logger, one starts or stops a stream server, one starts or
//! stops a capture application. Everything here is free of input and output:
//! a caller waits for edges, lists processes, forks and sends signals, and
//! hands each result to this crate, which answers with what to do next.

pub mod channel;
pub mod coordinator;
pub mod error;
pub mod monitor;
pub mod process;
pub mod supervisor;
pub mod trace;

pub use channel::{
    input_pin, ActionKind, ButtonChannel, InputPin, PullUpDown, BOMBUSCV_BIN, DATALOGGER_BIN,
    STREAM_BIN,
};
pub use coordinator::{channels, join_all, JoinOutcome, Joined};
pub use error::{ErrorKind, ErrorView};
pub use monitor::{
    ActionResult, ButtonMonitor, Command, Event, Stage, State, ToggleState, Transition,
};
pub use process::{pgrep, Pid, ProcessEntry, ProcessTable};
pub use supervisor::{
    delivered, fork, reaped, signal, spawned, Delivery, ForkResult, Signal, StartStep, WaitResult,
};
