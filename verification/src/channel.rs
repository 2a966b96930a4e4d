use crate::error::{outcome, ErrorKind, ErrorView};
use crate::supervisor::Signal;
use vstd::prelude::*;

verus! {

/// Executable of the data logger.
pub const DATALOGGER_BIN: &'static str = "datalogger";

/// Executable of the stream server.
pub const STREAM_BIN: &'static str = "rstp-simple-server";

/// Executable of the capture application.
pub const BOMBUSCV_BIN: &'static str = "bombuscv";

/// State of the resistor built into an input line.
#[derive(Clone, Copy, Debug, PartialEq, Eq, Structural)]
pub enum PullUpDown {
    Off,
    PullDown,
    PullUp,
}

/// What a press of a button does.
#[derive(Clone, Copy, Debug, PartialEq, Eq, Structural)]
pub enum ActionKind {
    /// Flips the output behaviour of the data logger.
    ToggleLoggerBehavior,
    /// Starts the stream server, or stops it when it runs.
    ToggleStreamProcess,
    /// Starts the capture application, or stops it when it runs.
    ToggleCaptureProcess,
}

impl ActionKind {
    /// Name of the executable that the action is about.
    pub open spec fn target_name(self) -> Seq<char> {
        match self {
            ActionKind::ToggleLoggerBehavior => DATALOGGER_BIN@,
            ActionKind::ToggleStreamProcess => STREAM_BIN@,
            ActionKind::ToggleCaptureProcess => BOMBUSCV_BIN@,
        }
    }

    /// Name of the executable that must not run for the action to be taken.
    pub open spec fn rival_name(self) -> Option<Seq<char>> {
        match self {
            ActionKind::ToggleLoggerBehavior => None,
            ActionKind::ToggleStreamProcess => Some(BOMBUSCV_BIN@),
            ActionKind::ToggleCaptureProcess => Some(STREAM_BIN@),
        }
    }

    /// Signal that the action sends to a running target.
    pub open spec fn signal_kind(self) -> Signal {
        match self {
            ActionKind::ToggleLoggerBehavior => Signal::SIGUSR1,
            ActionKind::ToggleStreamProcess => Signal::SIGINT,
            ActionKind::ToggleCaptureProcess => Signal::SIGINT,
        }
    }

    /// Name of the unit of work that serves the action's button.
    pub open spec fn unit_name(self) -> Seq<char> {
        match self {
            ActionKind::ToggleLoggerBehavior => "datalogger button handler"@,
            ActionKind::ToggleStreamProcess => "stream button handler"@,
            ActionKind::ToggleCaptureProcess => "bombuscv button handler"@,
        }
    }

    /// Name of the executable that the action is about.
    pub fn target(self) -> (bin: &'static str)
        ensures
            bin@ == self.target_name(),
    {
        match self {
            ActionKind::ToggleLoggerBehavior => DATALOGGER_BIN,
            ActionKind::ToggleStreamProcess => STREAM_BIN,
            ActionKind::ToggleCaptureProcess => BOMBUSCV_BIN,
        }
    }

    /// Name of the executable that must not run for the action to be taken:
    /// the stream server and the capture application exclude each other,
    /// the data logger excludes nothing.
    pub fn rival(self) -> (bin: Option<&'static str>)
        ensures
            match bin {
                Some(name) => self.rival_name() == Some(name@),
                None => self.rival_name() is None,
            },
    {
        match self {
            ActionKind::ToggleLoggerBehavior => None,
            ActionKind::ToggleStreamProcess => Some(BOMBUSCV_BIN),
            ActionKind::ToggleCaptureProcess => Some(STREAM_BIN),
        }
    }

    /// Signal that the action sends to a running target: the toggle signal
    /// to the data logger, the graceful stop to the other two.
    pub fn signal(self) -> (signal: Signal)
        ensures
            signal == self.signal_kind(),
    {
        match self {
            ActionKind::ToggleLoggerBehavior => Signal::SIGUSR1,
            ActionKind::ToggleStreamProcess => Signal::SIGINT,
            ActionKind::ToggleCaptureProcess => Signal::SIGINT,
        }
    }

    /// Name of the unit of work that serves the action's button.
    pub fn unit(self) -> (name: &'static str)
        ensures
            name@ == self.unit_name(),
    {
        match self {
            ActionKind::ToggleLoggerBehavior => "datalogger button handler",
            ActionKind::ToggleStreamProcess => "stream button handler",
            ActionKind::ToggleCaptureProcess => "bombuscv button handler",
        }
    }
}

/// A button: the line it is wired to, the resistor of that line, and what
/// a press does.
#[derive(Clone, Copy, Debug, PartialEq, Eq, Structural)]
pub struct ButtonChannel {
    pub pin: u8,
    pub pull_up_down: PullUpDown,
    pub action: ActionKind,
}

impl ButtonChannel {
    /// The line that the button for `action` is wired to.
    pub open spec fn line_of(action: ActionKind) -> u8 {
        match action {
            ActionKind::ToggleLoggerBehavior => 27,
            ActionKind::ToggleStreamProcess => 22,
            ActionKind::ToggleCaptureProcess => 17,
        }
    }

    /// The button for `action`: on its line, pulled up.
    pub open spec fn new_spec(action: ActionKind) -> ButtonChannel {
        ButtonChannel { pin: Self::line_of(action), pull_up_down: PullUpDown::PullUp, action }
    }

    /// The button for `action`: on its line, pulled up.
    #[verifier::when_used_as_spec(new_spec)]
    pub fn new(action: ActionKind) -> (channel: ButtonChannel)
        ensures
            channel == Self::new_spec(action),
    {
        let pin: u8 = match action {
            ActionKind::ToggleLoggerBehavior => 27,
            ActionKind::ToggleStreamProcess => 22,
            ActionKind::ToggleCaptureProcess => 17,
        };
        ButtonChannel { pin, pull_up_down: PullUpDown::PullUp, action }
    }
}

/// An acquired line that is to be configured as an input.
#[derive(Clone, Copy, Debug, PartialEq, Eq, Structural)]
pub struct InputPin {
    pub pin: u8,
    pub pull_up_down: PullUpDown,
}

/// Decides how line `pin` becomes an input once its acquisition was tried:
/// an acquired line is configured with the resistor asked for, and a
/// refusal is the error that holds the reason given.
pub fn input_pin(pin: u8, pull_up_down: PullUpDown, acquired: Result<(), String>) -> (input: Result<
    InputPin,
    ErrorKind,
>)
    ensures
        outcome(input) == match acquired {
            Ok(_) => Ok::<InputPin, ErrorView>(InputPin { pin, pull_up_down }),
            Err(reason) => Err::<InputPin, ErrorView>(ErrorView::PinErr(reason@)),
        },
{
    match acquired {
        Ok(_) => Ok(InputPin { pin, pull_up_down }),
        Err(reason) => Err(ErrorKind::PinErr(reason)),
    }
}

} // verus!
