use vstd::prelude::*;
use vstd::string::StringExecFns;

verus! {

/// Failures that end a unit of the supervisor.
#[derive(Debug, PartialEq, Eq)]
pub enum ErrorKind {
    /// The list of system processes could not be retrieved.
    ProcListErr,
    /// Forking a child to start the named program failed.
    ForkErr(String),
    /// The named program could not be launched.
    SpawnErr(String),
    /// A signal could not be delivered to the named program.
    SignalErr(String),
    /// The GPIO peripheral could not be accessed.
    GpioErr,
    /// A GPIO pin could not be acquired; holds the reason.
    PinErr(String),
    /// No interrupt could be armed on a pin.
    InterruptErr,
    /// The named thread could not be joined.
    ThreadJoinErr(String),
    /// Waiting for an interrupt failed.
    PollInterruptErr,
}

/// Mathematical model of an [`ErrorKind`]: the same cases over sequences of
/// characters.
pub enum ErrorView {
    ProcListErr,
    ForkErr(Seq<char>),
    SpawnErr(Seq<char>),
    SignalErr(Seq<char>),
    GpioErr,
    PinErr(Seq<char>),
    InterruptErr,
    ThreadJoinErr(Seq<char>),
    PollInterruptErr,
}

impl ErrorView {
    /// The one-line diagnostic of this error.
    pub open spec fn message(self) -> Seq<char> {
        match self {
            ErrorView::ProcListErr => "unable to retrieve process list"@,
            ErrorView::ForkErr(bin) => "unable to fork child process `"@ + bin + "`"@,
            ErrorView::SpawnErr(bin) => "unable to spawn process `"@ + bin + "`"@,
            ErrorView::SignalErr(bin) => "unable to send signal to process `"@ + bin + "`"@,
            ErrorView::GpioErr => "unable to access GPIO"@,
            ErrorView::PinErr(reason) => "unable to access GPIO pin `"@ + reason + "`"@,
            ErrorView::InterruptErr => "unable to set interrupt on specified pin"@,
            ErrorView::ThreadJoinErr(thread) => "unable to join thread `"@ + thread + "`"@,
            ErrorView::PollInterruptErr => "unable to poll interrupt"@,
        }
    }
}

impl View for ErrorKind {
    type V = ErrorView;

    open spec fn view(&self) -> ErrorView {
        match self {
            ErrorKind::ProcListErr => ErrorView::ProcListErr,
            ErrorKind::ForkErr(bin) => ErrorView::ForkErr(bin@),
            ErrorKind::SpawnErr(bin) => ErrorView::SpawnErr(bin@),
            ErrorKind::SignalErr(bin) => ErrorView::SignalErr(bin@),
            ErrorKind::GpioErr => ErrorView::GpioErr,
            ErrorKind::PinErr(reason) => ErrorView::PinErr(reason@),
            ErrorKind::InterruptErr => ErrorView::InterruptErr,
            ErrorKind::ThreadJoinErr(thread) => ErrorView::ThreadJoinErr(thread@),
            ErrorKind::PollInterruptErr => ErrorView::PollInterruptErr,
        }
    }
}

/// Model of a result whose error is an [`ErrorKind`]: the same value, with
/// the error replaced by its view.
pub open spec fn outcome<T>(result: Result<T, ErrorKind>) -> Result<T, ErrorView> {
    match result {
        Ok(value) => Ok(value),
        Err(error) => Err(error@),
    }
}

/// `prefix`, then `subject`, then a closing backquote.
fn quoted(prefix: &str, subject: &str) -> (text: String)
    ensures
        text@ == prefix@ + subject@ + "`"@,
{
    let mut text = prefix.to_owned();
    text.append(subject);
    text.append("`");
    text
}

impl ErrorKind {
    /// The one-line diagnostic of this error.
    pub fn message(&self) -> (text: String)
        ensures
            text@ == self@.message(),
    {
        match self {
            ErrorKind::ProcListErr => "unable to retrieve process list".to_owned(),
            ErrorKind::ForkErr(bin) => quoted("unable to fork child process `", bin.as_str()),
            ErrorKind::SpawnErr(bin) => quoted("unable to spawn process `", bin.as_str()),
            ErrorKind::SignalErr(bin) => quoted("unable to send signal to process `", bin.as_str()),
            ErrorKind::GpioErr => "unable to access GPIO".to_owned(),
            ErrorKind::PinErr(reason) => quoted("unable to access GPIO pin `", reason.as_str()),
            ErrorKind::InterruptErr => "unable to set interrupt on specified pin".to_owned(),
            ErrorKind::ThreadJoinErr(thread) => quoted("unable to join thread `", thread.as_str()),
            ErrorKind::PollInterruptErr => "unable to poll interrupt".to_owned(),
        }
    }
}

} // verus!
