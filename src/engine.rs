use vstd::prelude::*;
use vstd::string::*;
use crate::run::{after, PipelineRun};
use crate::text::{has_substring, lower_of, lowercase, str_contains};

verus! {

/// A line for the observer's console.
pub enum ConsoleText {
    /// A milestone of the pipeline.
    Program(String),
    /// A line of the tool's standard output, or informational standard error.
    Stdout(String),
    /// A line of the tool's standard error that reports an error.
    Stderr(String),
}

/// How one invocation of the external tool went wrong.
pub enum ExecutionError {
    /// The tool could not be started.
    SpawnFailed(String),
    /// The tool exited unsuccessfully, with this status.
    NonZeroExit(String),
    /// Waiting for the tool failed.
    WaitFailed(String),
    /// Reading one of the tool's output streams failed; only that stream stops.
    StreamReadFailed(String),
}

impl ExecutionError {
    pub open spec fn text(self) -> Seq<char> {
        match self {
            ExecutionError::SpawnFailed(m) => m@,
            ExecutionError::NonZeroExit(status) => "ffmpeg exited with error code: "@ + status@,
            ExecutionError::WaitFailed(m) => m@,
            ExecutionError::StreamReadFailed(m) => m@,
        }
    }

    /// The text published to the observer for this error.
    pub fn message(&self) -> (r: String)
        ensures
            r@ == self.text(),
    {
        match self {
            ExecutionError::SpawnFailed(m) => m.clone(),
            ExecutionError::NonZeroExit(status) => {
                let mut s = String::from_str("ffmpeg exited with error code: ");
                s.append(status.as_str());
                s
            },
            ExecutionError::WaitFailed(m) => m.clone(),
            ExecutionError::StreamReadFailed(m) => m.clone(),
        }
    }
}

/// A standard-error line whose lower-case form is `lowered` is an error when
/// that form contains `error`; otherwise it is informational.
pub open spec fn classified(line: String, lowered: Seq<char>) -> ConsoleText {
    if has_substring(lowered, "error"@) {
        ConsoleText::Stderr(line)
    } else {
        ConsoleText::Stdout(line)
    }
}

/// Classifies a standard-error line, given its lower-case form.
pub fn classify_lowered(line: String, lowered: &str) -> (r: ConsoleText)
    ensures
        r == classified(line, lowered@),
{
    if str_contains(lowered, "error") {
        ConsoleText::Stderr(line)
    } else {
        ConsoleText::Stdout(line)
    }
}

/// Classifies a line of the tool's standard error: it is an error when it
/// contains `error` in any letter case.
pub fn classify_stderr_line(line: String) -> (r: ConsoleText)
    ensures
        r == classified(line, lower_of(line@)),
{
    let lowered = lowercase(line.as_str());
    classify_lowered(line, lowered.as_str())
}

/// Records the result of running the tool for the run's current step: a
/// failure ends the run with the error's text as the reason.
pub fn execute_ffmpeg_command(run: &mut PipelineRun, result: Result<(), ExecutionError>)
    requires
        old(run).wf(),
    ensures
        final(run).wf(),
        final(run).run_id == old(run).run_id,
        final(run).steps == old(run).steps,
        final(run).state.phase() == after(
            old(run).plan_view(),
            old(run).state.phase(),
            match result {
                Ok(_) => Ok(()),
                Err(e) => Err(e.text()),
            },
        ),
{
    match result {
        Ok(_) => run.record(Ok(())),
        Err(e) => run.record(Err(e.message())),
    }
}

#[verifier::external_type_specification]
#[verifier::external_body]
#[verifier::reject_recursive_types(T)]
pub struct ExReceiver<T>(std::sync::mpsc::Receiver<T>);

/// Relies on `Receiver::try_recv`: a waiting message, if there is one, without
/// blocking. What arrives depends on other threads, so nothing is promised.
#[verifier::external_body]
fn try_receive<T>(rx: &std::sync::mpsc::Receiver<T>) -> Option<T> {
    rx.try_recv().ok()
}

/// Settles one poll of an optional channel, given what the poll delivered:
/// the message is handed back; when one came and `auto_kill` is set, the
/// channel is dropped and `loading_flag` cleared; otherwise nothing changes.
pub fn settle_poll<R>(
    rx_option: &mut Option<std::sync::mpsc::Receiver<Result<R, String>>>,
    loading_flag: &mut bool,
    auto_kill: bool,
    received: Option<Result<R, String>>,
) -> (r: Option<Result<R, String>>)
    ensures
        r == received,
        received.is_some() && auto_kill ==> final(rx_option).is_none() && !*final(loading_flag),
        received.is_none() || !auto_kill ==> *final(rx_option) == *old(rx_option)
            && *final(loading_flag) == *old(loading_flag),
{
    if received.is_some() && auto_kill {
        *rx_option = None;
        *loading_flag = false;
    }
    received
}

/// Polls an optional channel once, without blocking, and settles the poll
/// with `settle_poll`. Without a channel nothing is received and nothing
/// changes; whether a message is waiting depends on other threads.
pub fn handle_rx<R>(
    rx_option: &mut Option<std::sync::mpsc::Receiver<Result<R, String>>>,
    loading_flag: &mut bool,
    auto_kill: bool,
) -> (r: Option<Result<R, String>>)
    ensures
        old(rx_option).is_none() ==> r.is_none(),
        r.is_none() || !auto_kill ==> *final(rx_option) == *old(rx_option) && *final(loading_flag)
            == *old(loading_flag),
        r.is_some() && auto_kill ==> final(rx_option).is_none() && !*final(loading_flag),
{
    let received = match rx_option {
        Some(rx) => try_receive(rx),
        None => None,
    };
    settle_poll(rx_option, loading_flag, auto_kill, received)
}

} // verus!
