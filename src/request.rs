use vstd::prelude::*;
use vstd::string::*;
use crate::text::{decimal, decimal_text};

verus! {

/// One loop job. Times are whole milliseconds.
pub struct LoopRequest {
    pub start_ms: u64,
    pub end_ms: u64,
    pub crossfade_ms: u64,
    /// Repetitions of the loop body in a full render; a test render plays it once.
    pub loop_count: u8,
    pub tool_path: String,
    /// The selected input file, if any.
    pub input_path: Option<String>,
    pub output_path: String,
    /// A single-pass preview instead of the full repeated loop.
    pub is_test: bool,
}

/// Why a request cannot be run. Times are in milliseconds.
#[derive(PartialEq, Eq, Structural, Debug, Clone, Copy)]
pub enum ValidationError {
    AlreadyRunning,
    MissingTool,
    MissingInput,
    StartNotBeforeEnd { start_ms: u64, end_ms: u64 },
    CrossfadeNotBeforeStart { crossfade_ms: u64, start_ms: u64 },
    CrossfadeNotShorterThanLoop { crossfade_ms: u64, loop_ms: u64 },
}

/// The outcome of the checks, in order, on what they read: whether a run is
/// active, the tool path, whether an input is selected, and the three times.
pub open spec fn checks(
    currently_running: bool,
    tool_path: Seq<char>,
    has_input: bool,
    start_ms: u64,
    end_ms: u64,
    crossfade_ms: u64,
) -> Result<(), ValidationError> {
    if currently_running {
        Err(ValidationError::AlreadyRunning)
    } else if tool_path.len() == 0 {
        Err(ValidationError::MissingTool)
    } else if !has_input {
        Err(ValidationError::MissingInput)
    } else if start_ms >= end_ms {
        Err(ValidationError::StartNotBeforeEnd { start_ms, end_ms })
    } else if crossfade_ms >= start_ms {
        Err(ValidationError::CrossfadeNotBeforeStart { crossfade_ms, start_ms })
    } else if crossfade_ms >= end_ms - start_ms {
        Err(ValidationError::CrossfadeNotShorterThanLoop { crossfade_ms, loop_ms: (end_ms - start_ms) as u64 })
    } else {
        Ok(())
    }
}

/// The outcome of checking a request: the checks run in order and the first
/// failure is reported.
pub open spec fn validation(req: LoopRequest, currently_running: bool) -> Result<(), ValidationError> {
    checks(
        currently_running,
        req.tool_path@,
        req.input_path.is_some(),
        req.start_ms,
        req.end_ms,
        req.crossfade_ms,
    )
}

/// A request that the pipeline can run.
pub open spec fn valid_request(req: LoopRequest) -> bool {
    validation(req, false) is Ok
}

impl LoopRequest {
    pub open spec fn input(&self) -> Seq<char> {
        match self.input_path {
            Some(p) => p@,
            None => Seq::empty(),
        }
    }

    pub open spec fn crossfaded(&self) -> bool {
        self.crossfade_ms > 0
    }
}

/// Checks a request before any work starts.
pub fn validate(req: &LoopRequest, currently_running: bool) -> (r: Result<(), ValidationError>)
    ensures
        r == validation(*req, currently_running),
{
    if currently_running {
        return Err(ValidationError::AlreadyRunning);
    }
    if req.tool_path.as_str().is_empty() {
        return Err(ValidationError::MissingTool);
    }
    if req.input_path.is_none() {
        return Err(ValidationError::MissingInput);
    }
    if req.start_ms >= req.end_ms {
        return Err(ValidationError::StartNotBeforeEnd { start_ms: req.start_ms, end_ms: req.end_ms });
    }
    if req.crossfade_ms >= req.start_ms {
        return Err(
            ValidationError::CrossfadeNotBeforeStart {
                crossfade_ms: req.crossfade_ms,
                start_ms: req.start_ms,
            },
        );
    }
    let loop_ms = req.end_ms - req.start_ms;
    if req.crossfade_ms >= loop_ms {
        return Err(
            ValidationError::CrossfadeNotShorterThanLoop { crossfade_ms: req.crossfade_ms, loop_ms },
        );
    }
    Ok(())
}

impl ValidationError {
    /// The text shown for this error.
    pub open spec fn text(self) -> Seq<char> {
        match self {
            ValidationError::AlreadyRunning => "A loop is already running."@,
            ValidationError::MissingTool => "Please provide the path to the FFMPEG executable."@,
            ValidationError::MissingInput => "Please provide a file to loop."@,
            ValidationError::StartNotBeforeEnd { start_ms, end_ms } =>
                "The start time must be less than the end time. Start: "@ + decimal(start_ms as nat)
                    + ", End: "@ + decimal(end_ms as nat),
            ValidationError::CrossfadeNotBeforeStart { crossfade_ms, start_ms } =>
                "The crossfade duration must be less than the start time. Crossfade: "@
                    + decimal(crossfade_ms as nat) + ", Start: "@ + decimal(start_ms as nat),
            ValidationError::CrossfadeNotShorterThanLoop { crossfade_ms, loop_ms } =>
                "The crossfade duration must be less than the loop duration. Crossfade: "@
                    + decimal(crossfade_ms as nat) + ", Loop Duration: "@ + decimal(loop_ms as nat),
        }
    }

    /// A human-readable message that names the offending values.
    pub fn message(&self) -> (r: String)
        ensures
            r@ == self.text(),
    {
        match self {
            ValidationError::AlreadyRunning => String::from_str("A loop is already running."),
            ValidationError::MissingTool => String::from_str(
                "Please provide the path to the FFMPEG executable.",
            ),
            ValidationError::MissingInput => String::from_str("Please provide a file to loop."),
            ValidationError::StartNotBeforeEnd { start_ms, end_ms } => {
                let mut s = String::from_str("The start time must be less than the end time. Start: ");
                s.append(decimal_text(*start_ms).as_str());
                s.append(", End: ");
                s.append(decimal_text(*end_ms).as_str());
                s
            },
            ValidationError::CrossfadeNotBeforeStart { crossfade_ms, start_ms } => {
                let mut s = String::from_str(
                    "The crossfade duration must be less than the start time. Crossfade: ",
                );
                s.append(decimal_text(*crossfade_ms).as_str());
                s.append(", Start: ");
                s.append(decimal_text(*start_ms).as_str());
                s
            },
            ValidationError::CrossfadeNotShorterThanLoop { crossfade_ms, loop_ms } => {
                let mut s = String::from_str(
                    "The crossfade duration must be less than the loop duration. Crossfade: ",
                );
                s.append(decimal_text(*crossfade_ms).as_str());
                s.append(", Loop Duration: ");
                s.append(decimal_text(*loop_ms).as_str());
                s
            },
        }
    }
}

} // verus!
