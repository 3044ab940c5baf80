//! Turns a section of an audio file into a long, seamlessly repeating loop by
//! planning and sequencing the invocations of an external media tool.
//!
//! A run is planned up front as a sequence of steps (announce, invoke the tool,
//! write the concatenation manifest, delete a file) and driven by a small state
//! machine: the caller performs what it is asked and reports how it went.
pub mod artifacts;
pub mod engine;
pub mod isolation;
pub mod laws;
pub mod pipeline;
pub mod plan;
pub mod request;
pub mod run;
pub mod settings;
pub mod text;

pub use engine::{
    classify_lowered, classify_stderr_line, execute_ffmpeg_command, handle_rx, settle_poll, ConsoleText,
    ExecutionError,
};
pub use pipeline::{plan_steps, Stage, Step, Task};
pub use request::{validate, LoopRequest, ValidationError};
pub use run::{Action, PipelineRun, RunState};
pub use settings::{can_loop, is_supported_audio, App, AppTimes, AppToolPaths, AppUnits, TimeVariable, Unit};
