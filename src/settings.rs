use vstd::prelude::*;
use vstd::string::*;
use crate::engine::ConsoleText;
use crate::request::{checks, validate, LoopRequest};
use crate::text::{has_suffix, str_ends_with};

verus! {

/// The unit in which a time setting is entered.
#[derive(PartialEq, Eq, Structural, Debug, Clone, Copy)]
pub enum Unit {
    Milliseconds,
    Seconds,
}

impl Default for Unit {
    fn default() -> (r: Unit)
        ensures
            r == Unit::Milliseconds,
    {
        Unit::Milliseconds
    }
}

/// Which time setting is meant.
#[derive(PartialEq, Eq, Structural, Debug, Clone, Copy)]
pub enum TimeVariable {
    Start,
    End,
    Crossfade,
}

/// The unit of each time setting.
#[derive(PartialEq, Eq, Structural, Debug, Clone, Copy)]
pub struct AppUnits {
    pub start_unit: Unit,
    pub end_unit: Unit,
    pub crossfade_unit: Unit,
}

impl Default for AppUnits {
    fn default() -> (r: AppUnits)
        ensures
            r == (AppUnits {
                start_unit: Unit::Milliseconds,
                end_unit: Unit::Milliseconds,
                crossfade_unit: Unit::Milliseconds,
            }),
    {
        AppUnits {
            start_unit: Unit::Milliseconds,
            end_unit: Unit::Milliseconds,
            crossfade_unit: Unit::Milliseconds,
        }
    }
}

/// Where the external tool is.
pub struct AppToolPaths {
    pub ffmpeg_path: String,
}

impl Default for AppToolPaths {
    fn default() -> (r: AppToolPaths)
        ensures
            r.ffmpeg_path@.len() == 0,
    {
        AppToolPaths { ffmpeg_path: String::new() }
    }
}

/// The time settings, each in its own unit, and the repetitions.
#[derive(PartialEq, Eq, Structural, Debug, Clone, Copy)]
pub struct AppTimes {
    pub start_time: u32,
    pub end_time: u32,
    pub crossfade_duration: u16,
    pub loop_count: u8,
}

impl Default for AppTimes {
    fn default() -> (r: AppTimes)
        ensures
            r == (AppTimes { start_time: 0, end_time: 0, crossfade_duration: 0, loop_count: 0 }),
    {
        AppTimes { start_time: 0, end_time: 0, crossfade_duration: 0, loop_count: 0 }
    }
}

pub open spec fn multiplier(u: Unit) -> nat {
    match u {
        Unit::Milliseconds => 1,
        Unit::Seconds => 1000,
    }
}

/// What the user has set up: tool, input, times and units, whether a run is
/// active, and the console of the current run.
pub struct App {
    pub tools: AppToolPaths,
    pub units: AppUnits,
    /// The selected input file, if any.
    pub file: Option<String>,
    pub times: AppTimes,
    pub running: bool,
    pub console: Vec<ConsoleText>,
}

impl Default for App {
    fn default() -> (r: App)
        ensures
            r.tools.ffmpeg_path@.len() == 0,
            r.units == (AppUnits {
                start_unit: Unit::Milliseconds,
                end_unit: Unit::Milliseconds,
                crossfade_unit: Unit::Milliseconds,
            }),
            r.file.is_none(),
            r.times == (AppTimes { start_time: 0, end_time: 0, crossfade_duration: 0, loop_count: 0 }),
            !r.running,
            r.console@.len() == 0,
    {
        App {
            tools: AppToolPaths::default(),
            units: AppUnits::default(),
            file: None,
            times: AppTimes::default(),
            running: false,
            console: Vec::new(),
        }
    }
}

impl App {
    /// A time setting as entered.
    pub open spec fn entered(&self, var: TimeVariable) -> nat {
        match var {
            TimeVariable::Start => self.times.start_time as nat,
            TimeVariable::End => self.times.end_time as nat,
            TimeVariable::Crossfade => self.times.crossfade_duration as nat,
        }
    }

    /// The unit of a time setting.
    pub open spec fn unit_of(&self, var: TimeVariable) -> Unit {
        match var {
            TimeVariable::Start => self.units.start_unit,
            TimeVariable::End => self.units.end_unit,
            TimeVariable::Crossfade => self.units.crossfade_unit,
        }
    }

    /// A time setting in milliseconds.
    pub open spec fn time_ms(&self, var: TimeVariable) -> nat {
        self.entered(var) * multiplier(self.unit_of(var))
    }

    /// A time setting in milliseconds.
    pub fn get_time_var_ms(&self, var: TimeVariable) -> (r: u64)
        ensures
            r == self.time_ms(var),
    {
        let (value, unit) = match var {
            TimeVariable::Start => (self.times.start_time as u64, self.units.start_unit),
            TimeVariable::End => (self.times.end_time as u64, self.units.end_unit),
            TimeVariable::Crossfade => (self.times.crossfade_duration as u64, self.units.crossfade_unit),
        };
        assert(value == self.entered(var) && unit == self.unit_of(var));
        match unit {
            Unit::Milliseconds => {
                assert(value * 1 == value);
                value
            },
            Unit::Seconds => {
                assert(value * 1000 <= 0xffff_ffffu64 * 1000) by (nonlinear_arith)
                    requires
                        value <= 0xffff_ffffu64,
                ;
                value * 1000
            },
        }
    }

    /// The checks of a loop request on this set-up.
    pub open spec fn loop_checks(&self) -> Result<(), crate::request::ValidationError> {
        checks(
            self.running,
            self.tools.ffmpeg_path@,
            self.file.is_some(),
            self.time_ms(TimeVariable::Start) as u64,
            self.time_ms(TimeVariable::End) as u64,
            self.time_ms(TimeVariable::Crossfade) as u64,
        )
    }

    /// The request for a run of this set-up into `output_path`.
    pub fn loop_request(&self, output_path: String, is_test: bool) -> (r: LoopRequest)
        ensures
            r.start_ms == self.time_ms(TimeVariable::Start),
            r.end_ms == self.time_ms(TimeVariable::End),
            r.crossfade_ms == self.time_ms(TimeVariable::Crossfade),
            r.loop_count == self.times.loop_count,
            r.tool_path@ == self.tools.ffmpeg_path@,
            r.input_path.is_some() == self.file.is_some(),
            self.file.is_some() ==> r.input_path->Some_0@ == self.file->Some_0@,
            r.output_path == output_path,
            r.is_test == is_test,
    {
        let input_path = match &self.file {
            Some(f) => Some(f.clone()),
            None => None,
        };
        LoopRequest {
            start_ms: self.get_time_var_ms(TimeVariable::Start),
            end_ms: self.get_time_var_ms(TimeVariable::End),
            crossfade_ms: self.get_time_var_ms(TimeVariable::Crossfade),
            loop_count: self.times.loop_count,
            tool_path: self.tools.ffmpeg_path.clone(),
            input_path,
            output_path,
            is_test,
        }
    }
}

/// Whether a loop can be started now; if not, the reason to show.
pub fn can_loop(app: &App) -> (r: Result<(), String>)
    ensures
        r is Ok <==> app.loop_checks() is Ok,
        r is Err ==> r->Err_0@ == app.loop_checks()->Err_0.text(),
{
    let req = app.loop_request(String::new(), false);
    match validate(&req, app.running) {
        Ok(()) => Ok(()),
        Err(e) => Err(e.message()),
    }
}

/// Whether a dropped file is one the pipeline takes: its name or its extension
/// marks it as WAV or MP3.
pub fn is_supported_audio(name: &str, extension: &str) -> (r: bool)
    ensures
        r == (has_suffix(name@, ".wav"@) || has_suffix(name@, ".mp3"@) || has_suffix(extension@, "wav"@)
            || has_suffix(extension@, "mp3"@)),
{
    str_ends_with(name, ".wav") || str_ends_with(name, ".mp3") || str_ends_with(extension, "wav")
        || str_ends_with(extension, "mp3")
}

} // verus!
