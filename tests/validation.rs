use echo_blend::{can_loop, validate, App, LoopRequest, TimeVariable, Unit, ValidationError};

fn request(start_ms: u64, end_ms: u64, crossfade_ms: u64) -> LoopRequest {
    LoopRequest {
        start_ms,
        end_ms,
        crossfade_ms,
        loop_count: 2,
        tool_path: "ffmpeg".to_string(),
        input_path: Some("song.wav".to_string()),
        output_path: "out.wav".to_string(),
        is_test: false,
    }
}

#[test]
fn equal_start_and_end_is_rejected() {
    assert_eq!(
        validate(&request(1000, 1000, 0), false),
        Err(ValidationError::StartNotBeforeEnd { start_ms: 1000, end_ms: 1000 })
    );
}

#[test]
fn crossfade_must_precede_the_start() {
    // A crossfade of half a second cannot start before a loop that begins at zero.
    assert_eq!(
        validate(&request(0, 2000, 500), false),
        Err(ValidationError::CrossfadeNotBeforeStart { crossfade_ms: 500, start_ms: 0 })
    );
}

#[test]
fn well_formed_request_is_accepted() {
    assert_eq!(validate(&request(1000, 2000, 500), false), Ok(()));
    assert_eq!(validate(&request(1000, 2000, 0), false), Ok(()));
}

#[test]
fn crossfade_longer_than_loop_is_rejected() {
    assert!(validate(&request(1000, 2000, 1500), false).is_err());
    assert_eq!(
        validate(&request(1000, 2000, 1500), false),
        Err(ValidationError::CrossfadeNotBeforeStart { crossfade_ms: 1500, start_ms: 1000 })
    );
    assert_eq!(
        validate(&request(3000, 4000, 1000), false),
        Err(ValidationError::CrossfadeNotShorterThanLoop { crossfade_ms: 1000, loop_ms: 1000 })
    );
}

#[test]
fn checks_run_in_order() {
    assert_eq!(validate(&request(5, 1, 9), true), Err(ValidationError::AlreadyRunning));
    let mut r = request(5, 1, 9);
    r.tool_path = String::new();
    assert_eq!(validate(&r, false), Err(ValidationError::MissingTool));
    let mut r = request(5, 1, 9);
    r.input_path = None;
    assert_eq!(validate(&r, false), Err(ValidationError::MissingInput));
}

#[test]
fn messages_name_the_values() {
    assert_eq!(
        ValidationError::StartNotBeforeEnd { start_ms: 1000, end_ms: 1000 }.message(),
        "The start time must be less than the end time. Start: 1000, End: 1000"
    );
    assert_eq!(
        ValidationError::CrossfadeNotShorterThanLoop { crossfade_ms: 1000, loop_ms: 1000 }.message(),
        "The crossfade duration must be less than the loop duration. Crossfade: 1000, Loop Duration: 1000"
    );
    assert_eq!(ValidationError::AlreadyRunning.message(), "A loop is already running.");
}

fn app() -> App {
    let mut app = App::default();
    app.tools.ffmpeg_path = "ffmpeg".to_string();
    app.file = Some("song.mp3".to_string());
    app
}

#[test]
fn time_settings_convert_to_milliseconds() {
    let mut a = app();
    a.times.start_time = 3;
    a.units.start_unit = Unit::Seconds;
    a.times.end_time = 4500;
    a.times.crossfade_duration = 2;
    a.units.crossfade_unit = Unit::Seconds;
    assert_eq!(a.get_time_var_ms(TimeVariable::Start), 3000);
    assert_eq!(a.get_time_var_ms(TimeVariable::End), 4500);
    assert_eq!(a.get_time_var_ms(TimeVariable::Crossfade), 2000);
    a.times.end_time = u32::MAX;
    a.units.end_unit = Unit::Seconds;
    assert_eq!(a.get_time_var_ms(TimeVariable::End), u32::MAX as u64 * 1000);
}

#[test]
fn can_loop_reports_the_first_failure() {
    let mut a = app();
    assert_eq!(
        can_loop(&a),
        Err("The start time must be less than the end time. Start: 0, End: 0".to_string())
    );
    a.times.start_time = 2;
    a.units.start_unit = Unit::Seconds;
    a.times.end_time = 4000;
    a.times.crossfade_duration = 300;
    assert_eq!(can_loop(&a), Ok(()));
    a.running = true;
    assert_eq!(can_loop(&a), Err("A loop is already running.".to_string()));
}

#[test]
fn loop_request_takes_the_settings() {
    let mut a = app();
    a.times.start_time = 2;
    a.units.start_unit = Unit::Seconds;
    a.times.end_time = 4000;
    a.times.loop_count = 5;
    let r = a.loop_request("out.mp3".to_string(), true);
    assert_eq!(r.start_ms, 2000);
    assert_eq!(r.end_ms, 4000);
    assert_eq!(r.crossfade_ms, 0);
    assert_eq!(r.loop_count, 5);
    assert_eq!(r.input_path, Some("song.mp3".to_string()));
    assert_eq!(r.output_path, "out.mp3");
    assert!(r.is_test);
}
