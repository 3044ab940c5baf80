use echo_blend::{
    classify_lowered, classify_stderr_line, execute_ffmpeg_command, handle_rx, is_supported_audio, settle_poll, Action,
    ConsoleText, ExecutionError, LoopRequest, PipelineRun, RunState, Task,
};

fn request() -> LoopRequest {
    LoopRequest {
        start_ms: 1000,
        end_ms: 3000,
        crossfade_ms: 200,
        loop_count: 4,
        tool_path: "ffmpeg".to_string(),
        input_path: Some("in.wav".to_string()),
        output_path: "out.wav".to_string(),
        is_test: false,
    }
}

/// Drives a run, failing the invocation with the given index; returns the
/// number of invocations attempted, the abort reasons and the completions.
fn drive(fail_at: Option<usize>) -> (usize, Vec<String>, usize) {
    let mut run = PipelineRun::start(&request(), 77);
    let mut invocations = 0;
    let mut aborts = Vec::new();
    let mut completions = 0;
    while let Some(action) = run.next_action() {
        match action {
            Action::Perform(i) => match &run.steps[i].task {
                Task::Invoke(_) => {
                    let result = if Some(invocations) == fail_at {
                        Err(ExecutionError::NonZeroExit("exit status: 1".to_string()))
                    } else {
                        Ok(())
                    };
                    invocations += 1;
                    execute_ffmpeg_command(&mut run, result);
                }
                _ => run.record(Ok(())),
            },
            Action::Abort(reason) => {
                aborts.push(reason);
                completions += 1;
                run.record(Ok(()));
            }
            Action::Finish => {
                completions += 1;
                run.record(Ok(()));
            }
        }
    }
    assert!(matches!(run.state, RunState::Closed));
    (invocations, aborts, completions)
}

#[test]
fn successful_run_completes_once() {
    assert_eq!(drive(None), (7, vec![], 1));
}

#[test]
fn failing_stage_aborts_the_rest() {
    for k in 0..7 {
        let (invocations, aborts, completions) = drive(Some(k));
        assert_eq!(invocations, k + 1);
        assert_eq!(aborts, vec!["ffmpeg exited with error code: exit status: 1".to_string()]);
        assert_eq!(completions, 1);
    }
}

#[test]
fn failed_manifest_write_aborts() {
    let mut run = PipelineRun::start(&request(), 3);
    let index = run.steps.iter().position(|s| matches!(s.task, Task::WriteManifest { .. })).unwrap();
    run.state = RunState::Running(index);
    run.record(Err("disk full".to_string()));
    assert!(matches!(run.next_action(), Some(Action::Abort(ref r)) if r == "disk full"));
    run.record(Ok(()));
    assert!(run.next_action().is_none());
    run.record(Err("late".to_string()));
    assert!(run.next_action().is_none());
}

#[test]
fn failed_removal_does_not_abort() {
    let mut run = PipelineRun::start(&request(), 3);
    let index = run.steps.iter().position(|s| matches!(s.task, Task::Remove(_))).unwrap();
    run.state = RunState::Running(index);
    run.record(Err("missing".to_string()));
    assert!(matches!(run.next_action(), Some(Action::Perform(i)) if i == index + 1));
}

#[test]
fn spawn_failure_text_is_forwarded() {
    let mut run = PipelineRun::start(&request(), 3);
    run.record(Ok(()));
    let i = match run.next_action() {
        Some(Action::Perform(i)) => i,
        _ => panic!("the run performs its steps first"),
    };
    assert!(matches!(run.steps[i].task, Task::Invoke(_)));
    execute_ffmpeg_command(&mut run, Err(ExecutionError::SpawnFailed("No such file".to_string())));
    assert!(matches!(run.next_action(), Some(Action::Abort(ref r)) if r == "No such file"));
}

#[test]
fn stderr_lines_are_classified() {
    assert!(matches!(classify_stderr_line("Error opening input".to_string()), ConsoleText::Stderr(ref s) if s == "Error opening input"));
    assert!(matches!(classify_stderr_line("AN ERROR".to_string()), ConsoleText::Stderr(_)));
    assert!(matches!(classify_stderr_line("size=  512kB time=00:00:03".to_string()), ConsoleText::Stdout(ref s) if s == "size=  512kB time=00:00:03"));
    assert!(matches!(classify_stderr_line(String::new()), ConsoleText::Stdout(_)));
    assert!(matches!(classify_lowered("X".to_string(), "an error"), ConsoleText::Stderr(ref s) if s == "X"));
    assert!(matches!(classify_lowered("X".to_string(), "ERROR"), ConsoleText::Stdout(_)));
}

#[test]
fn exit_message_names_the_status() {
    assert_eq!(
        ExecutionError::NonZeroExit("exit status: 2".to_string()).message(),
        "ffmpeg exited with error code: exit status: 2"
    );
    assert_eq!(ExecutionError::StreamReadFailed("broken pipe".to_string()).message(), "broken pipe");
}

#[test]
fn handle_rx_hands_back_messages() {
    let (tx, rx) = std::sync::mpsc::channel::<Result<u32, String>>();
    let mut slot = Some(rx);
    let mut loading = true;
    assert_eq!(handle_rx(&mut slot, &mut loading, true), None);
    assert!(slot.is_some() && loading);
    tx.send(Ok(5)).unwrap();
    assert_eq!(handle_rx(&mut slot, &mut loading, false), Some(Ok(5)));
    assert!(slot.is_some() && loading);
    tx.send(Err("boom".to_string())).unwrap();
    assert_eq!(handle_rx(&mut slot, &mut loading, true), Some(Err("boom".to_string())));
    assert!(slot.is_none() && !loading);
    assert_eq!(handle_rx(&mut slot, &mut loading, true), None);
}

#[test]
fn supported_audio_by_name_or_extension() {
    assert!(is_supported_audio("song.wav", ""));
    assert!(is_supported_audio("song.mp3", ""));
    assert!(is_supported_audio("song", "mp3"));
    assert!(!is_supported_audio("song.flac", "flac"));
    assert!(!is_supported_audio("", ""));
}

#[test]
fn settle_poll_hands_back_what_came() {
    let (_tx, rx) = std::sync::mpsc::channel::<Result<u8, String>>();
    let mut slot = Some(rx);
    let mut loading = true;
    assert_eq!(settle_poll(&mut slot, &mut loading, true, None), None);
    assert!(slot.is_some() && loading);
    assert_eq!(settle_poll(&mut slot, &mut loading, false, Some(Ok(3))), Some(Ok(3)));
    assert!(slot.is_some() && loading);
    assert_eq!(settle_poll(&mut slot, &mut loading, true, Some(Err("x".to_string()))), Some(Err("x".to_string())));
    assert!(slot.is_none() && !loading);
}
