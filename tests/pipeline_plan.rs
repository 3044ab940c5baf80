use echo_blend::plan::{codec_arguments, manifest_contents, manifest_entry_list};
use echo_blend::artifacts::ArtifactNames;
use echo_blend::{plan_steps, LoopRequest, Stage, Task};

fn request(crossfade_ms: u64, loop_count: u8, is_test: bool, output: &str) -> LoopRequest {
    LoopRequest {
        start_ms: 2000,
        end_ms: 5500,
        crossfade_ms,
        loop_count,
        tool_path: "ffmpeg".to_string(),
        input_path: Some("in.wav".to_string()),
        output_path: output.to_string(),
        is_test,
    }
}

fn invocations(steps: &[echo_blend::Step]) -> Vec<(Stage, Vec<String>)> {
    steps
        .iter()
        .filter_map(|s| match &s.task {
            Task::Invoke(a) => Some((s.stage, a.clone())),
            _ => None,
        })
        .collect()
}

#[test]
fn no_crossfade_means_no_crossfade_stages() {
    let steps = plan_steps(&request(0, 3, false, "out.wav"), 9);
    for s in steps.iter() {
        assert!(!matches!(
            s.stage,
            Stage::RenderCrossfadeHalf1 | Stage::RenderCrossfadeHalf2 | Stage::MixCrossfade | Stage::CleanupCrossfadeHalves
        ));
    }
    let merge = invocations(&steps).into_iter().find(|(st, _)| *st == Stage::Merge).unwrap().1;
    assert!(merge.iter().all(|a| !a.contains("crossfade")));
    match &steps.iter().find(|s| s.stage == Stage::BuildMergePlan).unwrap().task {
        Task::WriteManifest { contents, .. } => assert!(!contents.contains("crossfade")),
        _ => panic!("the merge plan writes the manifest"),
    }
}

#[test]
fn test_render_skips_loop_and_manifest() {
    let steps = plan_steps(&request(500, 200, true, "out.wav"), 4);
    assert!(steps.iter().all(|s| s.stage != Stage::RenderLoopSegment));
    assert!(steps.iter().all(|s| !matches!(s.task, Task::WriteManifest { .. })));
    let merge = invocations(&steps).into_iter().find(|(st, _)| *st == Stage::Merge).unwrap().1;
    assert_eq!(
        merge,
        vec![
            "-y", "-i", "echo_blend_4_intro.wav", "-i", "echo_blend_4_crossfade.wav", "-i",
            "echo_blend_4_outro.wav", "-filter_complex", "concat=n=3:v=0:a=1", "out.wav",
        ]
    );
}

#[test]
fn full_render_invokes_stages_in_order() {
    let steps = plan_steps(&request(500, 2, false, "out.mp3"), 1);
    let calls = invocations(&steps);
    let stages: Vec<Stage> = calls.iter().map(|(s, _)| *s).collect();
    assert_eq!(
        stages,
        vec![
            Stage::RenderIntro,
            Stage::RenderCrossfadeHalf1,
            Stage::RenderCrossfadeHalf2,
            Stage::MixCrossfade,
            Stage::RenderLoopSegment,
            Stage::RenderOutro,
            Stage::Merge,
        ]
    );
    assert_eq!(calls[0].1, vec!["-y", "-i", "in.wav", "-t", "5", "echo_blend_1_intro.wav"]);
    assert_eq!(
        calls[1].1,
        vec!["-y", "-i", "in.wav", "-ss", "5", "-t", "0.5", "-af", "afade=t=out:st=5:d=0.5", "echo_blend_1_crossfade_out.wav"]
    );
    assert_eq!(
        calls[2].1,
        vec!["-y", "-i", "in.wav", "-ss", "1.5", "-t", "0.5", "-af", "afade=t=in:st=1.5:d=0.5", "echo_blend_1_crossfade_in.wav"]
    );
    assert_eq!(
        calls[3].1,
        vec![
            "-y", "-i", "echo_blend_1_crossfade_out.wav", "-i", "echo_blend_1_crossfade_in.wav", "-filter_complex",
            "amix=inputs=2:duration=first:dropout_transition=0:normalize=0", "echo_blend_1_crossfade.wav",
        ]
    );
    assert_eq!(calls[4].1, vec!["-y", "-i", "in.wav", "-ss", "2", "-t", "3", "echo_blend_1_loop.wav"]);
    assert_eq!(calls[5].1, vec!["-y", "-i", "in.wav", "-ss", "2", "echo_blend_1_outro.wav"]);
    assert_eq!(
        calls[6].1,
        vec!["-y", "-f", "concat", "-safe", "0", "-i", "echo_blend_1_concat_list.txt", "-q:a", "2", "out.mp3"]
    );
    match &steps.last().unwrap().task {
        Task::Announce(t) => assert_eq!(t, "Done!"),
        _ => panic!("the plan ends with the final milestone"),
    }
}

#[test]
fn manifest_lists_each_repetition() {
    let names = ArtifactNames::for_run(5);
    let entries = manifest_entry_list(&request(250, 3, false, "out.wav"), &names, 5);
    assert_eq!(entries.first().unwrap(), "echo_blend_5_intro.wav");
    assert_eq!(entries.last().unwrap(), "echo_blend_5_outro.wav");
    assert_eq!(entries.iter().filter(|e| *e == "echo_blend_5_loop.wav").count(), 3);
    assert_eq!(entries.iter().filter(|e| *e == "echo_blend_5_crossfade.wav").count(), 4);
    let text = manifest_contents(&entries);
    assert!(text.starts_with("file 'echo_blend_5_intro.wav'\nfile 'echo_blend_5_crossfade.wav'\nfile 'echo_blend_5_loop.wav'\n"));
    assert!(text.ends_with("file 'echo_blend_5_crossfade.wav'\nfile 'echo_blend_5_outro.wav'\n"));
    assert_eq!(text.lines().count(), 9);
}

#[test]
fn manifest_without_crossfade_or_repetitions() {
    let names = ArtifactNames::for_run(8);
    let entries = manifest_entry_list(&request(0, 0, false, "out.wav"), &names, 8);
    assert_eq!(entries, vec!["echo_blend_8_intro.wav", "echo_blend_8_outro.wav"]);
}

#[test]
fn codec_follows_the_output_extension() {
    assert_eq!(codec_arguments("song.mp3"), vec!["-q:a", "2"]);
    assert_eq!(codec_arguments("song.wav"), vec!["-c", "copy"]);
    assert_eq!(codec_arguments("song.flac"), vec!["-c", "copy"]);
    assert_eq!(codec_arguments("mp3"), vec!["-c", "copy"]);
}

#[test]
fn cleanup_deletes_every_artifact() {
    let steps = plan_steps(&request(0, 1, true, "o.wav"), 2);
    let removed: Vec<String> = steps
        .iter()
        .filter(|s| s.stage == Stage::CleanupSegments)
        .filter_map(|s| match &s.task {
            Task::Remove(p) => Some(p.clone()),
            _ => None,
        })
        .collect();
    assert_eq!(
        removed,
        vec![
            "echo_blend_2_concat_list.txt", "echo_blend_2_intro.wav", "echo_blend_2_outro.wav",
            "echo_blend_2_loop.wav", "echo_blend_2_crossfade.wav",
        ]
    );
}

fn files_named(steps: &[echo_blend::Step]) -> Vec<String> {
    let mut files = Vec::new();
    for s in steps {
        match &s.task {
            Task::Invoke(args) => files.extend(args.iter().filter(|a| a.starts_with("echo_blend_")).cloned()),
            Task::WriteManifest { path, .. } => files.push(path.clone()),
            Task::Remove(p) => files.push(p.clone()),
            Task::Announce(_) => {}
        }
    }
    files
}

#[test]
fn overlapping_runs_touch_only_their_own_files() {
    let req = request(300, 2, false, "out.wav");
    let first = files_named(&plan_steps(&req, 12));
    let second = files_named(&plan_steps(&req, 1));
    assert!(!first.is_empty());
    assert!(first.iter().all(|f| f.starts_with("echo_blend_12_")));
    assert!(second.iter().all(|f| f.starts_with("echo_blend_1_")));
    assert!(first.iter().all(|f| !second.contains(f)));
}
