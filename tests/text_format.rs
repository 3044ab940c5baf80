use echo_blend::artifacts::{artifact_file_name, ArtifactKind, ArtifactNames};
use echo_blend::text::{decimal_text, seconds_text};

#[test]
fn decimal_of_small_and_large_numbers() {
    assert_eq!(decimal_text(0), "0");
    assert_eq!(decimal_text(7), "7");
    assert_eq!(decimal_text(10), "10");
    assert_eq!(decimal_text(1234), "1234");
    assert_eq!(decimal_text(u64::MAX), "18446744073709551615");
}

#[test]
fn seconds_drop_trailing_zeros() {
    assert_eq!(seconds_text(0), "0");
    assert_eq!(seconds_text(1500), "1.5");
    assert_eq!(seconds_text(2000), "2");
    assert_eq!(seconds_text(250), "0.25");
    assert_eq!(seconds_text(1001), "1.001");
    assert_eq!(seconds_text(10), "0.01");
    assert_eq!(seconds_text(123456789), "123456.789");
}

#[test]
fn artifact_names_carry_the_run_id() {
    assert_eq!(artifact_file_name(7, ArtifactKind::Intro), "echo_blend_7_intro.wav");
    assert_eq!(artifact_file_name(42, ArtifactKind::Manifest), "echo_blend_42_concat_list.txt");
    let names = ArtifactNames::for_run(3);
    assert_eq!(names.crossfade_out, "echo_blend_3_crossfade_out.wav");
    assert_eq!(names.crossfade_in, "echo_blend_3_crossfade_in.wav");
    assert_eq!(names.crossfade, "echo_blend_3_crossfade.wav");
    assert_eq!(names.loop_segment, "echo_blend_3_loop.wav");
    assert_eq!(names.outro, "echo_blend_3_outro.wav");
}

#[test]
fn concurrent_runs_use_disjoint_artifacts() {
    let a = ArtifactNames::for_run(1);
    let b = ArtifactNames::for_run(11);
    let all_a = [&a.intro, &a.outro, &a.loop_segment, &a.crossfade_out, &a.crossfade_in, &a.crossfade, &a.manifest];
    let all_b = [&b.intro, &b.outro, &b.loop_segment, &b.crossfade_out, &b.crossfade_in, &b.crossfade, &b.manifest];
    for x in all_a.iter() {
        for y in all_b.iter() {
            assert_ne!(x, y);
        }
    }
}
