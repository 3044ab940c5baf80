use vstd::prelude::*;
use crate::artifacts::{
    artifact_name, lemma_artifact_name_injective, lemma_name_starts_with_e, ArtifactKind,
};
use crate::pipeline::{
    cleanup_steps, crossfade_steps, done_steps, intro_steps, loop_steps, merge_plan_steps,
    merge_steps, note_steps, outro_steps, plan, stages, Stage, StepView, TaskView,
};
use crate::plan::{
    codec_args_for, filter_graph_merge_args, manifest_entries, manifest_merge_args, merge_args,
    repetition, repetitions,
};
use crate::request::LoopRequest;

verus! {

/// How often `x` occurs in `s`.
pub open spec fn occurrences(s: Seq<Seq<char>>, x: Seq<char>) -> nat
    decreases s.len(),
{
    if s.len() == 0 {
        0
    } else {
        occurrences(s.drop_last(), x) + (if s.last() == x {
            1nat
        } else {
            0nat
        })
    }
}

/// Every step of `s` satisfies `p`.
pub open spec fn all_steps(s: Seq<StepView>, p: spec_fn(StepView) -> bool) -> bool {
    forall|i: int| 0 <= i < s.len() ==> #[trigger] p(s[i])
}

proof fn lemma_all_steps_concat(a: Seq<StepView>, b: Seq<StepView>, p: spec_fn(StepView) -> bool)
    requires
        all_steps(a, p),
        all_steps(b, p),
    ensures
        all_steps(a + b, p),
{
    assert forall|i: int| 0 <= i < (a + b).len() implies #[trigger] p((a + b)[i]) by {
        if i < a.len() {
            assert((a + b)[i] == a[i]);
        } else {
            assert((a + b)[i] == b[i - a.len()]);
        }
    }
}

/// A property of steps that holds throughout each piece of the plan holds
/// throughout the plan.
pub proof fn lemma_plan_all_steps(req: LoopRequest, id: nat, p: spec_fn(StepView) -> bool)
    requires
        all_steps(note_steps(req), p),
        all_steps(intro_steps(req, id), p),
        all_steps(crossfade_steps(req, id), p),
        all_steps(loop_steps(req, id), p),
        all_steps(outro_steps(req, id), p),
        all_steps(merge_plan_steps(req, id), p),
        all_steps(merge_steps(req, id), p),
        all_steps(cleanup_steps(id), p),
        all_steps(done_steps(), p),
    ensures
        all_steps(plan(req, id), p),
{
    let with_intro = note_steps(req) + intro_steps(req, id);
    let with_crossfade = with_intro + crossfade_steps(req, id);
    let with_loop = with_crossfade + loop_steps(req, id);
    let with_outro = with_loop + outro_steps(req, id);
    let with_manifest = with_outro + merge_plan_steps(req, id);
    let with_merge = with_manifest + merge_steps(req, id);
    let with_cleanup = with_merge + cleanup_steps(id);
    lemma_all_steps_concat(note_steps(req), intro_steps(req, id), p);
    lemma_all_steps_concat(with_intro, crossfade_steps(req, id), p);
    lemma_all_steps_concat(with_crossfade, loop_steps(req, id), p);
    lemma_all_steps_concat(with_loop, outro_steps(req, id), p);
    lemma_all_steps_concat(with_outro, merge_plan_steps(req, id), p);
    lemma_all_steps_concat(with_manifest, merge_steps(req, id), p);
    lemma_all_steps_concat(with_merge, cleanup_steps(id), p);
    lemma_all_steps_concat(with_cleanup, done_steps(), p);
}

pub open spec fn outside_stage(stage: Stage) -> spec_fn(StepView) -> bool {
    |s: StepView| s.stage != stage
}

pub open spec fn not_manifest_write() -> spec_fn(StepView) -> bool {
    |s: StepView| !(s.task is WriteManifest)
}

/// No step of `s` belongs to `stage`.
pub open spec fn avoids_stage(s: Seq<StepView>, stage: Stage) -> bool {
    all_steps(s, outside_stage(stage))
}

/// No step of `s` writes a manifest.
pub open spec fn writes_no_manifest(s: Seq<StepView>) -> bool {
    all_steps(s, not_manifest_write())
}

/// Every piece of the plan but the crossfade steps avoids the crossfade stages.
proof fn lemma_plan_avoids(req: LoopRequest, id: nat, stage: Stage)
    requires
        avoids_stage(crossfade_steps(req, id), stage),
        avoids_stage(loop_steps(req, id), stage),
        stage != Stage::RenderIntro,
        stage != Stage::RenderOutro,
        stage != Stage::BuildMergePlan,
        stage != Stage::Merge,
        stage != Stage::CleanupSegments,
        stage != Stage::Done,
    ensures
        avoids_stage(plan(req, id), stage),
{
    assert(avoids_stage(note_steps(req), stage));
    assert(avoids_stage(intro_steps(req, id), stage));
    assert(avoids_stage(outro_steps(req, id), stage));
    assert(avoids_stage(merge_plan_steps(req, id), stage));
    assert(avoids_stage(merge_steps(req, id), stage));
    assert(avoids_stage(cleanup_steps(id), stage));
    assert(avoids_stage(done_steps(), stage));
    lemma_plan_all_steps(req, id, outside_stage(stage));
}

proof fn lemma_avoids_means_absent(s: Seq<StepView>, stage: Stage)
    requires
        avoids_stage(s, stage),
    ensures
        !stages(s).contains(stage),
{
    if stages(s).contains(stage) {
        let i = choose|i: int| 0 <= i < stages(s).len() && stages(s)[i] == stage;
        assert(s[i].stage == stage);
        assert(outside_stage(stage)(s[i]));
    }
}

proof fn lemma_occurrences_concat(a: Seq<Seq<char>>, b: Seq<Seq<char>>, x: Seq<char>)
    ensures
        occurrences(a + b, x) == occurrences(a, x) + occurrences(b, x),
    decreases b.len(),
{
    if b.len() == 0 {
        assert(a + b =~= a);
    } else {
        assert((a + b).drop_last() =~= a + b.drop_last());
        assert((a + b).last() == b.last());
        lemma_occurrences_concat(a, b.drop_last(), x);
    }
}

proof fn lemma_occurrences_single(a: Seq<char>, x: Seq<char>)
    ensures
        occurrences(seq![a], x) == (if a == x {
            1nat
        } else {
            0nat
        }),
{
    assert(seq![a].drop_last() =~= Seq::<Seq<char>>::empty());
    assert(occurrences(Seq::<Seq<char>>::empty(), x) == 0);
    assert(seq![a].last() == a);
}

proof fn lemma_occurrences_pair(a: Seq<char>, b: Seq<char>, x: Seq<char>)
    ensures
        occurrences(seq![a, b], x) == (if a == x {
            1nat
        } else {
            0nat
        }) + (if b == x {
            1nat
        } else {
            0nat
        }),
{
    assert(seq![a, b] =~= seq![a] + seq![b]);
    lemma_occurrences_concat(seq![a], seq![b], x);
    lemma_occurrences_single(a, x);
    lemma_occurrences_single(b, x);
}

proof fn lemma_distinct_kinds(id: nat, k1: ArtifactKind, k2: ArtifactKind)
    requires
        k1 != k2,
    ensures
        artifact_name(id, k1) != artifact_name(id, k2),
{
    if artifact_name(id, k1) == artifact_name(id, k2) {
        lemma_artifact_name_injective(id, k1, id, k2);
    }
}

/// How often the artifact of `kind` occurs in one repetition.
pub open spec fn per_repetition(crossfaded: bool, kind: ArtifactKind) -> nat {
    if kind == ArtifactKind::LoopSegment {
        1
    } else if kind == ArtifactKind::Crossfade && crossfaded {
        1
    } else {
        0
    }
}

proof fn lemma_repetition_count(crossfaded: bool, id: nat, kind: ArtifactKind)
    ensures
        occurrences(repetition(crossfaded, id), artifact_name(id, kind)) == per_repetition(
            crossfaded,
            kind,
        ),
{
    let x = artifact_name(id, kind);
    let xf = artifact_name(id, ArtifactKind::Crossfade);
    let lp = artifact_name(id, ArtifactKind::LoopSegment);
    if kind != ArtifactKind::Crossfade {
        lemma_distinct_kinds(id, kind, ArtifactKind::Crossfade);
    }
    if kind != ArtifactKind::LoopSegment {
        lemma_distinct_kinds(id, kind, ArtifactKind::LoopSegment);
    }
    if crossfaded {
        lemma_occurrences_pair(xf, lp, x);
    } else {
        lemma_occurrences_single(lp, x);
    }
}

proof fn lemma_repetitions_count(n: nat, crossfaded: bool, id: nat, kind: ArtifactKind)
    ensures
        occurrences(repetitions(n, crossfaded, id), artifact_name(id, kind)) == n * per_repetition(
            crossfaded,
            kind,
        ),
    decreases n,
{
    let x = artifact_name(id, kind);
    if n == 0 {
        assert(repetitions(n, crossfaded, id) == Seq::<Seq<char>>::empty());
        assert(occurrences(Seq::<Seq<char>>::empty(), x) == 0);
    } else {
        assert(repetitions(n, crossfaded, id) == repetitions((n - 1) as nat, crossfaded, id)
            + repetition(crossfaded, id));
        lemma_repetitions_count((n - 1) as nat, crossfaded, id, kind);
        lemma_occurrences_concat(
            repetitions((n - 1) as nat, crossfaded, id),
            repetition(crossfaded, id),
            x,
        );
        lemma_repetition_count(crossfaded, id, kind);
        assert((n - 1) * per_repetition(crossfaded, kind) + per_repetition(crossfaded, kind) == n
            * per_repetition(crossfaded, kind)) by (nonlinear_arith);
    }
}

/// A full render's manifest lists the loop body once per repetition and, with
/// a crossfade, the crossfade once before each repetition and once more before
/// the outro; it opens with the intro and closes with the outro, each listed once.
pub proof fn manifest_repeats_loop_body(req: LoopRequest, id: nat)
    ensures
        ({
            let entries = manifest_entries(req, id);
            &&& entries.len() >= 2
            &&& entries[0] == artifact_name(id, ArtifactKind::Intro)
            &&& entries.last() == artifact_name(id, ArtifactKind::Outro)
            &&& occurrences(entries, artifact_name(id, ArtifactKind::Intro)) == 1
            &&& occurrences(entries, artifact_name(id, ArtifactKind::Outro)) == 1
            &&& occurrences(entries, artifact_name(id, ArtifactKind::LoopSegment)) == req.loop_count
            &&& occurrences(entries, artifact_name(id, ArtifactKind::Crossfade)) == (if req.crossfaded() {
                req.loop_count + 1
            } else {
                0
            })
        }),
{
    let n = req.loop_count as nat;
    let cf = req.crossfaded();
    let intro = artifact_name(id, ArtifactKind::Intro);
    let outro = artifact_name(id, ArtifactKind::Outro);
    let xf = artifact_name(id, ArtifactKind::Crossfade);
    let reps = repetitions(n, cf, id);
    let tail: Seq<Seq<char>> = if cf {
        seq![xf]
    } else {
        Seq::empty()
    };
    let entries = manifest_entries(req, id);
    assert(entries == seq![intro] + reps + tail + seq![outro]);
    assert(entries[0] == intro);
    assert(entries.last() == outro);
    assert forall|kind: ArtifactKind|
        #![trigger artifact_name(id, kind)]
        occurrences(entries, artifact_name(id, kind)) == (if kind == ArtifactKind::Intro {
            1nat
        } else {
            0nat
        }) + n * per_repetition(cf, kind) + (if cf && kind == ArtifactKind::Crossfade {
            1nat
        } else {
            0nat
        }) + (if kind == ArtifactKind::Outro {
            1nat
        } else {
            0nat
        }) by {
        let x = artifact_name(id, kind);
        lemma_occurrences_concat(seq![intro] + reps + tail, seq![outro], x);
        lemma_occurrences_concat(seq![intro] + reps, tail, x);
        lemma_occurrences_concat(seq![intro], reps, x);
        lemma_occurrences_single(intro, x);
        lemma_occurrences_single(outro, x);
        lemma_repetitions_count(n, cf, id, kind);
        if kind != ArtifactKind::Intro {
            lemma_distinct_kinds(id, kind, ArtifactKind::Intro);
        }
        if kind != ArtifactKind::Outro {
            lemma_distinct_kinds(id, kind, ArtifactKind::Outro);
        }
        if cf {
            lemma_occurrences_single(xf, x);
            if kind != ArtifactKind::Crossfade {
                lemma_distinct_kinds(id, kind, ArtifactKind::Crossfade);
            }
        } else {
            assert(occurrences(tail, x) == 0);
        }
    }
    assert(per_repetition(cf, ArtifactKind::Intro) == 0);
    assert(per_repetition(cf, ArtifactKind::Outro) == 0);
    assert(n * 0 == 0);
    assert(occurrences(entries, artifact_name(id, ArtifactKind::Intro)) == 1);
    assert(occurrences(entries, artifact_name(id, ArtifactKind::Outro)) == 1);
    assert(occurrences(entries, artifact_name(id, ArtifactKind::LoopSegment)) == n * 1);
    assert(occurrences(entries, xf) == n * per_repetition(cf, ArtifactKind::Crossfade) + (if cf {
        1nat
    } else {
        0nat
    }));
}

/// The artifacts that exist only when the run has a crossfade.
pub open spec fn is_crossfade_kind(kind: ArtifactKind) -> bool {
    kind == ArtifactKind::CrossfadeOut || kind == ArtifactKind::CrossfadeIn || kind
        == ArtifactKind::Crossfade
}

/// Without a crossfade, no step belongs to a crossfade stage, the manifest lists
/// no crossfade artifact, and no argument of the merge but the output path names one.
pub proof fn no_crossfade_stages_without_crossfade(req: LoopRequest, id: nat)
    requires
        req.crossfade_ms == 0,
    ensures
        !stages(plan(req, id)).contains(Stage::RenderCrossfadeHalf1),
        !stages(plan(req, id)).contains(Stage::RenderCrossfadeHalf2),
        !stages(plan(req, id)).contains(Stage::MixCrossfade),
        !stages(plan(req, id)).contains(Stage::CleanupCrossfadeHalves),
        forall|kind: ArtifactKind|
            is_crossfade_kind(kind) ==> !manifest_entries(req, id).contains(
                #[trigger] artifact_name(id, kind),
            ),
        forall|i: int, kind: ArtifactKind|
            0 <= i < merge_args(req, id).len() && merge_args(req, id)[i] != req.output_path@
                && is_crossfade_kind(kind) ==> #[trigger] merge_args(req, id)[i] != #[trigger] artifact_name(
                id,
                kind,
            ),
{
    assert(crossfade_steps(req, id) =~= Seq::<StepView>::empty());
    let stages_out = seq![
        Stage::RenderCrossfadeHalf1,
        Stage::RenderCrossfadeHalf2,
        Stage::MixCrossfade,
        Stage::CleanupCrossfadeHalves,
    ];
    assert forall|j: int| 0 <= j < 4 implies !stages(plan(req, id)).contains(#[trigger] stages_out[j]) by {
        let stage = stages_out[j];
        assert(avoids_stage(crossfade_steps(req, id), stage));
        assert(avoids_stage(loop_steps(req, id), stage));
        lemma_plan_avoids(req, id, stage);
        lemma_avoids_means_absent(plan(req, id), stage);
    }
    assert(stages_out[0] == Stage::RenderCrossfadeHalf1);
    assert(stages_out[1] == Stage::RenderCrossfadeHalf2);
    assert(stages_out[2] == Stage::MixCrossfade);
    assert(stages_out[3] == Stage::CleanupCrossfadeHalves);
    let n = req.loop_count as nat;
    assert forall|kind: ArtifactKind|
        is_crossfade_kind(kind) implies !manifest_entries(req, id).contains(
            #[trigger] artifact_name(id, kind),
        ) by {
        let x = artifact_name(id, kind);
        manifest_repeats_loop_body(req, id);
        lemma_distinct_kinds(id, kind, ArtifactKind::Intro);
        lemma_distinct_kinds(id, kind, ArtifactKind::Outro);
        lemma_distinct_kinds(id, kind, ArtifactKind::LoopSegment);
        let entries = manifest_entries(req, id);
        let reps = repetitions(n, false, id);
        assert(entries == seq![artifact_name(id, ArtifactKind::Intro)] + reps + Seq::<Seq<char>>::empty()
            + seq![artifact_name(id, ArtifactKind::Outro)]);
        lemma_repetitions_count(n, false, id, kind);
        assert(n * 0 == 0);
        lemma_occurrences_concat(seq![artifact_name(id, ArtifactKind::Intro)], reps, x);
        lemma_occurrences_single(artifact_name(id, ArtifactKind::Intro), x);
        lemma_occurrences_single(artifact_name(id, ArtifactKind::Outro), x);
        lemma_occurrences_concat(
            seq![artifact_name(id, ArtifactKind::Intro)] + reps + Seq::<Seq<char>>::empty(),
            seq![artifact_name(id, ArtifactKind::Outro)],
            x,
        );
        assert(seq![artifact_name(id, ArtifactKind::Intro)] + reps + Seq::<Seq<char>>::empty()
            =~= seq![artifact_name(id, ArtifactKind::Intro)] + reps);
        assert(occurrences(entries, x) == 0);
        lemma_absent_when_no_occurrence(entries, x);
    }
    assert forall|i: int, kind: ArtifactKind|
        0 <= i < merge_args(req, id).len() && merge_args(req, id)[i] != req.output_path@
            && is_crossfade_kind(kind) implies #[trigger] merge_args(req, id)[i] != #[trigger] artifact_name(
        id,
        kind,
    ) by {
        let a = merge_args(req, id)[i];
        lemma_name_starts_with_e(id, kind);
        lemma_distinct_kinds(id, kind, ArtifactKind::Intro);
        lemma_distinct_kinds(id, kind, ArtifactKind::Outro);
        lemma_distinct_kinds(id, kind, ArtifactKind::Manifest);
        reveal_strlit("-y");
        reveal_strlit("-i");
        reveal_strlit("-filter_complex");
        reveal_strlit("concat=n=2:v=0:a=1");
        reveal_strlit("-f");
        reveal_strlit("concat");
        reveal_strlit("-safe");
        reveal_strlit("0");
        reveal_strlit("-q:a");
        reveal_strlit("2");
        reveal_strlit("-c");
        reveal_strlit("copy");
        if !req.is_test {
            let m = manifest_merge_args(req, id);
            let head = seq!["-y"@, "-f"@, "concat"@, "-safe"@, "0"@, "-i"@, artifact_name(id, ArtifactKind::Manifest)];
            let codec = codec_args_for(req.output_path@);
            if i < 7 {
                assert(m[i] == head[i]);
            } else if i < 9 {
                assert(m[i] == codec[i - 7]);
            }
        }
    }
}

proof fn lemma_absent_when_no_occurrence(s: Seq<Seq<char>>, x: Seq<char>)
    requires
        occurrences(s, x) == 0,
    ensures
        !s.contains(x),
    decreases s.len(),
{
    if s.len() > 0 {
        lemma_absent_when_no_occurrence(s.drop_last(), x);
        assert forall|i: int| 0 <= i < s.len() implies s[i] != x by {
            if i < s.len() - 1 {
                assert(s[i] == s.drop_last()[i]);
            }
        }
    }
}

/// A test render, whatever its loop count, has no loop-segment stage, writes
/// no manifest, and merges through the in-memory filter graph.
pub proof fn test_render_skips_loop_segment(req: LoopRequest, id: nat)
    requires
        req.is_test,
    ensures
        !stages(plan(req, id)).contains(Stage::RenderLoopSegment),
        writes_no_manifest(plan(req, id)),
        merge_args(req, id) == filter_graph_merge_args(req, id),
        plan(req, id).contains(
            StepView {
                stage: Stage::Merge,
                task: TaskView::Invoke(filter_graph_merge_args(req, id)),
            },
        ),
{
    let stage = Stage::RenderLoopSegment;
    assert(loop_steps(req, id) =~= Seq::<StepView>::empty());
    assert(avoids_stage(crossfade_steps(req, id), stage));
    assert(avoids_stage(loop_steps(req, id), stage));
    lemma_plan_avoids(req, id, stage);
    lemma_avoids_means_absent(plan(req, id), stage);
    assert(writes_no_manifest(note_steps(req)));
    assert(writes_no_manifest(intro_steps(req, id)));
    assert(writes_no_manifest(crossfade_steps(req, id)));
    assert(writes_no_manifest(loop_steps(req, id)));
    assert(writes_no_manifest(outro_steps(req, id)));
    assert(writes_no_manifest(merge_plan_steps(req, id)));
    assert(writes_no_manifest(merge_steps(req, id)));
    assert(writes_no_manifest(cleanup_steps(id)));
    assert(writes_no_manifest(done_steps()));
    lemma_plan_all_steps(req, id, not_manifest_write());
    let with_manifest = note_steps(req) + intro_steps(req, id) + crossfade_steps(req, id) + loop_steps(
        req,
        id,
    ) + outro_steps(req, id) + merge_plan_steps(req, id);
    let with_merge = with_manifest + merge_steps(req, id);
    let with_cleanup = with_merge + cleanup_steps(id);
    let merge = StepView { stage: Stage::Merge, task: TaskView::Invoke(filter_graph_merge_args(req, id)) };
    let full = plan(req, id);
    let k: int = with_manifest.len() as int + 1;
    assert(merge_steps(req, id)[1] == merge);
    assert(with_merge[k] == merge);
    assert(with_cleanup[k] == merge);
    assert(full[k] == merge);
}

/// The stages of the tool invocations of `s`, in order.
pub open spec fn invoked_stages(s: Seq<StepView>) -> Seq<Stage>
    decreases s.len(),
{
    if s.len() == 0 {
        Seq::empty()
    } else {
        invoked_stages(s.drop_last()) + (if s.last().task is Invoke {
            seq![s.last().stage]
        } else {
            Seq::empty()
        })
    }
}

proof fn lemma_invoked_concat(a: Seq<StepView>, b: Seq<StepView>)
    ensures
        invoked_stages(a + b) == invoked_stages(a) + invoked_stages(b),
    decreases b.len(),
{
    if b.len() == 0 {
        assert(a + b =~= a);
        assert(invoked_stages(a) + invoked_stages(b) =~= invoked_stages(a));
    } else {
        assert((a + b).drop_last() =~= a + b.drop_last());
        assert((a + b).last() == b.last());
        lemma_invoked_concat(a, b.drop_last());
        assert(invoked_stages(a + b) =~= invoked_stages(a) + invoked_stages(b));
    }
}

spec fn crossfade_invocations(req: LoopRequest) -> Seq<Stage> {
    if req.crossfaded() {
        seq![Stage::RenderCrossfadeHalf1, Stage::RenderCrossfadeHalf2, Stage::MixCrossfade]
    } else {
        Seq::empty()
    }
}

spec fn loop_invocations(req: LoopRequest) -> Seq<Stage> {
    if req.is_test {
        Seq::empty()
    } else {
        seq![Stage::RenderLoopSegment]
    }
}

proof fn lemma_invoked_short_pieces(req: LoopRequest, id: nat)
    ensures
        invoked_stages(note_steps(req)) == Seq::<Stage>::empty(),
        invoked_stages(intro_steps(req, id)) == seq![Stage::RenderIntro],
        invoked_stages(loop_steps(req, id)) == loop_invocations(req),
        invoked_stages(outro_steps(req, id)) == seq![Stage::RenderOutro],
        invoked_stages(merge_plan_steps(req, id)) == Seq::<Stage>::empty(),
        invoked_stages(merge_steps(req, id)) == seq![Stage::Merge],
        invoked_stages(done_steps()) == Seq::<Stage>::empty(),
{
    reveal_with_fuel(invoked_stages, 3);
    assert(invoked_stages(note_steps(req)) =~= Seq::<Stage>::empty());
    assert(invoked_stages(intro_steps(req, id)) =~= seq![Stage::RenderIntro]);
    assert(invoked_stages(loop_steps(req, id)) =~= loop_invocations(req));
    assert(invoked_stages(outro_steps(req, id)) =~= seq![Stage::RenderOutro]);
    assert(invoked_stages(merge_plan_steps(req, id)) =~= Seq::<Stage>::empty());
    assert(invoked_stages(merge_steps(req, id)) =~= seq![Stage::Merge]);
    assert(invoked_stages(done_steps()) =~= Seq::<Stage>::empty());
}

proof fn lemma_invoked_cleanup(id: nat)
    ensures
        invoked_stages(cleanup_steps(id)) == Seq::<Stage>::empty(),
{
    reveal_with_fuel(invoked_stages, 7);
    assert(invoked_stages(cleanup_steps(id)) =~= Seq::<Stage>::empty());
}

proof fn lemma_invoked_crossfade(req: LoopRequest, id: nat)
    ensures
        invoked_stages(crossfade_steps(req, id)) == crossfade_invocations(req),
{
    reveal_with_fuel(invoked_stages, 10);
    assert(invoked_stages(crossfade_steps(req, id)) =~= crossfade_invocations(req));
}

/// The invocations of the plan, piece by piece.
proof fn lemma_invoked_plan(req: LoopRequest, id: nat)
    ensures
        invoked_stages(plan(req, id)) == seq![Stage::RenderIntro] + crossfade_invocations(req)
            + loop_invocations(req) + seq![Stage::RenderOutro, Stage::Merge],
{
    let with_intro = note_steps(req) + intro_steps(req, id);
    let with_crossfade = with_intro + crossfade_steps(req, id);
    let with_loop = with_crossfade + loop_steps(req, id);
    let with_outro = with_loop + outro_steps(req, id);
    let with_manifest = with_outro + merge_plan_steps(req, id);
    let with_merge = with_manifest + merge_steps(req, id);
    let with_cleanup = with_merge + cleanup_steps(id);
    lemma_invoked_short_pieces(req, id);
    lemma_invoked_cleanup(id);
    lemma_invoked_crossfade(req, id);
    lemma_invoked_concat(note_steps(req), intro_steps(req, id));
    lemma_invoked_concat(with_intro, crossfade_steps(req, id));
    lemma_invoked_concat(with_crossfade, loop_steps(req, id));
    lemma_invoked_concat(with_loop, outro_steps(req, id));
    lemma_invoked_concat(with_outro, merge_plan_steps(req, id));
    lemma_invoked_concat(with_manifest, merge_steps(req, id));
    lemma_invoked_concat(with_merge, cleanup_steps(id));
    lemma_invoked_concat(with_cleanup, done_steps());
    assert(invoked_stages(plan(req, id)) =~= seq![Stage::RenderIntro] + crossfade_invocations(req)
        + loop_invocations(req) + seq![Stage::RenderOutro, Stage::Merge]);
}

/// Without a crossfade the tool is invoked, in this order, for the intro, the
/// loop body (full renders only), the outro and the merge, and nothing else.
pub proof fn invocations_without_crossfade(req: LoopRequest, id: nat)
    requires
        req.crossfade_ms == 0,
    ensures
        invoked_stages(plan(req, id)) == seq![Stage::RenderIntro] + (if req.is_test {
            Seq::empty()
        } else {
            seq![Stage::RenderLoopSegment]
        }) + seq![Stage::RenderOutro, Stage::Merge],
{
    lemma_invoked_plan(req, id);
    assert(seq![Stage::RenderIntro] + crossfade_invocations(req) =~= seq![Stage::RenderIntro]);
}

/// A test render invokes the tool, in this order, for the intro, the three
/// crossfade stages (with a crossfade only), the outro and the merge.
pub proof fn invocations_of_test_render(req: LoopRequest, id: nat)
    requires
        req.is_test,
    ensures
        invoked_stages(plan(req, id)) == seq![Stage::RenderIntro] + (if req.crossfaded() {
            seq![Stage::RenderCrossfadeHalf1, Stage::RenderCrossfadeHalf2, Stage::MixCrossfade]
        } else {
            Seq::empty()
        }) + seq![Stage::RenderOutro, Stage::Merge],
{
    lemma_invoked_plan(req, id);
    let middle: Seq<Stage> = if req.crossfaded() {
        seq![Stage::RenderCrossfadeHalf1, Stage::RenderCrossfadeHalf2, Stage::MixCrossfade]
    } else {
        Seq::empty()
    };
    assert(seq![Stage::RenderIntro] + middle + Seq::<Stage>::empty() =~= seq![Stage::RenderIntro]
        + middle);
}

/// A test render does not depend on the loop count: two test requests that
/// differ in it alone have the same plan, step for step.
pub proof fn test_render_ignores_loop_count(req: LoopRequest, other: LoopRequest, id: nat)
    requires
        req.is_test,
        other.is_test,
        other.start_ms == req.start_ms,
        other.end_ms == req.end_ms,
        other.crossfade_ms == req.crossfade_ms,
        other.tool_path == req.tool_path,
        other.input_path == req.input_path,
        other.output_path == req.output_path,
    ensures
        plan(other, id) == plan(req, id),
{
    assert(other.input() == req.input());
    assert(note_steps(other) == note_steps(req));
    assert(intro_steps(other, id) == intro_steps(req, id));
    assert(crossfade_steps(other, id) == crossfade_steps(req, id));
    assert(loop_steps(other, id) == loop_steps(req, id));
    assert(outro_steps(other, id) == outro_steps(req, id));
    assert(merge_plan_steps(other, id) =~= merge_plan_steps(req, id));
    assert(merge_steps(other, id) == merge_steps(req, id));
}

} // verus!
