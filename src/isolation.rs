use vstd::prelude::*;
use crate::artifacts::{
    artifact_name, lemma_artifact_name_injective, lemma_decimal_digits, lemma_name_starts_with_e,
    ArtifactKind,
};
use crate::pipeline::{
    cleanup_steps, crossfade_steps, done_steps, intro_steps, loop_steps, merge_plan_steps,
    merge_steps, note_steps, outro_steps, plan, StepView, TaskView,
};
use crate::plan::{
    codec_args_for, fade_in_args, fade_out_args, filter_graph_merge_args, intro_args, loop_args,
    manifest_entries, manifest_merge_args, merge_args, mix_args, outro_args, repetition, repetitions,
};
use crate::laws::{all_steps, lemma_plan_all_steps};
use crate::request::LoopRequest;
use crate::text::{decimal, is_digit, seconds};

verus! {

/// `path` is a temporary artifact of the run `id`.
pub open spec fn artifact_of(path: Seq<char>, id: nat) -> bool {
    exists|kind: ArtifactKind| path == #[trigger] artifact_name(id, kind)
}

/// Step `s` of a run of `req` deletes, writes, or hands to the tool an artifact
/// of the run `other`; the request's own input and output paths do not count.
pub open spec fn touches(s: StepView, req: LoopRequest, other: nat) -> bool {
    match s.task {
        TaskView::Announce(_) => false,
        TaskView::Invoke(args) => exists|i: int|
            0 <= i < args.len() && args[i] != req.input() && args[i] != req.output_path@
                && artifact_of(#[trigger] args[i], other),
        TaskView::WriteManifest(p, _) => artifact_of(p, other),
        TaskView::Remove(p) => artifact_of(p, other),
    }
}

pub open spec fn leaves_alone(req: LoopRequest, other: nat) -> spec_fn(StepView) -> bool {
    |s: StepView| !touches(s, req, other)
}

spec fn untouched(s: Seq<StepView>, req: LoopRequest, other: nat) -> bool {
    all_steps(s, leaves_alone(req, other))
}

/// An argument that names no artifact of another run: the request's paths,
/// an artifact of run `id`, or text that does not start as artifact names do.
spec fn harmless(a: Seq<char>, req: LoopRequest, id: nat) -> bool {
    a == req.input() || a == req.output_path@ || artifact_of(a, id) || (a.len() > 0 && a[0] != 'e')
}

spec fn all_harmless(args: Seq<Seq<char>>, req: LoopRequest, id: nat) -> bool {
    forall|i: int| 0 <= i < args.len() ==> harmless(#[trigger] args[i], req, id)
}

proof fn lemma_own_not_foreign(p: Seq<char>, id: nat, other: nat)
    requires
        artifact_of(p, id),
        id != other,
    ensures
        !artifact_of(p, other),
{
    if artifact_of(p, other) {
        let k1 = choose|k: ArtifactKind| p == artifact_name(id, k);
        let k2 = choose|k: ArtifactKind| p == artifact_name(other, k);
        lemma_artifact_name_injective(id, k1, other, k2);
    }
}

proof fn lemma_harmless_not_foreign(a: Seq<char>, req: LoopRequest, id: nat, other: nat)
    requires
        harmless(a, req, id),
        id != other,
    ensures
        a == req.input() || a == req.output_path@ || !artifact_of(a, other),
{
    if artifact_of(a, id) {
        lemma_own_not_foreign(a, id, other);
    } else if a != req.input() && a != req.output_path@ && artifact_of(a, other) {
        let k = choose|k: ArtifactKind| a == artifact_name(other, k);
        lemma_name_starts_with_e(other, k);
    }
}

proof fn lemma_invoke_untouched(s: StepView, req: LoopRequest, id: nat, other: nat)
    requires
        s.task is Invoke,
        all_harmless(s.task->Invoke_0, req, id),
        id != other,
    ensures
        !touches(s, req, other),
{
    let args = s.task->Invoke_0;
    assert forall|i: int| 0 <= i < args.len() && args[i] != req.input() && args[i] != req.output_path@
        implies !artifact_of(#[trigger] args[i], other) by {
        lemma_harmless_not_foreign(args[i], req, id, other);
    }
}

proof fn lemma_own_name(id: nat, kind: ArtifactKind)
    ensures
        artifact_of(artifact_name(id, kind), id),
{
}

proof fn lemma_seconds_leading_digit(ms: nat)
    ensures
        seconds(ms).len() > 0,
        seconds(ms)[0] != 'e',
{
    lemma_decimal_digits(ms / 1000);
    assert(is_digit(decimal(ms / 1000)[0]));
    assert(seconds(ms)[0] == decimal(ms / 1000)[0]);
}

/// The fixed arguments never start with `e`.
proof fn lemma_literals()
    ensures
        "-y"@.len() > 0 && "-y"@[0] != 'e',
        "-i"@.len() > 0 && "-i"@[0] != 'e',
        "-t"@.len() > 0 && "-t"@[0] != 'e',
        "-ss"@.len() > 0 && "-ss"@[0] != 'e',
        "-af"@.len() > 0 && "-af"@[0] != 'e',
        "-f"@.len() > 0 && "-f"@[0] != 'e',
        "-c"@.len() > 0 && "-c"@[0] != 'e',
        "-q:a"@.len() > 0 && "-q:a"@[0] != 'e',
        "-safe"@.len() > 0 && "-safe"@[0] != 'e',
        "-filter_complex"@.len() > 0 && "-filter_complex"@[0] != 'e',
        "0"@.len() > 0 && "0"@[0] != 'e',
        "2"@.len() > 0 && "2"@[0] != 'e',
        "copy"@.len() > 0 && "copy"@[0] != 'e',
        "concat"@.len() > 0 && "concat"@[0] != 'e',
        "concat=n=2:v=0:a=1"@.len() > 0 && "concat=n=2:v=0:a=1"@[0] != 'e',
        "concat=n=3:v=0:a=1"@.len() > 0 && "concat=n=3:v=0:a=1"@[0] != 'e',
        "amix=inputs=2:duration=first:dropout_transition=0:normalize=0"@.len() > 0
            && "amix=inputs=2:duration=first:dropout_transition=0:normalize=0"@[0] != 'e',
        "afade=t=out:st="@.len() > 0 && "afade=t=out:st="@[0] != 'e',
        "afade=t=in:st="@.len() > 0 && "afade=t=in:st="@[0] != 'e',
{
    reveal_strlit("-y");
    reveal_strlit("-i");
    reveal_strlit("-t");
    reveal_strlit("-ss");
    reveal_strlit("-af");
    reveal_strlit("-f");
    reveal_strlit("-c");
    reveal_strlit("-q:a");
    reveal_strlit("-safe");
    reveal_strlit("-filter_complex");
    reveal_strlit("0");
    reveal_strlit("2");
    reveal_strlit("copy");
    reveal_strlit("concat");
    reveal_strlit("concat=n=2:v=0:a=1");
    reveal_strlit("concat=n=3:v=0:a=1");
    reveal_strlit("amix=inputs=2:duration=first:dropout_transition=0:normalize=0");
    reveal_strlit("afade=t=out:st=");
    reveal_strlit("afade=t=in:st=");
}

proof fn lemma_own_names(id: nat)
    ensures
        artifact_of(artifact_name(id, ArtifactKind::Intro), id),
        artifact_of(artifact_name(id, ArtifactKind::Outro), id),
        artifact_of(artifact_name(id, ArtifactKind::LoopSegment), id),
        artifact_of(artifact_name(id, ArtifactKind::CrossfadeOut), id),
        artifact_of(artifact_name(id, ArtifactKind::CrossfadeIn), id),
        artifact_of(artifact_name(id, ArtifactKind::Crossfade), id),
        artifact_of(artifact_name(id, ArtifactKind::Manifest), id),
{
    lemma_own_name(id, ArtifactKind::Intro);
    lemma_own_name(id, ArtifactKind::Outro);
    lemma_own_name(id, ArtifactKind::LoopSegment);
    lemma_own_name(id, ArtifactKind::CrossfadeOut);
    lemma_own_name(id, ArtifactKind::CrossfadeIn);
    lemma_own_name(id, ArtifactKind::Crossfade);
    lemma_own_name(id, ArtifactKind::Manifest);
}

proof fn lemma_intro_args_harmless(req: LoopRequest, id: nat)
    ensures
        all_harmless(intro_args(req, id), req, id),
{
    lemma_literals();
    lemma_own_names(id);
    lemma_seconds_leading_digit((req.end_ms - req.crossfade_ms) as nat);
}

proof fn lemma_fade_out_args_harmless(req: LoopRequest, id: nat)
    ensures
        all_harmless(fade_out_args(req, id), req, id),
{
    lemma_literals();
    lemma_own_names(id);
    lemma_seconds_leading_digit((req.end_ms - req.crossfade_ms) as nat);
    lemma_seconds_leading_digit(req.crossfade_ms as nat);
    let filter = "afade=t=out:st="@ + seconds((req.end_ms - req.crossfade_ms) as nat) + ":d="@
        + seconds(req.crossfade_ms as nat);
    assert(filter[0] == "afade=t=out:st="@[0]);
}

proof fn lemma_fade_in_args_harmless(req: LoopRequest, id: nat)
    ensures
        all_harmless(fade_in_args(req, id), req, id),
{
    lemma_literals();
    lemma_own_names(id);
    lemma_seconds_leading_digit((req.start_ms - req.crossfade_ms) as nat);
    lemma_seconds_leading_digit(req.crossfade_ms as nat);
    let filter = "afade=t=in:st="@ + seconds((req.start_ms - req.crossfade_ms) as nat) + ":d="@
        + seconds(req.crossfade_ms as nat);
    assert(filter[0] == "afade=t=in:st="@[0]);
}

proof fn lemma_mix_args_harmless(req: LoopRequest, id: nat)
    ensures
        all_harmless(mix_args(id), req, id),
{
    lemma_literals();
    lemma_own_names(id);
}

proof fn lemma_loop_args_harmless(req: LoopRequest, id: nat)
    ensures
        all_harmless(loop_args(req, id), req, id),
{
    lemma_literals();
    lemma_own_names(id);
    lemma_seconds_leading_digit(req.start_ms as nat);
    lemma_seconds_leading_digit((req.end_ms - req.start_ms - req.crossfade_ms) as nat);
}

proof fn lemma_outro_args_harmless(req: LoopRequest, id: nat)
    ensures
        all_harmless(outro_args(req, id), req, id),
{
    lemma_literals();
    lemma_own_names(id);
    lemma_seconds_leading_digit(req.start_ms as nat);
}

proof fn lemma_merge_args_harmless(req: LoopRequest, id: nat)
    ensures
        all_harmless(merge_args(req, id), req, id),
{
    lemma_literals();
    lemma_own_names(id);
    if req.is_test {
        assert(all_harmless(filter_graph_merge_args(req, id), req, id));
    } else {
        let codec = codec_args_for(req.output_path@);
        assert(all_harmless(codec, req, id));
        let head = seq!["-y"@, "-f"@, "concat"@, "-safe"@, "0"@, "-i"@, artifact_name(id, ArtifactKind::Manifest)];
        let m = manifest_merge_args(req, id);
        assert forall|i: int| 0 <= i < m.len() implies harmless(#[trigger] m[i], req, id) by {
            if i < 7 {
                assert(m[i] == head[i]);
            } else if i < 9 {
                assert(m[i] == codec[i - 7]);
            }
        }
    }
}

proof fn lemma_pieces_untouched(req: LoopRequest, id: nat, other: nat)
    requires
        id != other,
    ensures
        untouched(note_steps(req), req, other),
        untouched(intro_steps(req, id), req, other),
        untouched(crossfade_steps(req, id), req, other),
        untouched(loop_steps(req, id), req, other),
        untouched(outro_steps(req, id), req, other),
        untouched(merge_plan_steps(req, id), req, other),
        untouched(merge_steps(req, id), req, other),
        untouched(cleanup_steps(id), req, other),
        untouched(done_steps(), req, other),
{
    lemma_intro_args_harmless(req, id);
    lemma_fade_out_args_harmless(req, id);
    lemma_fade_in_args_harmless(req, id);
    lemma_mix_args_harmless(req, id);
    lemma_loop_args_harmless(req, id);
    lemma_outro_args_harmless(req, id);
    lemma_merge_args_harmless(req, id);
    lemma_own_names(id);
    lemma_own_not_foreign(artifact_name(id, ArtifactKind::Intro), id, other);
    lemma_own_not_foreign(artifact_name(id, ArtifactKind::Outro), id, other);
    lemma_own_not_foreign(artifact_name(id, ArtifactKind::LoopSegment), id, other);
    lemma_own_not_foreign(artifact_name(id, ArtifactKind::CrossfadeOut), id, other);
    lemma_own_not_foreign(artifact_name(id, ArtifactKind::CrossfadeIn), id, other);
    lemma_own_not_foreign(artifact_name(id, ArtifactKind::Crossfade), id, other);
    lemma_own_not_foreign(artifact_name(id, ArtifactKind::Manifest), id, other);
    let steps = intro_steps(req, id);
    lemma_invoke_untouched(steps[1], req, id, other);
    let steps = crossfade_steps(req, id);
    if steps.len() > 0 {
        lemma_invoke_untouched(steps[1], req, id, other);
        lemma_invoke_untouched(steps[3], req, id, other);
        lemma_invoke_untouched(steps[5], req, id, other);
    }
    let steps = loop_steps(req, id);
    if steps.len() > 0 {
        lemma_invoke_untouched(steps[1], req, id, other);
    }
    let steps = outro_steps(req, id);
    lemma_invoke_untouched(steps[1], req, id, other);
    let steps = merge_steps(req, id);
    lemma_invoke_untouched(steps[1], req, id, other);
}

proof fn lemma_repetitions_own(n: nat, crossfaded: bool, id: nat)
    ensures
        forall|i: int|
            0 <= i < repetitions(n, crossfaded, id).len() ==> artifact_of(
                #[trigger] repetitions(n, crossfaded, id)[i],
                id,
            ),
    decreases n,
{
    lemma_own_name(id, ArtifactKind::Crossfade);
    lemma_own_name(id, ArtifactKind::LoopSegment);
    if n > 0 {
        lemma_repetitions_own((n - 1) as nat, crossfaded, id);
        let a = repetitions((n - 1) as nat, crossfaded, id);
        let b = repetition(crossfaded, id);
        assert(repetitions(n, crossfaded, id) == a + b);
        assert forall|i: int| 0 <= i < (a + b).len() implies artifact_of(#[trigger] (a + b)[i], id) by {
            if i < a.len() {
                assert((a + b)[i] == a[i]);
            } else {
                assert((a + b)[i] == b[i - a.len()]);
            }
        }
    }
}

/// Runs with distinct identifiers keep to their own artifacts: no step of the
/// run `id` deletes, writes, or hands to the tool an artifact of the run
/// `other` (the request's input and output paths aside), and its manifest
/// lists none.
pub proof fn concurrent_runs_are_isolated(req: LoopRequest, id: nat, other: nat)
    requires
        id != other,
    ensures
        forall|i: int| 0 <= i < plan(req, id).len() ==> !touches(#[trigger] plan(req, id)[i], req, other),
        forall|i: int|
            0 <= i < manifest_entries(req, id).len() ==> !artifact_of(
                #[trigger] manifest_entries(req, id)[i],
                other,
            ),
{
    lemma_pieces_untouched(req, id, other);
    lemma_plan_all_steps(req, id, leaves_alone(req, other));
    assert forall|i: int| 0 <= i < plan(req, id).len() implies !touches(#[trigger] plan(req, id)[i], req, other) by {
        assert(leaves_alone(req, other)(plan(req, id)[i]));
    }

    let n = req.loop_count as nat;
    let cf = req.crossfaded();
    let reps = repetitions(n, cf, id);
    let tail: Seq<Seq<char>> = if cf {
        seq![artifact_name(id, ArtifactKind::Crossfade)]
    } else {
        Seq::empty()
    };
    let entries = manifest_entries(req, id);
    let front = seq![artifact_name(id, ArtifactKind::Intro)] + reps;
    let back = tail + seq![artifact_name(id, ArtifactKind::Outro)];
    assert(entries =~= front + back);
    lemma_repetitions_own(n, cf, id);
    lemma_own_name(id, ArtifactKind::Intro);
    lemma_own_name(id, ArtifactKind::Outro);
    lemma_own_name(id, ArtifactKind::Crossfade);
    assert forall|i: int| 0 <= i < entries.len() implies !artifact_of(#[trigger] entries[i], other) by {
        if i == 0 {
            assert(entries[i] == artifact_name(id, ArtifactKind::Intro));
        } else if i < front.len() {
            assert(entries[i] == reps[i - 1]);
        } else {
            assert(entries[i] == back[i - front.len()]);
        }
        lemma_own_not_foreign(entries[i], id, other);
    }
}

} // verus!
