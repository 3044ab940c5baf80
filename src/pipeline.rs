use vstd::prelude::*;
use vstd::string::*;
use crate::artifacts::{artifact_name, ArtifactKind, ArtifactNames};
use crate::plan::{
    fade_in_arguments, fade_in_args, fade_out_arguments, fade_out_args, intro_args, intro_arguments,
    loop_args, loop_arguments, manifest_contents, manifest_entries, manifest_entry_list, manifest_text,
    merge_args, merge_arguments, mix_args, mix_arguments, outro_args, outro_arguments, strings_view,
};
use crate::request::{valid_request, LoopRequest};

verus! {

/// The stages of a run, in pipeline order.
#[derive(PartialEq, Eq, Structural, Debug, Clone, Copy)]
pub enum Stage {
    RenderIntro,
    RenderCrossfadeHalf1,
    RenderCrossfadeHalf2,
    MixCrossfade,
    CleanupCrossfadeHalves,
    RenderLoopSegment,
    RenderOutro,
    BuildMergePlan,
    Merge,
    CleanupSegments,
    Done,
}

/// One unit of work of a run.
pub enum Task {
    /// Publish a milestone to the observer.
    Announce(String),
    /// Run the external tool with these arguments.
    Invoke(Vec<String>),
    /// Write the concatenation manifest.
    WriteManifest { path: String, contents: String },
    /// Delete a temporary file; a missing file is no failure.
    Remove(String),
}

pub enum TaskView {
    Announce(Seq<char>),
    Invoke(Seq<Seq<char>>),
    WriteManifest(Seq<char>, Seq<char>),
    Remove(Seq<char>),
}

impl View for Task {
    type V = TaskView;

    open spec fn view(&self) -> TaskView {
        match self {
            Task::Announce(t) => TaskView::Announce(t@),
            Task::Invoke(a) => TaskView::Invoke(strings_view(a@)),
            Task::WriteManifest { path, contents } => TaskView::WriteManifest(path@, contents@),
            Task::Remove(p) => TaskView::Remove(p@),
        }
    }
}

/// A task and the stage it belongs to.
pub struct Step {
    pub stage: Stage,
    pub task: Task,
}

pub struct StepView {
    pub stage: Stage,
    pub task: TaskView,
}

impl View for Step {
    type V = StepView;

    open spec fn view(&self) -> StepView {
        StepView { stage: self.stage, task: self.task@ }
    }
}

pub open spec fn steps_view(v: Seq<Step>) -> Seq<StepView> {
    v.map_values(|s: Step| s@)
}

/// The stage of each step, in order.
pub open spec fn stages(plan: Seq<StepView>) -> Seq<Stage> {
    plan.map_values(|s: StepView| s.stage)
}

pub open spec fn announce(stage: Stage, text: Seq<char>) -> StepView {
    StepView { stage, task: TaskView::Announce(text) }
}

pub open spec fn invoke(stage: Stage, args: Seq<Seq<char>>) -> StepView {
    StepView { stage, task: TaskView::Invoke(args) }
}

pub open spec fn remove(stage: Stage, id: nat, kind: ArtifactKind) -> StepView {
    StepView { stage, task: TaskView::Remove(artifact_name(id, kind)) }
}

/// Notes on what the run leaves out.
pub open spec fn note_steps(req: LoopRequest) -> Seq<StepView> {
    (if req.crossfaded() {
        Seq::empty()
    } else {
        seq![announce(Stage::RenderIntro, "Crossfade duration is 0, skipping crossfade..."@)]
    }) + (if req.is_test {
        seq![announce(Stage::RenderIntro, "Test run, skipping loop segment..."@)]
    } else {
        Seq::empty()
    })
}

pub open spec fn intro_steps(req: LoopRequest, id: nat) -> Seq<StepView> {
    seq![
        announce(Stage::RenderIntro, "Rendering intro..."@),
        invoke(Stage::RenderIntro, intro_args(req, id)),
    ]
}

pub open spec fn crossfade_steps(req: LoopRequest, id: nat) -> Seq<StepView> {
    if req.crossfaded() {
        seq![
            announce(Stage::RenderCrossfadeHalf1, "Rendering crossfade sample 1..."@),
            invoke(Stage::RenderCrossfadeHalf1, fade_out_args(req, id)),
            announce(Stage::RenderCrossfadeHalf2, "Rendering crossfade sample 2..."@),
            invoke(Stage::RenderCrossfadeHalf2, fade_in_args(req, id)),
            announce(Stage::MixCrossfade, "Rendering crossfade..."@),
            invoke(Stage::MixCrossfade, mix_args(id)),
            announce(Stage::CleanupCrossfadeHalves, "Deleting crossfade samples..."@),
            remove(Stage::CleanupCrossfadeHalves, id, ArtifactKind::CrossfadeOut),
            remove(Stage::CleanupCrossfadeHalves, id, ArtifactKind::CrossfadeIn),
        ]
    } else {
        Seq::empty()
    }
}

pub open spec fn loop_steps(req: LoopRequest, id: nat) -> Seq<StepView> {
    if req.is_test {
        Seq::empty()
    } else {
        seq![
            announce(Stage::RenderLoopSegment, "Rendering loop segment..."@),
            invoke(Stage::RenderLoopSegment, loop_args(req, id)),
        ]
    }
}

pub open spec fn outro_steps(req: LoopRequest, id: nat) -> Seq<StepView> {
    seq![
        announce(Stage::RenderOutro, "Rendering outro..."@),
        invoke(Stage::RenderOutro, outro_args(req, id)),
    ]
}

/// A full render writes its manifest; a test render needs none.
pub open spec fn merge_plan_steps(req: LoopRequest, id: nat) -> Seq<StepView> {
    if req.is_test {
        Seq::empty()
    } else {
        seq![
            StepView {
                stage: Stage::BuildMergePlan,
                task: TaskView::WriteManifest(
                    artifact_name(id, ArtifactKind::Manifest),
                    manifest_text(manifest_entries(req, id)),
                ),
            },
        ]
    }
}

pub open spec fn merge_steps(req: LoopRequest, id: nat) -> Seq<StepView> {
    seq![
        announce(Stage::Merge, "Merging segments..."@),
        invoke(Stage::Merge, merge_args(req, id)),
    ]
}

/// Every artifact is deleted, also those that this run did not create.
pub open spec fn cleanup_steps(id: nat) -> Seq<StepView> {
    seq![
        announce(Stage::CleanupSegments, "Deleting segments..."@),
        remove(Stage::CleanupSegments, id, ArtifactKind::Manifest),
        remove(Stage::CleanupSegments, id, ArtifactKind::Intro),
        remove(Stage::CleanupSegments, id, ArtifactKind::Outro),
        remove(Stage::CleanupSegments, id, ArtifactKind::LoopSegment),
        remove(Stage::CleanupSegments, id, ArtifactKind::Crossfade),
    ]
}

pub open spec fn done_steps() -> Seq<StepView> {
    seq![announce(Stage::Done, "Done!"@)]
}

/// Every step of the run of `req` with identifier `id`, in order.
pub open spec fn plan(req: LoopRequest, id: nat) -> Seq<StepView> {
    note_steps(req) + intro_steps(req, id) + crossfade_steps(req, id) + loop_steps(req, id)
        + outro_steps(req, id) + merge_plan_steps(req, id) + merge_steps(req, id) + cleanup_steps(id)
        + done_steps()
}

fn push_step(v: &mut Vec<Step>, s: Step)
    ensures
        steps_view(final(v)@) == steps_view(old(v)@).push(s@),
{
    let ghost t = s@;
    v.push(s);
    assert(steps_view(v@) =~= steps_view(old(v)@).push(t));
}

fn announce_step(stage: Stage, text: &str) -> (r: Step)
    ensures
        r@ == announce(stage, text@),
{
    Step { stage, task: Task::Announce(String::from_str(text)) }
}

fn invoke_step(stage: Stage, args: Vec<String>) -> (r: Step)
    ensures
        r@ == invoke(stage, strings_view(args@)),
{
    Step { stage, task: Task::Invoke(args) }
}

fn remove_step(stage: Stage, name: &String) -> (r: Step)
    ensures
        r@ == (StepView { stage, task: TaskView::Remove(name@) }),
{
    Step { stage, task: Task::Remove(name.clone()) }
}

fn extend_steps(v: &mut Vec<Step>, w: Vec<Step>)
    ensures
        steps_view(final(v)@) == steps_view(old(v)@) + steps_view(w@),
{
    let ghost t = steps_view(w@);
    let mut w = w;
    v.append(&mut w);
    assert(steps_view(v@) =~= steps_view(old(v)@) + t);
}

fn note_step_list(req: &LoopRequest) -> (r: Vec<Step>)
    ensures
        steps_view(r@) == note_steps(*req),
{
    let mut v: Vec<Step> = Vec::new();
    if req.crossfade_ms == 0 {
        push_step(&mut v, announce_step(Stage::RenderIntro, "Crossfade duration is 0, skipping crossfade..."));
    }
    if req.is_test {
        push_step(&mut v, announce_step(Stage::RenderIntro, "Test run, skipping loop segment..."));
    }
    assert(steps_view(v@) =~= note_steps(*req));
    v
}

fn intro_step_list(req: &LoopRequest, names: &ArtifactNames, run_id: u64) -> (r: Vec<Step>)
    requires
        valid_request(*req),
        names.of_run(run_id as nat),
    ensures
        steps_view(r@) == intro_steps(*req, run_id as nat),
{
    let mut v: Vec<Step> = Vec::new();
    push_step(&mut v, announce_step(Stage::RenderIntro, "Rendering intro..."));
    push_step(&mut v, invoke_step(Stage::RenderIntro, intro_arguments(req, names, run_id)));
    assert(steps_view(v@) =~= intro_steps(*req, run_id as nat));
    v
}

fn crossfade_step_list(req: &LoopRequest, names: &ArtifactNames, run_id: u64) -> (r: Vec<Step>)
    requires
        valid_request(*req),
        names.of_run(run_id as nat),
    ensures
        steps_view(r@) == crossfade_steps(*req, run_id as nat),
{
    let mut v: Vec<Step> = Vec::new();
    if req.crossfade_ms > 0 {
        push_step(&mut v, announce_step(Stage::RenderCrossfadeHalf1, "Rendering crossfade sample 1..."));
        push_step(&mut v, invoke_step(Stage::RenderCrossfadeHalf1, fade_out_arguments(req, names, run_id)));
        push_step(&mut v, announce_step(Stage::RenderCrossfadeHalf2, "Rendering crossfade sample 2..."));
        push_step(&mut v, invoke_step(Stage::RenderCrossfadeHalf2, fade_in_arguments(req, names, run_id)));
        push_step(&mut v, announce_step(Stage::MixCrossfade, "Rendering crossfade..."));
        push_step(&mut v, invoke_step(Stage::MixCrossfade, mix_arguments(names, run_id)));
        push_step(&mut v, announce_step(Stage::CleanupCrossfadeHalves, "Deleting crossfade samples..."));
        push_step(&mut v, remove_step(Stage::CleanupCrossfadeHalves, &names.crossfade_out));
        push_step(&mut v, remove_step(Stage::CleanupCrossfadeHalves, &names.crossfade_in));
    }
    assert(steps_view(v@) =~= crossfade_steps(*req, run_id as nat));
    v
}

fn loop_step_list(req: &LoopRequest, names: &ArtifactNames, run_id: u64) -> (r: Vec<Step>)
    requires
        valid_request(*req),
        names.of_run(run_id as nat),
    ensures
        steps_view(r@) == loop_steps(*req, run_id as nat),
{
    let mut v: Vec<Step> = Vec::new();
    if !req.is_test {
        push_step(&mut v, announce_step(Stage::RenderLoopSegment, "Rendering loop segment..."));
        push_step(&mut v, invoke_step(Stage::RenderLoopSegment, loop_arguments(req, names, run_id)));
    }
    assert(steps_view(v@) =~= loop_steps(*req, run_id as nat));
    v
}

fn outro_step_list(req: &LoopRequest, names: &ArtifactNames, run_id: u64) -> (r: Vec<Step>)
    requires
        valid_request(*req),
        names.of_run(run_id as nat),
    ensures
        steps_view(r@) == outro_steps(*req, run_id as nat),
{
    let mut v: Vec<Step> = Vec::new();
    push_step(&mut v, announce_step(Stage::RenderOutro, "Rendering outro..."));
    push_step(&mut v, invoke_step(Stage::RenderOutro, outro_arguments(req, names, run_id)));
    assert(steps_view(v@) =~= outro_steps(*req, run_id as nat));
    v
}

fn merge_plan_step_list(req: &LoopRequest, names: &ArtifactNames, run_id: u64) -> (r: Vec<Step>)
    requires
        names.of_run(run_id as nat),
    ensures
        steps_view(r@) == merge_plan_steps(*req, run_id as nat),
{
    let mut v: Vec<Step> = Vec::new();
    if !req.is_test {
        let entries = manifest_entry_list(req, names, run_id);
        let contents = manifest_contents(&entries);
        push_step(
            &mut v,
            Step {
                stage: Stage::BuildMergePlan,
                task: Task::WriteManifest { path: names.manifest.clone(), contents },
            },
        );
    }
    assert(steps_view(v@) =~= merge_plan_steps(*req, run_id as nat));
    v
}

fn merge_step_list(req: &LoopRequest, names: &ArtifactNames, run_id: u64) -> (r: Vec<Step>)
    requires
        names.of_run(run_id as nat),
    ensures
        steps_view(r@) == merge_steps(*req, run_id as nat),
{
    let mut v: Vec<Step> = Vec::new();
    push_step(&mut v, announce_step(Stage::Merge, "Merging segments..."));
    push_step(&mut v, invoke_step(Stage::Merge, merge_arguments(req, names, run_id)));
    assert(steps_view(v@) =~= merge_steps(*req, run_id as nat));
    v
}

fn cleanup_step_list(names: &ArtifactNames, run_id: u64) -> (r: Vec<Step>)
    requires
        names.of_run(run_id as nat),
    ensures
        steps_view(r@) == cleanup_steps(run_id as nat),
{
    let mut v: Vec<Step> = Vec::new();
    push_step(&mut v, announce_step(Stage::CleanupSegments, "Deleting segments..."));
    push_step(&mut v, remove_step(Stage::CleanupSegments, &names.manifest));
    push_step(&mut v, remove_step(Stage::CleanupSegments, &names.intro));
    push_step(&mut v, remove_step(Stage::CleanupSegments, &names.outro));
    push_step(&mut v, remove_step(Stage::CleanupSegments, &names.loop_segment));
    push_step(&mut v, remove_step(Stage::CleanupSegments, &names.crossfade));
    assert(steps_view(v@) =~= cleanup_steps(run_id as nat));
    v
}

/// Builds every step of the run of a valid request.
pub fn plan_steps(req: &LoopRequest, run_id: u64) -> (r: Vec<Step>)
    requires
        valid_request(*req),
    ensures
        steps_view(r@) == plan(*req, run_id as nat),
{
    let names = ArtifactNames::for_run(run_id);
    let mut v = note_step_list(req);
    extend_steps(&mut v, intro_step_list(req, &names, run_id));
    extend_steps(&mut v, crossfade_step_list(req, &names, run_id));
    extend_steps(&mut v, loop_step_list(req, &names, run_id));
    extend_steps(&mut v, outro_step_list(req, &names, run_id));
    extend_steps(&mut v, merge_plan_step_list(req, &names, run_id));
    extend_steps(&mut v, merge_step_list(req, &names, run_id));
    extend_steps(&mut v, cleanup_step_list(&names, run_id));
    let mut last: Vec<Step> = Vec::new();
    push_step(&mut last, announce_step(Stage::Done, "Done!"));
    assert(steps_view(last@) =~= done_steps());
    extend_steps(&mut v, last);
    v
}

} // verus!
