use vstd::prelude::*;
use crate::pipeline::{plan, plan_steps, steps_view, Step, StepView, Task, TaskView};
use crate::request::{valid_request, LoopRequest};

verus! {

/// Where a run stands.
pub enum RunState {
    /// The step at this index is the next to perform; past the last step the run finishes.
    Running(usize),
    /// A step failed for this reason, which is yet to be reported.
    Failed(String),
    /// Completion was signalled; nothing more happens.
    Closed,
}

/// What the caller does next for a run.
pub enum Action {
    /// Perform the step at this index and report how it went.
    Perform(usize),
    /// Publish the failure reason, then the completion signal.
    Abort(String),
    /// Publish the completion signal.
    Finish,
}

pub enum Phase {
    Running(nat),
    Failed(Seq<char>),
    Closed,
}

pub enum Act {
    Perform(nat),
    Abort(Seq<char>),
    Finish,
}

impl RunState {
    pub open spec fn phase(&self) -> Phase {
        match self {
            RunState::Running(i) => Phase::Running(*i as nat),
            RunState::Failed(e) => Phase::Failed(e@),
            RunState::Closed => Phase::Closed,
        }
    }
}

impl Action {
    pub open spec fn act(&self) -> Act {
        match self {
            Action::Perform(i) => Act::Perform(*i as nat),
            Action::Abort(e) => Act::Abort(e@),
            Action::Finish => Act::Finish,
        }
    }
}

/// A failed tool run or manifest write stops the run; an announcement or a
/// deletion does not.
pub open spec fn can_fail(t: TaskView) -> bool {
    t is Invoke || t is WriteManifest
}

/// What the caller is asked to do in phase `p`; nothing once the run is closed.
pub open spec fn next_act(plan: Seq<StepView>, p: Phase) -> Option<Act> {
    match p {
        Phase::Running(i) => if i < plan.len() {
            Some(Act::Perform(i))
        } else {
            Some(Act::Finish)
        },
        Phase::Failed(e) => Some(Act::Abort(e)),
        Phase::Closed => None,
    }
}

/// The phase after the caller reports `outcome` for what it was asked to do.
pub open spec fn after(plan: Seq<StepView>, p: Phase, outcome: Result<(), Seq<char>>) -> Phase {
    match p {
        Phase::Running(i) => if i < plan.len() {
            if outcome is Err && can_fail(plan[i as int].task) {
                Phase::Failed(outcome->Err_0)
            } else {
                Phase::Running(i + 1)
            }
        } else {
            Phase::Closed
        },
        Phase::Failed(_) => Phase::Closed,
        Phase::Closed => Phase::Closed,
    }
}

/// The actions asked of the caller from phase `p` on, when it reports `outcomes` in turn.
pub open spec fn trace(plan: Seq<StepView>, p: Phase, outcomes: Seq<Result<(), Seq<char>>>) -> Seq<Act>
    decreases outcomes.len(),
{
    match next_act(plan, p) {
        None => Seq::empty(),
        Some(a) => if outcomes.len() == 0 {
            seq![a]
        } else {
            seq![a] + trace(plan, after(plan, p, outcomes[0]), outcomes.drop_first())
        },
    }
}

/// The state of one run of the pipeline.
pub struct PipelineRun {
    /// Unique among the runs of this process; every artifact name carries it.
    pub run_id: u64,
    pub steps: Vec<Step>,
    pub state: RunState,
}

impl PipelineRun {
    pub open spec fn plan_view(&self) -> Seq<StepView> {
        steps_view(self.steps@)
    }

    pub open spec fn wf(&self) -> bool {
        match self.state {
            RunState::Running(i) => i <= self.steps.len(),
            _ => true,
        }
    }

    /// Starts the run of a valid request under a fresh identifier.
    pub fn start(req: &LoopRequest, run_id: u64) -> (r: PipelineRun)
        requires
            valid_request(*req),
        ensures
            r.wf(),
            r.run_id == run_id,
            r.plan_view() == plan(*req, run_id as nat),
            r.state.phase() == Phase::Running(0),
    {
        PipelineRun { run_id, steps: plan_steps(req, run_id), state: RunState::Running(0) }
    }

    /// What the caller does next; `None` once the run is closed.
    pub fn next_action(&self) -> (r: Option<Action>)
        requires
            self.wf(),
        ensures
            r.is_some() == next_act(self.plan_view(), self.state.phase()).is_some(),
            r.is_some() ==> next_act(self.plan_view(), self.state.phase()) == Some(r->Some_0.act()),
    {
        match &self.state {
            RunState::Running(i) => if *i < self.steps.len() {
                Some(Action::Perform(*i))
            } else {
                Some(Action::Finish)
            },
            RunState::Failed(e) => Some(Action::Abort(e.clone())),
            RunState::Closed => None,
        }
    }

    /// Records how the last action went.
    pub fn record(&mut self, outcome: Result<(), String>)
        requires
            old(self).wf(),
        ensures
            final(self).wf(),
            final(self).run_id == old(self).run_id,
            final(self).steps == old(self).steps,
            final(self).state.phase() == after(
                old(self).plan_view(),
                old(self).state.phase(),
                match outcome {
                    Ok(_) => Ok(()),
                    Err(e) => Err(e@),
                },
            ),
    {
        let next = match &self.state {
            RunState::Running(i) => if *i < self.steps.len() {
                let fails = match &self.steps[*i].task {
                    Task::Invoke(_) => true,
                    Task::WriteManifest { .. } => true,
                    _ => false,
                };
                proof {
                    assert(self.plan_view()[*i as int] == self.steps@[*i as int]@);
                }
                match outcome {
                    Err(e) => if fails {
                        RunState::Failed(e)
                    } else {
                        RunState::Running(*i + 1)
                    },
                    Ok(_) => RunState::Running(*i + 1),
                }
            } else {
                RunState::Closed
            },
            _ => RunState::Closed,
        };
        self.state = next;
    }
}

/// Once a step that can fail does fail, the caller is asked for exactly one
/// more thing, to abort with that step's reason (which signals completion),
/// and for nothing after that: no later step is performed, whatever is reported.
pub proof fn failed_step_aborts_run(
    plan: Seq<StepView>,
    i: nat,
    reason: Seq<char>,
    later: Seq<Result<(), Seq<char>>>,
)
    requires
        i < plan.len(),
        can_fail(plan[i as int].task),
    ensures
        trace(plan, Phase::Running(i), seq![Err(reason)] + later) == seq![Act::Perform(i), Act::Abort(reason)],
{
    let outcomes = seq![Err(reason)] + later;
    assert(outcomes[0] == Err::<(), Seq<char>>(reason));
    assert(outcomes.drop_first() =~= later);
    let failed = Phase::Failed(reason);
    assert(after(plan, Phase::Running(i), outcomes[0]) == failed);
    if later.len() > 0 {
        assert(trace(plan, Phase::Closed, later.drop_first()) == Seq::<Act>::empty());
        assert(trace(plan, failed, later) =~= seq![Act::Abort(reason)]);
    }
    assert(trace(plan, failed, later) =~= seq![Act::Abort(reason)]);
}

/// The steps from `i` up to `n`, each performed once, in order.
pub open spec fn performs(i: nat, n: nat) -> Seq<Act>
    decreases n - i,
{
    if i >= n {
        Seq::empty()
    } else {
        seq![Act::Perform(i)] + performs(i + 1, n)
    }
}

/// When every remaining step succeeds, each is performed once, in order, and
/// then the run finishes: completion is signalled exactly once and nothing
/// is aborted.
pub proof fn successful_run_finishes_once(plan: Seq<StepView>, i: nat, outcomes: Seq<Result<(), Seq<char>>>)
    requires
        i <= plan.len(),
        outcomes.len() > plan.len() - i,
        forall|k: int| 0 <= k < outcomes.len() ==> #[trigger] outcomes[k] is Ok,
    ensures
        trace(plan, Phase::Running(i), outcomes) == performs(i, plan.len()) + seq![Act::Finish],
    decreases plan.len() - i,
{
    let rest = outcomes.drop_first();
    if i == plan.len() {
        assert(trace(plan, Phase::Closed, rest) == Seq::<Act>::empty());
        assert(performs(i, plan.len()) == Seq::<Act>::empty());
        assert(trace(plan, Phase::Running(i), outcomes) =~= seq![Act::Finish]);
        assert(performs(i, plan.len()) + seq![Act::Finish] =~= seq![Act::Finish]);
    } else {
        assert(outcomes[0] is Ok);
        assert(after(plan, Phase::Running(i), outcomes[0]) == Phase::Running(i + 1));
        assert forall|k: int| 0 <= k < rest.len() implies #[trigger] rest[k] is Ok by {
            assert(rest[k] == outcomes[k + 1]);
        }
        successful_run_finishes_once(plan, i + 1, rest);
        assert(seq![Act::Perform(i)] + (performs(i + 1, plan.len()) + seq![Act::Finish]) =~= (seq![
            Act::Perform(i),
        ] + performs(i + 1, plan.len())) + seq![Act::Finish]);
    }
}

} // verus!
