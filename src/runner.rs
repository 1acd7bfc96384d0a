use vstd::prelude::*;

use crate::error::BuildError;
use crate::pipeline::{Plan, Stage};

verus! {

/// How one external invocation ended.
pub enum StageOutcome {
    /// The program ran and exited successfully.
    Succeeded,
    /// The program could not be started, for the reason given.
    NotStarted { reason: String },
    /// The program ran and exited unsuccessfully.
    Failed,
}

/// What happens after a stage has ended.
pub enum NextStep {
    /// Run the stage at this index next.
    Run(usize),
    /// Every stage has succeeded.
    Done,
}

/// Each argument preceded by a space.
pub open spec fn spaced(args: Seq<Seq<char>>) -> Seq<char>
    decreases args.len(),
{
    if args.len() == 0 {
        Seq::empty()
    } else {
        spaced(args.drop_last()) + seq![' '] + args.last()
    }
}

/// The start of the line that announces a stage.
pub open spec fn running_prefix() -> Seq<char> {
    "Running: "@
}

/// The line that announces `stage` before it runs: its program and its
/// arguments, separated by spaces.
pub fn command_line(stage: &Stage) -> (r: String)
    ensures
        r@ == running_prefix() + stage@.program + spaced(stage@.args),
{
    let mut r = "Running: ".to_owned();
    r.append(stage.program.as_str());
    let args = &stage.args;
    let mut i: usize = 0;
    while i < args.len()
        invariant
            i <= args@.len(),
            args == stage.args,
            r@ == running_prefix() + stage@.program + spaced(stage@.args.subrange(0, i as int)),
        decreases args@.len() - i,
    {
        let ghost before = r@;
        r.append(" ");
        r.append(args[i].as_str());
        proof {
            reveal_strlit(" ");
            let sub = stage@.args.subrange(0, i + 1);
            assert(sub.drop_last() =~= stage@.args.subrange(0, i as int));
            assert(r@ =~= running_prefix() + stage@.program + spaced(sub));
        }
        i = i + 1;
    }
    assert(stage@.args.subrange(0, args@.len() as int) =~= stage@.args);
    r
}

/// Decides what follows once stage `index` of `plan` has ended with
/// `outcome`: the next stage, the end of the build, or the error that stops
/// it. Any failure stops the build; no later stage runs.
pub fn after_stage(plan: &Plan, index: usize, outcome: StageOutcome) -> (r: Result<
    NextStep,
    BuildError,
>)
    requires
        index < plan.stages@.len(),
    ensures
        outcome is Succeeded ==> (r matches Ok(step) && if index + 1 < plan.stages@.len() {
            step == NextStep::Run((index + 1) as usize)
        } else {
            step is Done
        }),
        outcome matches StageOutcome::NotStarted { reason } ==> (r matches Err(
            BuildError::StageNotStarted { program, reason: why },
        ) && program@ == plan.stages@[index as int].program@ && why@ == reason@),
        outcome is Failed ==> (r matches Err(BuildError::StageFailed { program })
            && program@ == plan.stages@[index as int].program@),
{
    match outcome {
        StageOutcome::Succeeded => {
            if index < plan.stages.len() - 1 {
                Ok(NextStep::Run(index + 1))
            } else {
                Ok(NextStep::Done)
            }
        },
        StageOutcome::NotStarted { reason } => Err(
            BuildError::StageNotStarted { program: plan.stages[index].program.clone(), reason },
        ),
        StageOutcome::Failed => Err(
            BuildError::StageFailed { program: plan.stages[index].program.clone() },
        ),
    }
}

} // verus!
