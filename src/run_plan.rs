//! The time-stepping plan of a simulation run.
//!
//! A run over `duration` with step `dt` takes `floor(duration / dt)` full
//! steps and, where time is left over, one last partial step covering the
//! remainder. A snapshot is recorded before the first step and after every
//! step. The caller computes the step count and whether a remainder is left
//! (floating point); the plan and the snapshot count follow from those here.
use vstd::prelude::*;

verus! {

/// One step of a run.
#[derive(PartialEq, Eq, Structural, Clone, Copy, Debug)]
pub enum StepKind {
    /// A step of the configured length `dt`.
    Full,
    /// The last, shorter step that covers what is left of the duration.
    Remainder,
}

/// Number of steps of a run with `full_steps` full steps.
pub open spec fn step_count(full_steps: nat, has_remainder: bool) -> nat {
    if has_remainder {
        full_steps + 1
    } else {
        full_steps
    }
}

/// Number of snapshots of such a run: one before the first step, one after
/// each step.
pub open spec fn snapshot_count(full_steps: nat, has_remainder: bool) -> nat {
    step_count(full_steps, has_remainder) + 1
}

/// The steps of a run, in order: `full_steps` full ones, then the partial
/// one if a remainder is left.
pub fn step_plan(full_steps: usize, has_remainder: bool) -> (r: Vec<StepKind>)
    requires
        full_steps < usize::MAX,
    ensures
        r.len() == step_count(full_steps as nat, has_remainder),
        forall|i: int| 0 <= i < full_steps ==> r[i] == StepKind::Full,
        has_remainder ==> r[full_steps as int] == StepKind::Remainder,
{
    let mut r: Vec<StepKind> = Vec::new();
    let mut i: usize = 0;
    while i < full_steps
        invariant
            i <= full_steps,
            r.len() == i,
            forall|k: int| 0 <= k < i ==> r[k] == StepKind::Full,
        decreases full_steps - i,
    {
        r.push(StepKind::Full);
        i = i + 1;
    }
    if has_remainder {
        r.push(StepKind::Remainder);
    }
    r
}

/// Number of snapshots that a run of `full_steps` full steps records.
pub fn trajectory_len(full_steps: usize, has_remainder: bool) -> (r: usize)
    requires
        full_steps < usize::MAX - 1,
    ensures
        r == snapshot_count(full_steps as nat, has_remainder),
{
    if has_remainder {
        full_steps + 2
    } else {
        full_steps + 1
    }
}

/// A run records one snapshot more than it takes steps, and the plan ends
/// with the partial step exactly when a remainder is left: with a remainder
/// the trajectory has `full_steps + 2` snapshots, else `full_steps + 1`.
pub proof fn lemma_snapshots_follow_plan(full_steps: nat, has_remainder: bool, plan: Seq<StepKind>)
    requires
        plan.len() == step_count(full_steps, has_remainder),
        forall|i: int| 0 <= i < full_steps ==> plan[i] == StepKind::Full,
        has_remainder ==> plan[full_steps as int] == StepKind::Remainder,
    ensures
        snapshot_count(full_steps, has_remainder) == plan.len() + 1,
        has_remainder ==> snapshot_count(full_steps, has_remainder) == full_steps + 2,
        !has_remainder ==> snapshot_count(full_steps, has_remainder) == full_steps + 1,
        plan.len() > 0 ==> (plan.last() == StepKind::Remainder <==> has_remainder),
{
}

} // verus!
