//! The steps of a ray's path through a scene, under a budget of bounces.
//!
//! A path starts with a budget. While budget remains, the ray is traced: it misses every
//! object and takes the background's color, or it hits a surface that absorbs it and is
//! black, or it hits a surface that scatters it and the scattered ray goes on with one
//! bounce less. A path whose budget is spent is black.
use vstd::prelude::*;

verus! {

/// What happened to a traced ray.
#[derive(Debug, Clone, Copy, PartialEq, Eq, Structural)]
pub enum Bounce {
    /// It hit nothing.
    Missed,
    /// It hit a surface that absorbed it.
    Absorbed,
    /// It hit a surface that scattered it into a new ray.
    Scattered,
}

/// The next step of a path.
#[derive(Debug, Clone, Copy, PartialEq, Eq, Structural)]
pub enum PathStep {
    /// Trace the ray through the scene; `left` bounces remain for what follows.
    Trace { left: u32 },
    /// The path ends with the background's color.
    Background,
    /// The path ends black.
    Black,
}

/// The step of a path whose remaining budget is `bounces`.
pub open spec fn budget_step(bounces: nat) -> PathStep {
    if bounces == 0 {
        PathStep::Black
    } else {
        PathStep::Trace { left: (bounces - 1) as u32 }
    }
}

/// The step that follows `bounce` when `left` bounces remain.
pub open spec fn bounce_step(left: nat, bounce: Bounce) -> PathStep {
    match bounce {
        Bounce::Missed => PathStep::Background,
        Bounce::Absorbed => PathStep::Black,
        Bounce::Scattered => budget_step(left),
    }
}

/// The first step of a path that may bounce `bounces` times.
pub fn first_step(bounces: u32) -> (r: PathStep)
    ensures
        r == budget_step(bounces as nat),
{
    if bounces == 0 {
        PathStep::Black
    } else {
        PathStep::Trace { left: bounces - 1 }
    }
}

/// The step after a ray that was traced with `left` bounces remaining met `bounce`.
pub fn next_step(left: u32, bounce: Bounce) -> (r: PathStep)
    ensures
        r == bounce_step(left as nat, bounce),
{
    match bounce {
        Bounce::Missed => PathStep::Background,
        Bounce::Absorbed => PathStep::Black,
        Bounce::Scattered => first_step(left),
    }
}

/// The step reached from `step` after `k` more scatterings, or `step`'s end where it
/// ends before them.
pub open spec fn after_scatterings(step: PathStep, k: nat) -> PathStep
    decreases k,
{
    if k == 0 {
        step
    } else {
        match step {
            PathStep::Trace { left } => after_scatterings(
                bounce_step(left as nat, Bounce::Scattered),
                (k - 1) as nat,
            ),
            _ => step,
        }
    }
}

/// A path ends within its budget: even where every traced ray is scattered, the path
/// traces a ray at each of its first `bounces` steps and is black after them.
pub proof fn lemma_budget_ends_path(bounces: u32)
    ensures
        forall|k: nat| k < bounces ==> after_scatterings(budget_step(bounces as nat), k) is Trace,
        after_scatterings(budget_step(bounces as nat), bounces as nat) == PathStep::Black,
{
    assert forall|k: nat| k <= bounces implies after_scatterings(budget_step(bounces as nat), k)
        == budget_step((bounces - k) as nat) by {
        lemma_scatterings_spend_budget(bounces as nat, k);
    }
}

proof fn lemma_scatterings_spend_budget(bounces: nat, k: nat)
    requires
        k <= bounces <= u32::MAX,
    ensures
        after_scatterings(budget_step(bounces), k) == budget_step((bounces - k) as nat),
    decreases k,
{
    if k > 0 {
        lemma_scatterings_spend_budget((bounces - 1) as nat, (k - 1) as nat);
    }
}

/// A ray that hits an absorbing surface directly ends its path black, whatever positive
/// budget the path started with.
pub proof fn lemma_absorbed_is_black(bounces: u32)
    requires
        bounces > 0,
    ensures
        budget_step(bounces as nat) matches PathStep::Trace { left }
            && bounce_step(left as nat, Bounce::Absorbed) == PathStep::Black,
{
}

} // verus!
