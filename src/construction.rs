//! What construction must produce, and the check of what it did produce.
//!
//! A runner bound to a window presents frames: it needs a presentation
//! surface and a frame-in-flight manager, and drives the per-frame callback.
//! A headless runner has neither and drives the run-once callback.
use vstd::prelude::*;

verus! {

/// Which application callback the runner drives.
#[derive(PartialEq, Eq, Structural, Clone, Copy, Debug)]
pub enum EntryPath {
    /// `frame` once per redraw, inside the window's event loop.
    FrameLoop,
    /// `run` once, with the application doing its own submission.
    RunOnce,
}

/// The parts that device construction is asked to build.
#[derive(PartialEq, Eq, Structural, Clone, Copy, Debug)]
pub struct ConstructionPlan {
    pub headless: bool,
    pub surface: bool,
    pub frame_manager: bool,
    pub entry: EntryPath,
}

/// What device construction handed back, part by part.
#[derive(PartialEq, Eq, Structural, Clone, Copy, Debug)]
pub struct Built {
    pub surface: bool,
    pub frame_manager: bool,
    pub debug_messenger: bool,
}

/// A construction result that breaks the runner's expectations.
#[derive(PartialEq, Eq, Structural, Clone, Copy, Debug)]
pub enum SetupFault {
    /// Validation was requested, and no debug messenger came back.
    MissingDebugMessenger,
    /// A windowed runner lacks its surface or its frame manager.
    MissingPresentation,
    /// A headless runner was given a surface or a frame manager.
    UnexpectedPresentation,
}

pub open spec fn plan_spec(window_bound: bool) -> ConstructionPlan {
    ConstructionPlan {
        headless: !window_bound,
        surface: window_bound,
        frame_manager: window_bound,
        entry: if window_bound { EntryPath::FrameLoop } else { EntryPath::RunOnce },
    }
}

/// The construction plan for a runner with or without a bound window.
pub fn plan(window_bound: bool) -> (r: ConstructionPlan)
    ensures
        r == plan_spec(window_bound),
        !window_bound ==> !r.surface && !r.frame_manager && r.entry == EntryPath::RunOnce,
{
    ConstructionPlan {
        headless: !window_bound,
        surface: window_bound,
        frame_manager: window_bound,
        entry: if window_bound {
            EntryPath::FrameLoop
        } else {
            EntryPath::RunOnce
        },
    }
}

/// The fault, if any, in what construction built for `plan` with validation
/// on or off. A missing debug messenger is reported before the rest.
pub open spec fn check_spec(plan: ConstructionPlan, validation: bool, built: Built) -> Result<
    (),
    SetupFault,
> {
    if validation && !built.debug_messenger {
        Err(SetupFault::MissingDebugMessenger)
    } else if plan.headless && (built.surface || built.frame_manager) {
        Err(SetupFault::UnexpectedPresentation)
    } else if !plan.headless && !(built.surface && built.frame_manager) {
        Err(SetupFault::MissingPresentation)
    } else {
        Ok(())
    }
}

/// Checks what construction built against the plan.
pub fn check_built(plan: &ConstructionPlan, validation: bool, built: &Built) -> (r: Result<
    (),
    SetupFault,
>)
    requires
        plan.surface == plan.frame_manager,
        plan.surface == !plan.headless,
    ensures
        r == check_spec(*plan, validation, *built),
        r is Ok ==> built.surface == plan.surface && built.frame_manager == plan.frame_manager,
{
    if validation && !built.debug_messenger {
        Err(SetupFault::MissingDebugMessenger)
    } else if plan.headless && (built.surface || built.frame_manager) {
        Err(SetupFault::UnexpectedPresentation)
    } else if !plan.headless && !(built.surface && built.frame_manager) {
        Err(SetupFault::MissingPresentation)
    } else {
        Ok(())
    }
}

/// A runner without a window never has a presentation surface or a
/// frame-in-flight manager accepted, and only the run-once callback is
/// reachable from it.
pub proof fn lemma_headless_never_presents(validation: bool, built: Built)
    ensures
        !plan_spec(false).surface,
        !plan_spec(false).frame_manager,
        plan_spec(false).entry == EntryPath::RunOnce,
        check_spec(plan_spec(false), validation, built) is Ok ==> !built.surface
            && !built.frame_manager,
{
}

} // verus!
