//! Decisions of the frame loop.
//!
//! The loop that owns the window feeds each OS event and each frame outcome
//! to [`LoopState::step`], performs the returned [`Action`], and feeds the
//! next input. All ordering rules live here: redraws are requested whenever
//! the event queue runs dry, a frame is rendered only while the application
//! is alive and no earlier frame failed, caches rotate once per completed
//! frame, and on close the device is idled before the application is dropped.
use vstd::prelude::*;
use crate::rotation::{CacheRotation, RotationView, advanced};

verus! {

/// Lifecycle of the application object as seen by the loop.
#[derive(PartialEq, Eq, Structural, Clone, Copy, Debug)]
pub enum Phase {
    /// Built, the loop has not yet delivered an event.
    Constructed,
    /// Between frames.
    Running,
    /// The frame callback is executing.
    FrameActive,
    /// Close was requested; the device was idled and the application dropped.
    Destroyed,
    /// A frame callback failed; nothing more is rendered.
    Failed,
}

/// What the loop hands to the state machine.
#[derive(PartialEq, Eq, Structural, Clone, Copy, Debug)]
pub enum LoopInput {
    /// The OS asked to close a window; `own_window` tells whether it is ours.
    CloseRequested { own_window: bool },
    /// The OS event queue has been drained.
    EventsCleared,
    /// The OS asked for our window to be redrawn.
    RedrawRequested,
    /// The frame callback and its submission returned successfully.
    FrameSucceeded,
    /// The frame callback or its submission returned an error.
    FrameFailed,
    /// Any other OS event.
    Other,
}

/// What the loop must do next.
#[derive(PartialEq, Eq, Structural, Clone, Copy, Debug)]
pub enum Action {
    Nothing,
    /// Block until the device has no pending work.
    WaitIdle,
    /// Block until the device has no pending work, then drop the application.
    WaitIdleThenDrop,
    /// Ask the window for a redraw.
    RequestRedraw,
    /// Invoke the frame callback once and report its outcome.
    RenderFrame,
    /// Advance the rotation of the pipeline and descriptor caches.
    AdvanceCaches,
    /// Stop the loop and report the frame error.
    Halt,
}

/// Abstract state of the loop.
pub struct LoopView {
    pub phase: Phase,
    /// The application object still exists.
    pub app_alive: bool,
    /// A device-idle wait has been ordered.
    pub idle_waited: bool,
    pub rotation: RotationView,
}

/// One transition: the state after `input`, and the action to perform.
pub open spec fn step_spec(s: LoopView, input: LoopInput) -> (LoopView, Action) {
    match s.phase {
        Phase::Destroyed => (s, Action::WaitIdle),
        Phase::Failed => (s, Action::Halt),
        Phase::FrameActive => match input {
            LoopInput::FrameSucceeded => (
                LoopView { phase: Phase::Running, rotation: advanced(s.rotation, 1), ..s },
                Action::AdvanceCaches,
            ),
            LoopInput::FrameFailed => (LoopView { phase: Phase::Failed, ..s }, Action::Halt),
            _ => (s, Action::Nothing),
        },
        _ => match input {
            LoopInput::CloseRequested { own_window } => if own_window {
                (
                    LoopView { phase: Phase::Destroyed, app_alive: false, idle_waited: true, ..s },
                    if s.app_alive { Action::WaitIdleThenDrop } else { Action::WaitIdle },
                )
            } else {
                (LoopView { phase: Phase::Running, ..s }, Action::Nothing)
            },
            LoopInput::EventsCleared => (LoopView { phase: Phase::Running, ..s }, Action::RequestRedraw),
            LoopInput::RedrawRequested => if s.app_alive {
                (LoopView { phase: Phase::FrameActive, ..s }, Action::RenderFrame)
            } else {
                (LoopView { phase: Phase::Running, ..s }, Action::Nothing)
            },
            _ => (LoopView { phase: Phase::Running, ..s }, Action::Nothing),
        },
    }
}

/// The state after feeding `inputs` one by one.
pub open spec fn replay(s: LoopView, inputs: Seq<LoopInput>) -> LoopView
    decreases inputs.len(),
{
    if inputs.len() == 0 {
        s
    } else {
        step_spec(replay(s, inputs.drop_last()), inputs.last()).0
    }
}

/// The actions returned while feeding `inputs` one by one.
pub open spec fn actions(s: LoopView, inputs: Seq<LoopInput>) -> Seq<Action>
    decreases inputs.len(),
{
    if inputs.len() == 0 {
        Seq::empty()
    } else {
        actions(s, inputs.drop_last()).push(
            step_spec(replay(s, inputs.drop_last()), inputs.last()).1,
        )
    }
}

/// The state of a freshly built loop, for `depth` frames in flight.
pub open spec fn initial(depth: nat) -> LoopView {
    LoopView {
        phase: Phase::Constructed,
        app_alive: true,
        idle_waited: false,
        rotation: RotationView { counter: 0, depth },
    }
}

pub struct LoopState {
    phase: Phase,
    app_alive: bool,
    idle_waited: bool,
    rotation: CacheRotation,
}

impl LoopState {
    pub closed spec fn view(&self) -> LoopView {
        LoopView {
            phase: self.phase,
            app_alive: self.app_alive,
            idle_waited: self.idle_waited,
            rotation: self.rotation.view(),
        }
    }

    pub open spec fn wf(&self) -> bool {
        self.view().rotation.depth >= 1
    }

    /// A loop for a freshly constructed application, with the caches rotated
    /// against `depth` frames in flight.
    pub fn new(depth: u64) -> (r: LoopState)
        requires
            depth >= 1,
        ensures
            r.wf(),
            r.view() == initial(depth as nat),
    {
        LoopState {
            phase: Phase::Constructed,
            app_alive: true,
            idle_waited: false,
            rotation: CacheRotation::new(depth),
        }
    }

    pub fn phase(&self) -> (r: Phase)
        ensures
            r == self.view().phase,
    {
        self.phase
    }

    pub fn app_alive(&self) -> (r: bool)
        ensures
            r == self.view().app_alive,
    {
        self.app_alive
    }

    pub fn rotation(&self) -> (r: &CacheRotation)
        ensures
            r.view() == self.view().rotation,
    {
        &self.rotation
    }

    /// Feeds one input and returns the action the loop must perform.
    pub fn step(&mut self, input: LoopInput) -> (r: Action)
        requires
            old(self).view().rotation.counter < u64::MAX,
        ensures
            (final(self).view(), r) == step_spec(old(self).view(), input),
            final(self).wf() == old(self).wf(),
    {
        match self.phase {
            Phase::Destroyed => Action::WaitIdle,
            Phase::Failed => Action::Halt,
            Phase::FrameActive => match input {
                LoopInput::FrameSucceeded => {
                    self.phase = Phase::Running;
                    self.rotation.advance_frame();
                    Action::AdvanceCaches
                },
                LoopInput::FrameFailed => {
                    self.phase = Phase::Failed;
                    Action::Halt
                },
                _ => Action::Nothing,
            },
            _ => match input {
                LoopInput::CloseRequested { own_window } => {
                    if own_window {
                        let was_alive = self.app_alive;
                        self.phase = Phase::Destroyed;
                        self.app_alive = false;
                        self.idle_waited = true;
                        if was_alive {
                            Action::WaitIdleThenDrop
                        } else {
                            Action::WaitIdle
                        }
                    } else {
                        self.phase = Phase::Running;
                        Action::Nothing
                    }
                },
                LoopInput::EventsCleared => {
                    self.phase = Phase::Running;
                    Action::RequestRedraw
                },
                LoopInput::RedrawRequested => {
                    if self.app_alive {
                        self.phase = Phase::FrameActive;
                        Action::RenderFrame
                    } else {
                        self.phase = Phase::Running;
                        Action::Nothing
                    }
                },
                _ => {
                    self.phase = Phase::Running;
                    Action::Nothing
                },
            },
        }
    }
}

/// How many times `a` occurs in `acts`.
pub open spec fn count_of(acts: Seq<Action>, a: Action) -> nat
    decreases acts.len(),
{
    if acts.len() == 0 {
        0
    } else {
        count_of(acts.drop_last(), a) + if acts.last() == a { 1nat } else { 0nat }
    }
}

/// Feeding two runs of inputs one after the other is feeding their concatenation.
pub proof fn lemma_replay_concat(s: LoopView, a: Seq<LoopInput>, b: Seq<LoopInput>)
    ensures
        replay(s, a + b) == replay(replay(s, a), b),
        actions(s, a + b) == actions(s, a) + actions(replay(s, a), b),
    decreases b.len(),
{
    if b.len() == 0 {
        assert(a + b =~= a);
        assert(actions(s, a) + actions(replay(s, a), b) =~= actions(s, a));
    } else {
        lemma_replay_concat(s, a, b.drop_last());
        assert((a + b).drop_last() =~= a + b.drop_last());
        assert((a + b).last() == b.last());
        assert(actions(s, a) + actions(replay(s, a), b) =~= (actions(s, a) + actions(
            replay(s, a),
            b.drop_last(),
        )).push(step_spec(replay(replay(s, a), b.drop_last()), b.last()).1));
    }
}

/// The rotation counter advances by exactly the number of `AdvanceCaches`
/// actions, one per completed frame, and its depth never changes.
pub proof fn lemma_counter_counts_frames(s: LoopView, inputs: Seq<LoopInput>)
    ensures
        replay(s, inputs).rotation.counter == s.rotation.counter + count_of(
            actions(s, inputs),
            Action::AdvanceCaches,
        ),
        replay(s, inputs).rotation.depth == s.rotation.depth,
    decreases inputs.len(),
{
    if inputs.len() > 0 {
        lemma_counter_counts_frames(s, inputs.drop_last());
        assert(actions(s, inputs).drop_last() =~= actions(s, inputs.drop_last()));
    }
}

/// Starting from a fresh loop, after any inputs the cache rotation counter
/// equals the number of frames completed so far.
pub proof fn lemma_rotation_equals_completed_frames(depth: nat, inputs: Seq<LoopInput>)
    ensures
        replay(initial(depth), inputs).rotation.counter == count_of(
            actions(initial(depth), inputs),
            Action::AdvanceCaches,
        ),
{
    lemma_counter_counts_frames(initial(depth), inputs);
}

/// The application is never dropped unless a device-idle wait was ordered
/// first, whatever inputs a fresh loop receives.
pub proof fn lemma_dropped_only_after_idle(depth: nat, inputs: Seq<LoopInput>)
    ensures
        !replay(initial(depth), inputs).app_alive ==> replay(initial(depth), inputs).idle_waited,
        !replay(initial(depth), inputs).app_alive ==> replay(initial(depth), inputs).phase
            == Phase::Destroyed,
        replay(initial(depth), inputs).phase == Phase::Destroyed ==> !replay(
            initial(depth),
            inputs,
        ).app_alive,
    decreases inputs.len(),
{
    if inputs.len() > 0 {
        lemma_dropped_only_after_idle(depth, inputs.drop_last());
    }
}

/// A close of our window, delivered between frames, idles the device and then
/// drops the application (or only idles it, if it is already gone); after that
/// the loop only idles the device and never renders again.
pub proof fn lemma_close_idles_then_drops(
    depth: nat,
    before: Seq<LoopInput>,
    after: Seq<LoopInput>,
)
    requires
        replay(initial(depth), before).phase != Phase::FrameActive,
        replay(initial(depth), before).phase != Phase::Failed,
    ensures
        ({
            let closed = before.push(LoopInput::CloseRequested { own_window: true });
            let s = replay(initial(depth), closed);
            &&& s.phase == Phase::Destroyed
            &&& !s.app_alive
            &&& s.idle_waited
            &&& actions(initial(depth), closed).last() == if replay(
                initial(depth),
                before,
            ).app_alive {
                Action::WaitIdleThenDrop
            } else {
                Action::WaitIdle
            }
            &&& forall|i: int|
                0 <= i < after.len() ==> #[trigger] actions(s, after)[i] == Action::WaitIdle
        }),
{
    let closed = before.push(LoopInput::CloseRequested { own_window: true });
    assert(closed.drop_last() =~= before);
    assert(closed.last() == LoopInput::CloseRequested { own_window: true });
    lemma_dropped_only_after_idle(depth, before);
    let s = replay(initial(depth), closed);
    assert(s == step_spec(replay(initial(depth), before), closed.last()).0);
    lemma_absorbing(s, after);
}

/// In a state that is `Destroyed` or `Failed` the loop stays there, and every
/// input yields the same action: an idle wait, or a halt.
pub proof fn lemma_absorbing(s: LoopView, inputs: Seq<LoopInput>)
    requires
        s.phase == Phase::Destroyed || s.phase == Phase::Failed,
    ensures
        replay(s, inputs) == s,
        actions(s, inputs).len() == inputs.len(),
        forall|i: int|
            0 <= i < inputs.len() ==> #[trigger] actions(s, inputs)[i] == if s.phase
                == Phase::Destroyed {
                Action::WaitIdle
            } else {
                Action::Halt
            },
    decreases inputs.len(),
{
    lemma_actions_len(s, inputs);
    if inputs.len() > 0 {
        lemma_absorbing(s, inputs.drop_last());
    }
}

/// A frame that fails halts the loop: whatever inputs follow, no later frame
/// is rendered and the caches do not rotate again.
pub proof fn lemma_failure_halts(
    depth: nat,
    before: Seq<LoopInput>,
    after: Seq<LoopInput>,
)
    requires
        replay(initial(depth), before).phase == Phase::FrameActive,
    ensures
        ({
            let run = before.push(LoopInput::FrameFailed) + after;
            let n = before.len() + 1;
            &&& actions(initial(depth), run).len() == run.len()
            &&& actions(initial(depth), run)[before.len() as int] == Action::Halt
            &&& forall|i: int|
                n <= i < run.len() ==> #[trigger] actions(initial(depth), run)[i] == Action::Halt
            &&& replay(initial(depth), run).rotation == replay(initial(depth), before).rotation
        }),
{
    let failed = before.push(LoopInput::FrameFailed);
    assert(failed.drop_last() =~= before);
    let s = replay(initial(depth), failed);
    lemma_absorbing(s, after);
    lemma_replay_concat(initial(depth), failed, after);
    lemma_actions_len(initial(depth), failed);
    lemma_actions_len(s, after);
    lemma_actions_len(initial(depth), failed + after);
    assert forall|i: int| before.len() + 1 <= i < (failed + after).len() implies #[trigger] actions(
        initial(depth),
        failed + after,
    )[i] == Action::Halt by {
        assert(actions(initial(depth), failed + after)[i] == actions(s, after)[i - failed.len()]);
    }
}

/// One action per input.
pub proof fn lemma_actions_len(s: LoopView, inputs: Seq<LoopInput>)
    ensures
        actions(s, inputs).len() == inputs.len(),
    decreases inputs.len(),
{
    if inputs.len() > 0 {
        lemma_actions_len(s, inputs.drop_last());
    }
}

} // verus!
