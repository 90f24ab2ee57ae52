use frame_runner::construction::{check_built, plan, Built, ConstructionPlan, EntryPath, SetupFault};
use frame_runner::rotation::CacheRotation;
use frame_runner::runner::{Action, LoopInput, LoopState, Phase};
use frame_runner::settings::{
    runner_settings, PresentMode, QueueRequest, QueueType, FRAMES_IN_FLIGHT, GIB, SCRATCH_BYTES,
};

fn render_ok(s: &mut LoopState) {
    assert_eq!(s.step(LoopInput::EventsCleared), Action::RequestRedraw);
    assert_eq!(s.step(LoopInput::RedrawRequested), Action::RenderFrame);
    assert_eq!(s.phase(), Phase::FrameActive);
    assert_eq!(s.step(LoopInput::FrameSucceeded), Action::AdvanceCaches);
}

#[test]
fn fresh_loop_is_constructed() {
    let s = LoopState::new(FRAMES_IN_FLIGHT);
    assert_eq!(s.phase(), Phase::Constructed);
    assert!(s.app_alive());
    assert_eq!(s.rotation().counter(), 0);
    assert_eq!(s.rotation().depth(), 2);
}

#[test]
fn counter_equals_completed_frames() {
    let mut s = LoopState::new(FRAMES_IN_FLIGHT);
    for _ in 0..5 {
        render_ok(&mut s);
    }
    assert_eq!(s.rotation().counter(), 5);
    assert_eq!(s.phase(), Phase::Running);
}

#[test]
fn other_events_are_ignored() {
    let mut s = LoopState::new(FRAMES_IN_FLIGHT);
    assert_eq!(s.step(LoopInput::Other), Action::Nothing);
    assert_eq!(s.phase(), Phase::Running);
    assert_eq!(s.step(LoopInput::CloseRequested { own_window: false }), Action::Nothing);
    assert!(s.app_alive());
    assert_eq!(s.rotation().counter(), 0);
}

#[test]
fn close_idles_then_drops_once() {
    let mut s = LoopState::new(FRAMES_IN_FLIGHT);
    render_ok(&mut s);
    assert_eq!(s.step(LoopInput::CloseRequested { own_window: true }), Action::WaitIdleThenDrop);
    assert_eq!(s.phase(), Phase::Destroyed);
    assert!(!s.app_alive());
    assert_eq!(s.step(LoopInput::RedrawRequested), Action::WaitIdle);
    assert_eq!(s.step(LoopInput::EventsCleared), Action::WaitIdle);
    assert_eq!(s.step(LoopInput::CloseRequested { own_window: true }), Action::WaitIdle);
    assert_eq!(s.rotation().counter(), 1);
}

#[test]
fn failed_frame_halts_before_next_frame() {
    let mut s = LoopState::new(FRAMES_IN_FLIGHT);
    render_ok(&mut s);
    render_ok(&mut s);
    assert_eq!(s.step(LoopInput::RedrawRequested), Action::RenderFrame);
    assert_eq!(s.step(LoopInput::FrameFailed), Action::Halt);
    assert_eq!(s.phase(), Phase::Failed);
    assert_eq!(s.step(LoopInput::EventsCleared), Action::Halt);
    assert_eq!(s.step(LoopInput::RedrawRequested), Action::Halt);
    assert_eq!(s.rotation().counter(), 2);
}

#[test]
fn events_during_a_frame_wait_for_its_outcome() {
    let mut s = LoopState::new(FRAMES_IN_FLIGHT);
    assert_eq!(s.step(LoopInput::RedrawRequested), Action::RenderFrame);
    assert_eq!(s.step(LoopInput::RedrawRequested), Action::Nothing);
    assert_eq!(s.step(LoopInput::CloseRequested { own_window: true }), Action::Nothing);
    assert!(s.app_alive());
    assert_eq!(s.step(LoopInput::FrameSucceeded), Action::AdvanceCaches);
}

#[test]
fn frame_outcome_outside_a_frame_is_ignored() {
    let mut s = LoopState::new(FRAMES_IN_FLIGHT);
    assert_eq!(s.step(LoopInput::FrameSucceeded), Action::Nothing);
    assert_eq!(s.step(LoopInput::FrameFailed), Action::Nothing);
    assert_eq!(s.rotation().counter(), 0);
    assert_eq!(s.phase(), Phase::Running);
}

#[test]
fn rotation_reclaims_only_after_depth_frames() {
    let mut r = CacheRotation::new(2);
    let used = r.counter();
    assert_eq!(used, 0);
    assert!(!r.can_reclaim(used));
    r.advance_frame();
    assert!(!r.can_reclaim(used));
    r.advance_frame();
    assert!(r.can_reclaim(used));
    assert!(!r.can_reclaim(r.counter()));
    assert_eq!(r.counter(), 2);
}

#[test]
fn rotation_with_large_stamp() {
    let r = CacheRotation::new(1);
    assert!(!r.can_reclaim(u64::MAX));
}

#[test]
fn default_settings() {
    let s = runner_settings(String::from("demo"), true);
    assert_eq!(s.name, "demo");
    assert_eq!(s.version, (1, 0, 0));
    assert!(s.validation);
    assert_eq!(s.present_mode, PresentMode::Mailbox);
    assert_eq!(s.scratch_size, 1024);
    assert_eq!(SCRATCH_BYTES, 1024);
    assert!(!s.gpu.dedicated);
    assert_eq!(s.gpu.min_video_memory, 1024 * 1024 * 1024);
    assert_eq!(s.gpu.min_dedicated_video_memory, GIB);
    assert_eq!(
        s.gpu.queues,
        vec![
            QueueRequest { dedicated: false, queue_type: QueueType::Graphics },
            QueueRequest { dedicated: true, queue_type: QueueType::Transfer },
            QueueRequest { dedicated: true, queue_type: QueueType::Compute },
        ]
    );
    assert!(s.windowed);
    assert!(!runner_settings(String::from("x"), false).windowed);
}

#[test]
fn headless_plan_has_no_presentation() {
    let p = plan(false);
    assert_eq!(
        p,
        ConstructionPlan { headless: true, surface: false, frame_manager: false, entry: EntryPath::RunOnce }
    );
    let w = plan(true);
    assert_eq!(
        w,
        ConstructionPlan { headless: false, surface: true, frame_manager: true, entry: EntryPath::FrameLoop }
    );
}

#[test]
fn built_parts_are_checked() {
    let headless = plan(false);
    let windowed = plan(true);
    let none = Built { surface: false, frame_manager: false, debug_messenger: true };
    let all = Built { surface: true, frame_manager: true, debug_messenger: true };
    assert_eq!(check_built(&headless, true, &none), Ok(()));
    assert_eq!(check_built(&windowed, true, &all), Ok(()));
    assert_eq!(check_built(&headless, true, &all), Err(SetupFault::UnexpectedPresentation));
    assert_eq!(check_built(&windowed, true, &none), Err(SetupFault::MissingPresentation));
    let no_messenger = Built { surface: true, frame_manager: true, debug_messenger: false };
    assert_eq!(check_built(&windowed, true, &no_messenger), Err(SetupFault::MissingDebugMessenger));
    assert_eq!(check_built(&windowed, false, &no_messenger), Ok(()));
    let half = Built { surface: true, frame_manager: false, debug_messenger: true };
    assert_eq!(check_built(&windowed, true, &half), Err(SetupFault::MissingPresentation));
}
