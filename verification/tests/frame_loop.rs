use imgui_app::frame_loop::{
    frame_wait_ms, handle_event, plan_frame, should_build_frame, EventAction, FramePlan,
    LoopEvent, LoopState, SurfaceStatus, WindowEventKind,
};

const OWN: u32 = 7;

fn state() -> LoopState {
    LoopState { in_background: false, surface_width: 1280, surface_height: 720 }
}

fn own(kind: WindowEventKind) -> LoopEvent {
    LoopEvent::Window { window_id: OWN, kind }
}

#[test]
fn wait_is_a_whole_idle_frame_at_first() {
    // 1000 / 60 = 16.67 ms, rounded
    assert_eq!(frame_wait_ms(0), 17);
}

#[test]
fn wait_rounds_the_time_left() {
    // 10 ms elapsed: 6.67 ms left
    assert_eq!(frame_wait_ms(10_000_000), 7);
    // 16.166666 ms elapsed: just over half a millisecond left
    assert_eq!(frame_wait_ms(16_166_666), 1);
    // 16.166667 ms elapsed: just under half a millisecond left
    assert_eq!(frame_wait_ms(16_166_667), 0);
}

#[test]
fn wait_is_zero_after_a_long_frame() {
    assert_eq!(frame_wait_ms(16_666_667), 0);
    assert_eq!(frame_wait_ms(50_000_000), 0);
    assert_eq!(frame_wait_ms(u64::MAX), 0);
}

#[test]
fn resize_of_own_window_updates_surface_size() {
    let mut s = state();
    let action = handle_event(&mut s, OWN, &own(WindowEventKind::Resized { width: 800, height: 600 }));
    assert_eq!(action, EventAction::ResizeSurface);
    assert_eq!(s, LoopState { in_background: false, surface_width: 800, surface_height: 600 });
}

#[test]
fn resize_to_empty_size_is_ignored() {
    let mut s = state();
    let action = handle_event(&mut s, OWN, &own(WindowEventKind::Resized { width: 0, height: 600 }));
    assert_eq!(action, EventAction::Nothing);
    let action = handle_event(&mut s, OWN, &own(WindowEventKind::Resized { width: 800, height: -1 }));
    assert_eq!(action, EventAction::Nothing);
    assert_eq!(s, state());
}

#[test]
fn events_of_other_windows_are_ignored() {
    let mut s = state();
    let other = LoopEvent::Window { window_id: OWN + 1, kind: WindowEventKind::Minimized };
    assert_eq!(handle_event(&mut s, OWN, &other), EventAction::Nothing);
    let other = LoopEvent::Window {
        window_id: OWN + 1,
        kind: WindowEventKind::Resized { width: 10, height: 10 },
    };
    assert_eq!(handle_event(&mut s, OWN, &other), EventAction::Nothing);
    assert_eq!(s, state());
}

#[test]
fn minimize_then_expose_stops_and_resumes_frames() {
    let mut s = state();
    assert!(should_build_frame(&s));
    assert_eq!(handle_event(&mut s, OWN, &own(WindowEventKind::Minimized)), EventAction::Nothing);
    assert!(!should_build_frame(&s));
    assert_eq!(handle_event(&mut s, OWN, &LoopEvent::Other), EventAction::Nothing);
    assert_eq!(handle_event(&mut s, OWN, &own(WindowEventKind::Other)), EventAction::Nothing);
    assert!(!should_build_frame(&s));
    assert_eq!(
        handle_event(&mut s, OWN, &own(WindowEventKind::Exposed)),
        EventAction::ConfigureSurface
    );
    assert!(should_build_frame(&s));
}

#[test]
fn quit_ends_the_loop_in_any_state() {
    let mut s = state();
    assert_eq!(handle_event(&mut s, OWN, &LoopEvent::Quit), EventAction::Quit);
    let mut hidden = LoopState { in_background: true, ..state() };
    assert_eq!(handle_event(&mut hidden, OWN, &LoopEvent::Quit), EventAction::Quit);
    assert!(hidden.in_background);
}

#[test]
fn surface_status_plans() {
    assert_eq!(
        plan_frame(SurfaceStatus::Success),
        FramePlan::Render { reconfigure_after_present: false }
    );
    assert_eq!(
        plan_frame(SurfaceStatus::Suboptimal),
        FramePlan::Render { reconfigure_after_present: true }
    );
    assert_eq!(plan_frame(SurfaceStatus::Outdated), FramePlan::ReconfigureAndSkip);
    assert_eq!(plan_frame(SurfaceStatus::Lost), FramePlan::ReconfigureAndSkip);
    assert_eq!(plan_frame(SurfaceStatus::Timeout), FramePlan::Skip);
    assert_eq!(plan_frame(SurfaceStatus::Occluded), FramePlan::Skip);
    assert_eq!(plan_frame(SurfaceStatus::Validation), FramePlan::WarnAndSkip);
}
