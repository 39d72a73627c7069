//! The decisions of the main loop: how long to wait for the next event,
//! what a window event does to the loop state, whether a frame is built,
//! and what to do with the surface texture that the GPU hands back.
//!
//! The loop itself (waiting for events, rendering, presenting) runs in the
//! application; it hands each event to [`handle_event`] and each surface
//! status to [`plan_frame`], and carries out the returned action.
use vstd::prelude::*;

verus! {

/// Frames per second that the loop aims for while it idles.
pub const IDLE_FPS: u64 = 60;

/// Nanoseconds in one second.
pub const NANOS_PER_SECOND: u64 = 1_000_000_000;

/// Nanoseconds in one millisecond.
pub const NANOS_PER_MILLI: u64 = 1_000_000;

/// The time left in the idle frame, `1000 / IDLE_FPS - elapsed_ms`, scaled by
/// `IDLE_FPS * NANOS_PER_MILLI` so that it is a whole number.
pub open spec fn wait_numerator(elapsed_nanos: u64) -> int {
    NANOS_PER_SECOND - IDLE_FPS * elapsed_nanos
}

/// The scale of [`wait_numerator`]: the numerator divided by this is the
/// time left in milliseconds.
pub open spec fn wait_denominator() -> int {
    IDLE_FPS * NANOS_PER_MILLI
}

/// How long to wait for an event: the time left in the idle frame, in
/// milliseconds, rounded to the nearest whole number (halves rounded up),
/// and zero once the frame has used up its time.
pub open spec fn spec_frame_wait_ms(elapsed_nanos: u64) -> int {
    let n = wait_numerator(elapsed_nanos);
    let d = wait_denominator();
    if n > 0 {
        (2 * n + d) / (2 * d)
    } else {
        0
    }
}

/// The number of milliseconds to wait for the next event, given how long the
/// last frame took (in nanoseconds), so that an idle loop keeps to
/// [`IDLE_FPS`] frames per second.
pub fn frame_wait_ms(elapsed_nanos: u64) -> (wait: u64)
    ensures
        wait == spec_frame_wait_ms(elapsed_nanos),
        // the result is the nearest whole number of milliseconds
        wait_numerator(elapsed_nanos) > 0 ==> {
            let n = wait_numerator(elapsed_nanos);
            let d = wait_denominator();
            &&& 2 * (wait * d) <= 2 * n + d
            &&& 2 * n < 2 * (wait * d) + d
        },
        wait_numerator(elapsed_nanos) <= 0 ==> wait == 0,
{
    // 60 * elapsed < 10^9 exactly when elapsed < 16_666_667
    if elapsed_nanos < 16_666_667 {
        let n: u64 = NANOS_PER_SECOND - IDLE_FPS * elapsed_nanos;
        let d: u64 = IDLE_FPS * NANOS_PER_MILLI;
        let wait: u64 = (2 * n + d) / (2 * d);
        proof {
            let q = (2 * n + d) / (2 * d);
            let r = (2 * n + d) % (2 * d);
            assert(2 * n + d == (2 * d) * q + r && 0 <= r < 2 * d) by (nonlinear_arith)
                requires
                    d == 60_000_000,
                    q == (2 * n + d) / (2 * d),
                    r == (2 * n + d) % (2 * d),
            ;
            assert(q * d * 2 == (2 * d) * q) by (nonlinear_arith);
        }
        wait
    } else {
        0
    }
}

/// Whether something happened to the loop's own window or to another one.
pub enum WindowEventKind {
    /// The window's drawable area now has this size.
    Resized { width: i32, height: i32 },
    /// The window was minimized.
    Minimized,
    /// The window became visible again.
    Exposed,
    /// Any other window event.
    Other,
}

/// An event as the loop sees it.
pub enum LoopEvent {
    /// An event of the window with the given id.
    Window { window_id: u32, kind: WindowEventKind },
    /// The application was asked to quit.
    Quit,
    /// Any other event (input and the like, which the platform backend handles).
    Other,
}

/// What the loop does after an event.
#[derive(PartialEq, Eq, Structural, Clone, Copy, Debug)]
pub enum EventAction {
    /// Nothing beyond handing the event to the platform backend.
    Nothing,
    /// The surface size in the loop state changed: copy it into the surface
    /// configuration and configure the surface again.
    ResizeSurface,
    /// Configure the surface again with the current configuration.
    ConfigureSurface,
    /// Leave the loop.
    Quit,
}

/// What the loop remembers between events.
#[derive(PartialEq, Eq, Structural, Clone, Copy, Debug)]
pub struct LoopState {
    /// Set while the window is minimized: no frames are built then.
    pub in_background: bool,
    /// The width that the surface is configured with.
    pub surface_width: u32,
    /// The height that the surface is configured with.
    pub surface_height: u32,
}

/// The state after `event`, for the loop that owns the window `window_id`.
pub open spec fn next_state(state: LoopState, window_id: u32, event: LoopEvent) -> LoopState {
    match event {
        LoopEvent::Window { window_id: id, kind } => {
            if id != window_id {
                state
            } else {
                match kind {
                    WindowEventKind::Resized { width, height } => {
                        if width > 0 && height > 0 {
                            LoopState {
                                surface_width: width as u32,
                                surface_height: height as u32,
                                ..state
                            }
                        } else {
                            state
                        }
                    },
                    WindowEventKind::Minimized => LoopState { in_background: true, ..state },
                    WindowEventKind::Exposed => LoopState { in_background: false, ..state },
                    WindowEventKind::Other => state,
                }
            }
        },
        _ => state,
    }
}

/// The action that `event` asks of the loop that owns the window `window_id`.
pub open spec fn event_action(window_id: u32, event: LoopEvent) -> EventAction {
    match event {
        LoopEvent::Window { window_id: id, kind } => {
            if id != window_id {
                EventAction::Nothing
            } else {
                match kind {
                    WindowEventKind::Resized { width, height } => {
                        if width > 0 && height > 0 {
                            EventAction::ResizeSurface
                        } else {
                            EventAction::Nothing
                        }
                    },
                    WindowEventKind::Exposed => EventAction::ConfigureSurface,
                    _ => EventAction::Nothing,
                }
            }
        },
        LoopEvent::Quit => EventAction::Quit,
        LoopEvent::Other => EventAction::Nothing,
    }
}

/// Applies one event to the loop state and says what the loop must do next.
/// Events of other windows change nothing; a resize to a size with a zero or
/// negative side is ignored.
pub fn handle_event(state: &mut LoopState, window_id: u32, event: &LoopEvent) -> (action:
    EventAction)
    ensures
        *final(state) == next_state(*old(state), window_id, *event),
        action == event_action(window_id, *event),
        !is_own_window_event(window_id, *event) ==> *final(state) == *old(state),
        final(state).in_background != old(state).in_background ==> is_own_window_event(window_id, *event)
            && (event->kind is Minimized || event->kind is Exposed),
        is_own_window_event(window_id, *event) && event->kind is Minimized ==> final(state).in_background,
        is_own_window_event(window_id, *event) && event->kind is Exposed ==> !final(state).in_background,
        *event is Other ==> action == EventAction::Nothing,
        *event is Quit ==> action == EventAction::Quit,
{
    match event {
        LoopEvent::Window { window_id: id, kind } => {
            if *id != window_id {
                return EventAction::Nothing;
            }
            match kind {
                WindowEventKind::Resized { width, height } => {
                    if *width > 0 && *height > 0 {
                        state.surface_width = *width as u32;
                        state.surface_height = *height as u32;
                        EventAction::ResizeSurface
                    } else {
                        EventAction::Nothing
                    }
                },
                WindowEventKind::Minimized => {
                    state.in_background = true;
                    EventAction::Nothing
                },
                WindowEventKind::Exposed => {
                    state.in_background = false;
                    EventAction::ConfigureSurface
                },
                WindowEventKind::Other => EventAction::Nothing,
            }
        },
        LoopEvent::Quit => EventAction::Quit,
        LoopEvent::Other => EventAction::Nothing,
    }
}

/// Whether the loop builds and renders a frame in this state: not while the
/// window is minimized.
pub fn should_build_frame(state: &LoopState) -> (build: bool)
    ensures
        build == !state.in_background,
{
    !state.in_background
}

/// What the GPU reported when asked for the next surface texture.
#[derive(PartialEq, Eq, Structural, Clone, Copy, Debug)]
pub enum SurfaceStatus {
    Success,
    Suboptimal,
    Outdated,
    Lost,
    Timeout,
    Occluded,
    Validation,
}

/// What the loop does with the surface texture.
#[derive(PartialEq, Eq, Structural, Clone, Copy, Debug)]
pub enum FramePlan {
    /// Render into the texture and present it; configure the surface again
    /// after presenting when the texture was only suboptimal.
    Render { reconfigure_after_present: bool },
    /// Configure the surface again and skip this frame.
    ReconfigureAndSkip,
    /// Skip this frame.
    Skip,
    /// Report a warning and skip this frame.
    WarnAndSkip,
}

/// The plan for each surface status.
pub open spec fn spec_plan_frame(status: SurfaceStatus) -> FramePlan {
    match status {
        SurfaceStatus::Success => FramePlan::Render { reconfigure_after_present: false },
        SurfaceStatus::Suboptimal => FramePlan::Render { reconfigure_after_present: true },
        SurfaceStatus::Outdated | SurfaceStatus::Lost => FramePlan::ReconfigureAndSkip,
        SurfaceStatus::Timeout | SurfaceStatus::Occluded => FramePlan::Skip,
        SurfaceStatus::Validation => FramePlan::WarnAndSkip,
    }
}

/// Decides what to do with the surface texture that the GPU handed back.
pub fn plan_frame(status: SurfaceStatus) -> (plan: FramePlan)
    ensures
        plan == spec_plan_frame(status),
{
    match status {
        SurfaceStatus::Success => FramePlan::Render { reconfigure_after_present: false },
        SurfaceStatus::Suboptimal => FramePlan::Render { reconfigure_after_present: true },
        SurfaceStatus::Outdated | SurfaceStatus::Lost => FramePlan::ReconfigureAndSkip,
        SurfaceStatus::Timeout | SurfaceStatus::Occluded => FramePlan::Skip,
        SurfaceStatus::Validation => FramePlan::WarnAndSkip,
    }
}

/// The state after handling `events` in order, starting from `state`.
pub open spec fn state_after(state: LoopState, window_id: u32, events: Seq<LoopEvent>) -> LoopState
    decreases events.len(),
{
    if events.len() == 0 {
        state
    } else {
        state_after(next_state(state, window_id, events[0]), window_id, events.drop_first())
    }
}

/// Whether `event` is an `Exposed` event of the window `window_id`.
pub open spec fn is_exposed_for(window_id: u32, event: LoopEvent) -> bool {
    event matches LoopEvent::Window { window_id: id, kind: WindowEventKind::Exposed }
        && id == window_id
}

/// Whether `event` is a window event of the window `window_id`.
pub open spec fn is_own_window_event(window_id: u32, event: LoopEvent) -> bool {
    event matches LoopEvent::Window { window_id: id, .. } && id == window_id
}

/// Whether `event` concerns a window other than `window_id`.
pub open spec fn is_for_other_window(window_id: u32, event: LoopEvent) -> bool {
    event matches LoopEvent::Window { window_id: id, .. } && id != window_id
}

/// Only window events of the loop's own window change the loop state: a
/// request to quit, an input event or an event of another window leaves it
/// as it is. Whether the loop is in the background changes only when its
/// window is minimized (it goes into the background) or exposed (it comes
/// back); input events ask for no action.
pub proof fn lemma_only_own_window_changes_state(state: LoopState, window_id: u32, event: LoopEvent)
    ensures
        !is_own_window_event(window_id, event) ==> next_state(state, window_id, event) == state,
        next_state(state, window_id, event).in_background != state.in_background
            ==> is_own_window_event(window_id, event) && (event->kind is Minimized
            || event->kind is Exposed),
        is_own_window_event(window_id, event) && event->kind is Minimized ==> next_state(
            state,
            window_id,
            event,
        ).in_background,
        is_own_window_event(window_id, event) && event->kind is Exposed ==> !next_state(
            state,
            window_id,
            event,
        ).in_background,
        event_action(window_id, LoopEvent::Other) == EventAction::Nothing,
        next_state(state, window_id, LoopEvent::Other) == state,
{
}

/// A request to quit ends the loop in every state, and changes no state.
pub proof fn lemma_quit_ends_loop(state: LoopState, window_id: u32)
    ensures
        event_action(window_id, LoopEvent::Quit) == EventAction::Quit,
        next_state(state, window_id, LoopEvent::Quit) == state,
{
}

/// Events of other windows neither change the loop state nor ask for any
/// action, however many of them come.
pub proof fn lemma_other_windows_ignored(state: LoopState, window_id: u32, events: Seq<LoopEvent>)
    requires
        forall|i: int| 0 <= i < events.len() ==> is_for_other_window(window_id, #[trigger] events[i]),
    ensures
        state_after(state, window_id, events) == state,
        forall|i: int|
            0 <= i < events.len() ==> event_action(window_id, #[trigger] events[i])
                == EventAction::Nothing,
    decreases events.len(),
{
    if events.len() > 0 {
        assert(is_for_other_window(window_id, events[0]));
        assert forall|i: int| 0 <= i < events.drop_first().len() implies is_for_other_window(
            window_id,
            #[trigger] events.drop_first()[i],
        ) by {
            assert(events.drop_first()[i] == events[i + 1]);
        }
        lemma_other_windows_ignored(state, window_id, events.drop_first());
    }
}

/// Once the window is minimized, the loop stays in the background (builds no
/// frames) until the window is exposed again.
pub proof fn lemma_background_until_exposed(
    state: LoopState,
    window_id: u32,
    events: Seq<LoopEvent>,
)
    requires
        state.in_background,
        forall|i: int| 0 <= i < events.len() ==> !is_exposed_for(window_id, #[trigger] events[i]),
    ensures
        state_after(state, window_id, events).in_background,
    decreases events.len(),
{
    if events.len() > 0 {
        assert(!is_exposed_for(window_id, events[0]));
        assert forall|i: int| 0 <= i < events.drop_first().len() implies !is_exposed_for(
            window_id,
            #[trigger] events.drop_first()[i],
        ) by {
            assert(events.drop_first()[i] == events[i + 1]);
        }
        lemma_background_until_exposed(next_state(state, window_id, events[0]), window_id, events.drop_first());
    }
}

/// The surface is never given a zero side: if both sides of the configured
/// size are positive, they stay positive whatever events come.
pub proof fn lemma_surface_size_stays_positive(
    state: LoopState,
    window_id: u32,
    events: Seq<LoopEvent>,
)
    requires
        state.surface_width > 0,
        state.surface_height > 0,
    ensures
        state_after(state, window_id, events).surface_width > 0,
        state_after(state, window_id, events).surface_height > 0,
    decreases events.len(),
{
    if events.len() > 0 {
        lemma_surface_size_stays_positive(next_state(state, window_id, events[0]), window_id, events.drop_first());
    }
}

/// The wait never exceeds one idle frame (17 ms at 60 frames per second),
/// a longer last frame never gives a longer wait, and the wait is zero
/// exactly when less than half a millisecond of the idle frame is left.
pub proof fn lemma_frame_wait_bounds(early: u64, late: u64)
    requires
        early <= late,
    ensures
        spec_frame_wait_ms(early) <= 17,
        spec_frame_wait_ms(late) <= spec_frame_wait_ms(early),
        spec_frame_wait_ms(late) == 0 <==> late >= 16_166_667,
{
    let d = wait_denominator();
    let ne = wait_numerator(early);
    let nl = wait_numerator(late);
    assert(d == 60_000_000);
    if ne > 0 {
        assert((2 * ne + d) / (2 * d) <= 17) by (nonlinear_arith)
            requires
                d == 60_000_000,
                0 < ne <= 1_000_000_000,
        ;
    }
    if nl > 0 {
        assert((2 * nl + d) / (2 * d) <= (2 * ne + d) / (2 * d)) by (nonlinear_arith)
            requires
                d == 60_000_000,
                0 < nl <= ne,
        ;
        assert(((2 * nl + d) / (2 * d) == 0) <==> 2 * nl + d < 2 * d) by (nonlinear_arith)
            requires
                d == 60_000_000,
                0 < nl,
        ;
    }
}

} // verus!
