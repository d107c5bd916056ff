use wgpu_sandbox::app::AppBuilder;
use wgpu_sandbox::gpu::SurfaceState;
use wgpu_sandbox::runner::{AcquireResult, Action, Event, Key, Phase, Runner, WindowEvent};

fn running(overlay: bool) -> Runner {
    let mut r = Runner::new(SurfaceState::new(640, 360), overlay, 0);
    let _ = r.start();
    r
}

#[test]
fn start_creates_instance_then_overlay() {
    let mut r = Runner::new(SurfaceState::new(640, 360), true, 0);
    assert_eq!(r.phase, Phase::Initializing);
    let acts = r.start();
    assert_eq!(acts, vec![Action::CreateInstance, Action::CreateOverlay]);
    assert_eq!(r.phase, Phase::Running);
    assert!(r.overlay_ready);
}

#[test]
fn start_without_overlay() {
    let mut r = Runner::new(SurfaceState::new(640, 360), false, 0);
    let acts = r.start();
    assert_eq!(acts, vec![Action::CreateInstance]);
    assert!(!r.overlay_ready);
}

#[test]
fn resize_updates_surface_and_forwards() {
    let mut r = running(false);
    let acts = r.handle_event(Event::Window {
        event: WindowEvent::Resized { width: 800, height: 600 },
    });
    assert_eq!(r.surface, SurfaceState { width: 800, height: 600 });
    assert_eq!(
        acts,
        vec![Action::ResizeSurface { width: 800, height: 600 }, Action::ForwardEvent]
    );
}

#[test]
fn last_resize_wins() {
    let mut r = running(false);
    for (w, h) in [(100, 100), (1920, 1080), (300, 200)] {
        r.handle_event(Event::Window { event: WindowEvent::Resized { width: w, height: h } });
    }
    r.handle_event(Event::MainEventsCleared { now_ms: 5 });
    r.handle_event(Event::RedrawRequested { acquired: AcquireResult::Acquired });
    assert_eq!(r.surface, SurfaceState { width: 300, height: 200 });
}

#[test]
fn non_resize_events_leave_surface_alone() {
    let mut r = running(false);
    r.handle_event(Event::Window { event: WindowEvent::Other });
    r.handle_event(Event::MainEventsCleared { now_ms: 10 });
    r.handle_event(Event::RedrawRequested { acquired: AcquireResult::Outdated });
    r.handle_event(Event::Other);
    assert_eq!(r.surface, SurfaceState { width: 640, height: 360 });
}

#[test]
fn tick_computes_elapsed_and_requests_redraw() {
    let mut r = running(false);
    let acts = r.handle_event(Event::MainEventsCleared { now_ms: 16 });
    assert_eq!(acts, vec![Action::Update { elapsed_ms: 16 }, Action::RequestRedraw]);
    let acts = r.handle_event(Event::MainEventsCleared { now_ms: 40 });
    assert_eq!(acts, vec![Action::Update { elapsed_ms: 24 }, Action::RequestRedraw]);
    assert_eq!(r.last_frame_ms, 40);
}

#[test]
fn clock_going_backwards_gives_zero_elapsed() {
    let mut r = Runner::new(SurfaceState::new(640, 360), false, 100);
    let _ = r.start();
    let acts = r.handle_event(Event::MainEventsCleared { now_ms: 40 });
    assert_eq!(acts, vec![Action::Update { elapsed_ms: 0 }, Action::RequestRedraw]);
}

#[test]
fn close_request_reaches_shutting_down() {
    let mut r = running(false);
    let acts = r.handle_event(Event::Window { event: WindowEvent::CloseRequested });
    assert_eq!(r.phase, Phase::ShuttingDown);
    assert_eq!(acts, vec![Action::ExitLoop, Action::ForwardEvent]);
}

#[test]
fn escape_press_reaches_shutting_down() {
    let mut r = running(false);
    let acts = r.handle_event(Event::Window {
        event: WindowEvent::KeyboardInput { key: Key::Escape, pressed: true },
    });
    assert_eq!(r.phase, Phase::ShuttingDown);
    assert_eq!(acts, vec![Action::ExitLoop, Action::ForwardEvent]);
}

#[test]
fn escape_release_does_not_shut_down() {
    let mut r = running(false);
    let acts = r.handle_event(Event::Window {
        event: WindowEvent::KeyboardInput { key: Key::Escape, pressed: false },
    });
    assert_eq!(r.phase, Phase::Running);
    assert_eq!(acts, vec![Action::ForwardEvent]);
}

#[test]
fn other_events_never_shut_down() {
    let mut r = running(false);
    r.handle_event(Event::Window {
        event: WindowEvent::KeyboardInput { key: Key::Other, pressed: true },
    });
    r.handle_event(Event::Window { event: WindowEvent::Resized { width: 5, height: 5 } });
    r.handle_event(Event::MainEventsCleared { now_ms: 7 });
    r.handle_event(Event::RedrawRequested { acquired: AcquireResult::Acquired });
    r.handle_event(Event::RedrawRequested { acquired: AcquireResult::OtherError });
    r.handle_event(Event::Other);
    assert_eq!(r.phase, Phase::Running);
}

#[test]
fn destroy_issued_exactly_once_and_last() {
    let mut r = running(false);
    let mut all: Vec<Action> = Vec::new();
    all.extend(r.handle_event(Event::MainEventsCleared { now_ms: 16 }));
    all.extend(r.handle_event(Event::RedrawRequested { acquired: AcquireResult::Acquired }));
    all.extend(r.handle_event(Event::Window { event: WindowEvent::CloseRequested }));
    all.extend(r.handle_event(Event::LoopDestroyed));
    let destroys = all.iter().filter(|a| matches!(a, Action::Destroy)).count();
    assert_eq!(destroys, 1);
    let destroy_at = all.iter().position(|a| matches!(a, Action::Destroy)).unwrap();
    let last_work = all
        .iter()
        .rposition(|a| {
            matches!(
                a,
                Action::Update { .. }
                    | Action::RenderMain
                    | Action::RenderOverlay { .. }
                    | Action::Present
            )
        })
        .unwrap();
    assert!(last_work < destroy_at);
    assert!(r.destroyed);
}

#[test]
fn nothing_after_destroy() {
    let mut r = running(false);
    r.handle_event(Event::LoopDestroyed);
    let acts = r.handle_event(Event::LoopDestroyed);
    assert!(acts.is_empty());
    let acts = r.handle_event(Event::MainEventsCleared { now_ms: 99 });
    assert!(acts.is_empty());
}

#[test]
fn surface_errors_skip_or_report() {
    let mut r = running(false);
    let acts = r.handle_event(Event::RedrawRequested { acquired: AcquireResult::Outdated });
    assert_eq!(acts, vec![Action::SkipFrame]);
    let acts = r.handle_event(Event::RedrawRequested { acquired: AcquireResult::OtherError });
    assert_eq!(acts, vec![Action::ReportError]);
    assert_eq!(r.phase, Phase::Running);
}

#[test]
fn default_build_one_tick_scenario() {
    let b = AppBuilder::new();
    let mut r = b.runner(false, 0);
    assert_eq!(r.surface, SurfaceState { width: 640, height: 360 });
    let _ = r.start();
    r.handle_event(Event::Window { event: WindowEvent::Resized { width: 800, height: 600 } });
    let acts = r.handle_event(Event::MainEventsCleared { now_ms: 16 });
    assert_eq!(r.surface, SurfaceState { width: 800, height: 600 });
    assert_eq!(acts[0], Action::Update { elapsed_ms: 16 });
}
