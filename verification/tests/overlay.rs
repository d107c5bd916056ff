use wgpu_sandbox::gpu::SurfaceState;
use wgpu_sandbox::runner::{AcquireResult, Action, Event, Runner, WindowEvent};

fn running_with_overlay() -> Runner {
    let mut r = Runner::new(SurfaceState::new(640, 360), true, 0);
    let _ = r.start();
    r
}

#[test]
fn overlay_renders_after_main_and_before_present() {
    let mut r = running_with_overlay();
    r.handle_event(Event::MainEventsCleared { now_ms: 16 });
    let acts = r.handle_event(Event::RedrawRequested { acquired: AcquireResult::Acquired });
    assert_eq!(
        acts,
        vec![
            Action::RenderMain,
            Action::RenderOverlay { elapsed_ms: 16 },
            Action::Present,
            Action::OverlayHandleEvent,
        ]
    );
}

#[test]
fn no_overlay_render_when_disabled() {
    let mut r = Runner::new(SurfaceState::new(640, 360), false, 0);
    let _ = r.start();
    let acts = r.handle_event(Event::RedrawRequested { acquired: AcquireResult::Acquired });
    assert_eq!(acts, vec![Action::RenderMain, Action::Present]);
}

#[test]
fn no_overlay_render_before_overlay_exists() {
    let mut r = Runner::new(SurfaceState::new(640, 360), true, 0);
    // The loop has not started: the overlay context does not exist yet.
    let acts = r.handle_event(Event::RedrawRequested { acquired: AcquireResult::Acquired });
    assert!(!acts.contains(&Action::RenderOverlay { elapsed_ms: 0 }));
    assert!(!acts.contains(&Action::OverlayHandleEvent));
}

#[test]
fn every_event_reaches_overlay_adapter() {
    let mut r = running_with_overlay();
    let events = [
        Event::Window { event: WindowEvent::Other },
        Event::MainEventsCleared { now_ms: 3 },
        Event::RedrawRequested { acquired: AcquireResult::Outdated },
        Event::Other,
        Event::LoopDestroyed,
    ];
    for e in events {
        let acts = r.handle_event(e);
        assert_eq!(acts.last(), Some(&Action::OverlayHandleEvent));
    }
}

#[test]
fn overlay_skipped_frame_has_no_draw_actions() {
    let mut r = running_with_overlay();
    let acts = r.handle_event(Event::RedrawRequested { acquired: AcquireResult::Outdated });
    assert_eq!(acts, vec![Action::SkipFrame, Action::OverlayHandleEvent]);
}
