//! The frame-loop state machine: a lifecycle of Initializing, Running and
//! ShuttingDown, advanced one event at a time. Each step yields the actions
//! the host must perform in order — create and destroy the user application,
//! forward events, resize the surface, update, render, overlay, present.
//! The host's event loop owns the window and device handles and performs the
//! actions; every decision of the loop is taken here.

use vstd::prelude::*;
use crate::app::AppBuilder;
use crate::gpu::SurfaceState;

verus! {

/// A key on the keyboard, as far as the loop distinguishes them.
#[derive(Debug, Clone, Copy, PartialEq, Eq, Structural)]
pub enum Key {
    Escape,
    Other,
}

/// A window event, as far as the loop distinguishes them. Every window event
/// is also forwarded verbatim to the user application's `events` hook.
#[derive(Debug, Clone, Copy, PartialEq, Eq, Structural)]
pub enum WindowEvent {
    CloseRequested,
    KeyboardInput { key: Key, pressed: bool },
    Resized { width: u32, height: u32 },
    Other,
}

/// The outcome of acquiring the next presentable frame from the surface.
#[derive(Debug, Clone, Copy, PartialEq, Eq, Structural)]
pub enum AcquireResult {
    Acquired,
    Outdated,
    OtherError,
}

/// One event delivered by the event source.
#[derive(Debug, Clone, Copy, PartialEq, Eq, Structural)]
pub enum Event {
    Window { event: WindowEvent },
    /// All pending window events are drained; `now_ms` is the current time.
    MainEventsCleared { now_ms: u64 },
    /// A redraw was requested and frame acquisition had this outcome.
    RedrawRequested { acquired: AcquireResult },
    /// The event source is shutting the loop down; nothing follows this.
    LoopDestroyed,
    Other,
}

/// An action the host must perform, in the order the actions are yielded.
#[derive(Debug, Clone, Copy, PartialEq, Eq, Structural)]
pub enum Action {
    /// Construct the user application from the device context.
    CreateInstance,
    /// Construct the overlay context (only when overlay support is on).
    CreateOverlay,
    /// Forward the current window event to the user application's `events` hook.
    ForwardEvent,
    /// Reconfigure the presentable surface to the new client size.
    ResizeSurface { width: u32, height: u32 },
    /// Call the user application's `update` hook with the elapsed time.
    Update { elapsed_ms: u64 },
    /// Ask the window for a redraw.
    RequestRedraw,
    /// Call the user application's `render` hook on the acquired frame.
    RenderMain,
    /// Prepare and render the overlay into the frame, loading (not clearing)
    /// the main render's output, and submit its command buffer.
    RenderOverlay { elapsed_ms: u64 },
    /// Present the acquired frame.
    Present,
    /// Log that the surface was outdated and skip this frame.
    SkipFrame,
    /// Log an unclassified frame-acquisition error and continue.
    ReportError,
    /// Call the user application's `destroy` hook.
    Destroy,
    /// Tell the event source to exit the loop.
    ExitLoop,
    /// Let the overlay's platform adapter see the current event.
    OverlayHandleEvent,
}

/// The lifecycle phase of the runner.
#[derive(Debug, Clone, Copy, PartialEq, Eq, Structural)]
pub enum Phase {
    Initializing,
    Running,
    ShuttingDown,
}

/// The state the frame loop carries between events.
#[derive(Debug, Clone, Copy, PartialEq, Eq, Structural)]
pub struct Runner {
    pub phase: Phase,
    /// Model of the device context's surface configuration.
    pub surface: SurfaceState,
    /// Whether overlay support is enabled at all.
    pub overlay_enabled: bool,
    /// Whether the overlay context has been created.
    pub overlay_ready: bool,
    /// Whether the user application's `destroy` hook has been issued.
    pub destroyed: bool,
    /// Time of the last tick, in milliseconds.
    pub last_frame_ms: u64,
    /// Elapsed time computed at the last tick, in milliseconds.
    pub elapsed_ms: u64,
}

/// The elapsed time between the last tick and now. The clock is monotonic;
/// should it ever step backwards the elapsed time is zero.
pub open spec fn spec_elapsed(last: u64, now: u64) -> u64 {
    if now >= last {
        (now - last) as u64
    } else {
        0
    }
}

/// Whether this event moves the loop to ShuttingDown: a close request, or
/// the Escape key going down. No other event does.
pub open spec fn is_shutdown_trigger(e: Event) -> bool {
    match e {
        Event::Window { event } => match event {
            WindowEvent::CloseRequested => true,
            WindowEvent::KeyboardInput { key, pressed } => key is Escape && pressed,
            _ => false,
        },
        _ => false,
    }
}

/// The actions the overlay's platform adapter gets after every event, once
/// the overlay context exists.
pub open spec fn overlay_tail(s: Runner) -> Seq<Action> {
    if s.overlay_enabled && s.overlay_ready {
        seq![Action::OverlayHandleEvent]
    } else {
        Seq::<Action>::empty()
    }
}

/// The built-in handling of a window event, followed by forwarding it to the
/// user application.
pub open spec fn window_actions(event: WindowEvent) -> Seq<Action> {
    (match event {
        WindowEvent::CloseRequested => seq![Action::ExitLoop],
        WindowEvent::KeyboardInput { key, pressed } => if key is Escape && pressed {
            seq![Action::ExitLoop]
        } else {
            Seq::<Action>::empty()
        },
        WindowEvent::Resized { width, height } => seq![Action::ResizeSurface { width, height }],
        WindowEvent::Other => Seq::<Action>::empty(),
    }) + seq![Action::ForwardEvent]
}

/// The state after handling one event.
pub open spec fn next_state(s: Runner, e: Event) -> Runner {
    if s.destroyed {
        s
    } else {
        match e {
            Event::Window { event } => {
                let s1 = if is_shutdown_trigger(e) {
                    Runner { phase: Phase::ShuttingDown, ..s }
                } else {
                    s
                };
                match event {
                    WindowEvent::Resized { width, height } => Runner {
                        surface: SurfaceState { width, height },
                        ..s1
                    },
                    _ => s1,
                }
            },
            Event::MainEventsCleared { now_ms } => Runner {
                last_frame_ms: now_ms,
                elapsed_ms: spec_elapsed(s.last_frame_ms, now_ms),
                ..s
            },
            Event::RedrawRequested { .. } => s,
            Event::LoopDestroyed => Runner { destroyed: true, ..s },
            Event::Other => s,
        }
    }
}

/// The actions yielded for one event, in order.
pub open spec fn actions_of(s: Runner, e: Event) -> Seq<Action> {
    if s.destroyed {
        Seq::<Action>::empty()
    } else {
        (match e {
            Event::Window { event } => window_actions(event),
            Event::MainEventsCleared { now_ms } => seq![
                Action::Update { elapsed_ms: spec_elapsed(s.last_frame_ms, now_ms) },
                Action::RequestRedraw,
            ],
            Event::RedrawRequested { acquired } => match acquired {
                AcquireResult::Acquired => seq![Action::RenderMain] + (if s.overlay_enabled
                    && s.overlay_ready {
                    seq![Action::RenderOverlay { elapsed_ms: s.elapsed_ms }]
                } else {
                    Seq::<Action>::empty()
                }) + seq![Action::Present],
                AcquireResult::Outdated => seq![Action::SkipFrame],
                AcquireResult::OtherError => seq![Action::ReportError],
            },
            Event::LoopDestroyed => seq![Action::Destroy],
            Event::Other => Seq::<Action>::empty(),
        }) + overlay_tail(s)
    }
}

/// The actions that move the loop from Initializing to Running: create the
/// user application, then (when overlay support is on) the overlay context.
pub open spec fn start_actions(overlay_enabled: bool) -> Seq<Action> {
    if overlay_enabled {
        seq![Action::CreateInstance, Action::CreateOverlay]
    } else {
        seq![Action::CreateInstance]
    }
}

impl Runner {
    /// A fresh runner: not yet running, surface at the window's initial
    /// client size, clock at `start_ms`, nothing created or destroyed.
    pub fn new(surface: SurfaceState, overlay_enabled: bool, start_ms: u64) -> (r: Runner)
        ensures
            r.phase is Initializing,
            r.surface == surface,
            r.overlay_enabled == overlay_enabled,
            !r.overlay_ready,
            !r.destroyed,
            r.last_frame_ms == start_ms,
            r.elapsed_ms == 0,
    {
        Runner {
            phase: Phase::Initializing,
            surface,
            overlay_enabled,
            overlay_ready: false,
            destroyed: false,
            last_frame_ms: start_ms,
            elapsed_ms: 0,
        }
    }

    /// Enter the Running phase: the user application is created first, then
    /// the overlay context when overlay support is on.
    pub fn start(&mut self) -> (acts: Vec<Action>)
        requires
            old(self).phase is Initializing,
        ensures
            final(self).phase is Running,
            final(self).overlay_ready == old(self).overlay_enabled,
            final(self).surface == old(self).surface,
            final(self).overlay_enabled == old(self).overlay_enabled,
            final(self).destroyed == old(self).destroyed,
            final(self).last_frame_ms == old(self).last_frame_ms,
            final(self).elapsed_ms == old(self).elapsed_ms,
            acts@ == start_actions(old(self).overlay_enabled),
    {
        self.phase = Phase::Running;
        self.overlay_ready = self.overlay_enabled;
        let mut acts: Vec<Action> = Vec::new();
        acts.push(Action::CreateInstance);
        if self.overlay_enabled {
            acts.push(Action::CreateOverlay);
        }
        proof {
            assert(acts@ =~= start_actions(self.overlay_enabled));
        }
        acts
    }

    /// Handle one event: update the state as `next_state` says and yield the
    /// actions `actions_of` lists, in that order.
    pub fn handle_event(&mut self, e: Event) -> (acts: Vec<Action>)
        ensures
            *final(self) == next_state(*old(self), e),
            acts@ == actions_of(*old(self), e),
    {
        let ghost s0 = *self;
        let mut acts: Vec<Action> = Vec::new();
        if self.destroyed {
            proof {
                assert(acts@ =~= actions_of(s0, e));
            }
            return acts;
        }
        match e {
            Event::Window { event } => {
                match event {
                    WindowEvent::CloseRequested => {
                        self.phase = Phase::ShuttingDown;
                        acts.push(Action::ExitLoop);
                    },
                    WindowEvent::KeyboardInput { key, pressed } => {
                        match key {
                            Key::Escape => {
                                if pressed {
                                    self.phase = Phase::ShuttingDown;
                                    acts.push(Action::ExitLoop);
                                }
                            },
                            Key::Other => {},
                        }
                    },
                    WindowEvent::Resized { width, height } => {
                        self.surface.resize_surface((width, height));
                        acts.push(Action::ResizeSurface { width, height });
                    },
                    WindowEvent::Other => {},
                }
                acts.push(Action::ForwardEvent);
            },
            Event::MainEventsCleared { now_ms } => {
                let dt = if now_ms >= self.last_frame_ms {
                    now_ms - self.last_frame_ms
                } else {
                    0
                };
                self.elapsed_ms = dt;
                self.last_frame_ms = now_ms;
                acts.push(Action::Update { elapsed_ms: dt });
                acts.push(Action::RequestRedraw);
            },
            Event::RedrawRequested { acquired } => {
                match acquired {
                    AcquireResult::Acquired => {
                        acts.push(Action::RenderMain);
                        if self.overlay_enabled && self.overlay_ready {
                            acts.push(Action::RenderOverlay { elapsed_ms: self.elapsed_ms });
                        }
                        acts.push(Action::Present);
                    },
                    AcquireResult::Outdated => {
                        acts.push(Action::SkipFrame);
                    },
                    AcquireResult::OtherError => {
                        acts.push(Action::ReportError);
                    },
                }
            },
            Event::LoopDestroyed => {
                self.destroyed = true;
                acts.push(Action::Destroy);
            },
            Event::Other => {},
        }
        if self.overlay_enabled && self.overlay_ready {
            acts.push(Action::OverlayHandleEvent);
        }
        proof {
            assert(acts@ =~= actions_of(s0, e));
        }
        acts
    }
}

/// The state after handling a whole sequence of events, first to last.
pub open spec fn run_events(s: Runner, es: Seq<Event>) -> Runner
    decreases es.len(),
{
    if es.len() == 0 {
        s
    } else {
        run_events(next_state(s, es.first()), es.drop_first())
    }
}

/// All actions yielded while handling a whole sequence of events, in order.
pub open spec fn run_actions(s: Runner, es: Seq<Event>) -> Seq<Action>
    decreases es.len(),
{
    if es.len() == 0 {
        Seq::<Action>::empty()
    } else {
        actions_of(s, es.first()) + run_actions(next_state(s, es.first()), es.drop_first())
    }
}

/// The surface size a resize event carries, if it is one.
pub open spec fn resize_of(e: Event) -> Option<SurfaceState> {
    match e {
        Event::Window { event: WindowEvent::Resized { width, height } } => Some(
            SurfaceState { width, height },
        ),
        _ => None,
    }
}

/// How many destroy actions a yielded sequence holds.
pub open spec fn count_destroys(acts: Seq<Action>) -> nat
    decreases acts.len(),
{
    if acts.len() == 0 {
        0
    } else {
        (if acts.first() is Destroy {
            1nat
        } else {
            0nat
        }) + count_destroys(acts.drop_first())
    }
}

/// An action that belongs to a frame's work: updating or drawing.
pub open spec fn is_frame_work(a: Action) -> bool {
    ||| a is Update
    ||| a is RenderMain
    ||| a is RenderOverlay
    ||| a is Present
}

/// Law: while the loop is alive, events that are not resizes leave the
/// surface configuration as it is.
pub proof fn lemma_no_resize_no_surface_change(s: Runner, es: Seq<Event>)
    requires
        !s.destroyed,
        forall|i: int| 0 <= i < es.len() ==> !(#[trigger] es[i] is LoopDestroyed),
        forall|i: int| 0 <= i < es.len() ==> (#[trigger] resize_of(es[i])) is None,
    ensures
        run_events(s, es).surface == s.surface,
    decreases es.len(),
{
    if es.len() > 0 {
        let s1 = next_state(s, es.first());
        assert(resize_of(es[0]) is None);
        assert(!(es[0] is LoopDestroyed));
        assert(s1.surface == s.surface);
        assert(!s1.destroyed);
        assert forall|i: int| 0 <= i < es.drop_first().len() implies !(#[trigger] es.drop_first()[i]
            is LoopDestroyed) && (resize_of(es.drop_first()[i]) is None) by {
            assert(es.drop_first()[i] == es[i + 1]);
        }
        lemma_no_resize_no_surface_change(s1, es.drop_first());
    }
}

/// Law: for every sequence of events the loop survives, the surface
/// configuration ends equal to the size carried by the most recent resize
/// event. Together with `lemma_no_resize_no_surface_change` this covers the
/// whole resize history of a run.
pub proof fn lemma_surface_matches_last_resize(s: Runner, es: Seq<Event>, k: int)
    requires
        !s.destroyed,
        forall|i: int| 0 <= i < es.len() ==> !(#[trigger] es[i] is LoopDestroyed),
        0 <= k < es.len(),
        resize_of(es[k]) is Some,
        forall|j: int| k < j < es.len() ==> (#[trigger] resize_of(es[j])) is None,
    ensures
        resize_of(es[k]) == Some(run_events(s, es).surface),
    decreases es.len(),
{
    let s1 = next_state(s, es.first());
    assert(!(es[0] is LoopDestroyed));
    assert(!s1.destroyed);
    assert forall|i: int| 0 <= i < es.drop_first().len() implies !(#[trigger] es.drop_first()[i]
        is LoopDestroyed) by {
        assert(es.drop_first()[i] == es[i + 1]);
    }
    if k == 0 {
        assert(s1.surface == resize_of(es[0]).unwrap());
        assert forall|i: int| 0 <= i < es.drop_first().len() implies (#[trigger] resize_of(
            es.drop_first()[i],
        )) is None by {
            assert(es.drop_first()[i] == es[i + 1]);
        }
        lemma_no_resize_no_surface_change(s1, es.drop_first());
    } else {
        assert(es.drop_first()[k - 1] == es[k]);
        assert forall|j: int| k - 1 < j < es.drop_first().len() implies (#[trigger] resize_of(
            es.drop_first()[j],
        )) is None by {
            assert(es.drop_first()[j] == es[j + 1]);
        }
        lemma_surface_matches_last_resize(s1, es.drop_first(), k - 1);
    }
}

proof fn lemma_count_destroys_add(a: Seq<Action>, b: Seq<Action>)
    ensures
        count_destroys(a + b) == count_destroys(a) + count_destroys(b),
    decreases a.len(),
{
    if a.len() == 0 {
        assert(a + b =~= b);
    } else {
        assert((a + b).first() == a.first());
        assert((a + b).drop_first() =~= a.drop_first() + b);
        lemma_count_destroys_add(a.drop_first(), b);
    }
}

proof fn lemma_count_destroys_zero(acts: Seq<Action>)
    requires
        forall|i: int| 0 <= i < acts.len() ==> !(#[trigger] acts[i] is Destroy),
    ensures
        count_destroys(acts) == 0,
    decreases acts.len(),
{
    if acts.len() > 0 {
        assert(!(acts[0] is Destroy));
        assert forall|i: int| 0 <= i < acts.drop_first().len() implies !(
        #[trigger] acts.drop_first()[i] is Destroy) by {
            assert(acts.drop_first()[i] == acts[i + 1]);
        }
        lemma_count_destroys_zero(acts.drop_first());
    }
}

proof fn lemma_count_destroys_zero_at(acts: Seq<Action>, i: int)
    requires
        count_destroys(acts) == 0,
        0 <= i < acts.len(),
    ensures
        !(acts[i] is Destroy),
    decreases acts.len(),
{
    if i > 0 {
        assert(acts.drop_first()[i - 1] == acts[i]);
        lemma_count_destroys_zero_at(acts.drop_first(), i - 1);
    }
}

/// No event other than loop destruction ever yields a destroy action.
proof fn lemma_step_no_destroy(s: Runner, e: Event)
    requires
        !(e is LoopDestroyed),
    ensures
        count_destroys(actions_of(s, e)) == 0,
{
    assert forall|i: int| 0 <= i < actions_of(s, e).len() implies !(#[trigger] actions_of(s, e)[i]
        is Destroy) by {
        let acts = actions_of(s, e);
        assert(!(acts[i] is Destroy));
    }
    lemma_count_destroys_zero(actions_of(s, e));
}

/// Law: in a run whose event stream ends with loop destruction — and where
/// destruction arrives only there, as the event source guarantees — the
/// destroy hook is issued exactly once, and no update, render, overlay or
/// present action follows it.
pub proof fn lemma_destroy_once_and_after_all_work(s: Runner, es: Seq<Event>)
    requires
        !s.destroyed,
        es.len() > 0,
        es.last() is LoopDestroyed,
        forall|i: int| 0 <= i < es.len() - 1 ==> !(#[trigger] es[i] is LoopDestroyed),
    ensures
        count_destroys(run_actions(s, es)) == 1,
        forall|i: int, j: int|
            #![trigger run_actions(s, es)[i], run_actions(s, es)[j]]
            0 <= i < j < run_actions(s, es).len() && run_actions(s, es)[i] is Destroy
                ==> !is_frame_work(run_actions(s, es)[j]),
    decreases es.len(),
{
    let acts = run_actions(s, es);
    let head = actions_of(s, es.first());
    let s1 = next_state(s, es.first());
    let rest = es.drop_first();
    assert(acts == head + run_actions(s1, rest));
    if es.len() == 1 {
        assert(es.first() == es.last());
        assert(rest =~= Seq::<Event>::empty());
        assert(acts =~= head);
        assert(head == seq![Action::Destroy] + overlay_tail(s));
        assert(count_destroys(seq![Action::Destroy] + overlay_tail(s)) == 1) by {
            lemma_count_destroys_add(seq![Action::Destroy], overlay_tail(s));
            assert(seq![Action::Destroy].drop_first() =~= Seq::<Action>::empty());
            assert(count_destroys(Seq::<Action>::empty()) == 0);
            assert(count_destroys(seq![Action::Destroy]) == 1);
            assert forall|i: int| 0 <= i < overlay_tail(s).len() implies !(
            #[trigger] overlay_tail(s)[i] is Destroy) by {}
            lemma_count_destroys_zero(overlay_tail(s));
        }
        assert forall|i: int, j: int|
            #![trigger acts[i], acts[j]]
            0 <= i < j < acts.len() && acts[i] is Destroy implies !is_frame_work(acts[j]) by {
            assert(acts[j] == Action::OverlayHandleEvent);
        }
    } else {
        assert(!(es[0] is LoopDestroyed));
        assert(!s1.destroyed);
        assert(rest.len() == es.len() - 1);
        assert(rest.last() == es.last());
        assert forall|i: int| 0 <= i < rest.len() - 1 implies !(#[trigger] rest[i]
            is LoopDestroyed) by {
            assert(rest[i] == es[i + 1]);
        }
        lemma_destroy_once_and_after_all_work(s1, rest);
        let tail = run_actions(s1, rest);
        lemma_step_no_destroy(s, es.first());
        lemma_count_destroys_add(head, tail);
        assert(count_destroys(acts) == 1);
        assert forall|i: int, j: int|
            #![trigger acts[i], acts[j]]
            0 <= i < j < acts.len() && acts[i] is Destroy implies !is_frame_work(acts[j]) by {
            if i < head.len() {
                lemma_count_destroys_zero_at(head, i);
                assert(false);
            } else {
                assert(tail[i - head.len()] == acts[i]);
                assert(tail[j - head.len()] == acts[j]);
            }
        }
    }
}

/// Law: a step of the loop ends in ShuttingDown exactly when it was already
/// shutting down, or the event is a close request or a pressed Escape key.
/// No other event class reaches ShuttingDown.
pub proof fn lemma_shutdown_iff_close_or_escape(s: Runner, e: Event)
    ensures
        (next_state(s, e).phase is ShuttingDown) <==> (s.phase is ShuttingDown || (!s.destroyed
            && is_shutdown_trigger(e))),
{
}

/// Law: a whole run never reaches ShuttingDown unless some event in it is a
/// close request or a pressed Escape key.
pub proof fn lemma_run_shutdown_needs_trigger(s: Runner, es: Seq<Event>)
    requires
        !(s.phase is ShuttingDown),
        forall|i: int| 0 <= i < es.len() ==> !is_shutdown_trigger(#[trigger] es[i]),
    ensures
        !(run_events(s, es).phase is ShuttingDown),
    decreases es.len(),
{
    if es.len() > 0 {
        let s1 = next_state(s, es.first());
        assert(!is_shutdown_trigger(es[0]));
        lemma_shutdown_iff_close_or_escape(s, es.first());
        assert forall|i: int| 0 <= i < es.drop_first().len() implies !is_shutdown_trigger(
            #[trigger] es.drop_first()[i],
        ) by {
            assert(es.drop_first()[i] == es[i + 1]);
        }
        lemma_run_shutdown_needs_trigger(s1, es.drop_first());
    }
}

/// Law: once the loop is shutting down, it stays shutting down; no event
/// returns it to an earlier phase.
pub proof fn lemma_shutdown_is_absorbing(s: Runner, es: Seq<Event>)
    requires
        s.phase is ShuttingDown,
    ensures
        run_events(s, es).phase is ShuttingDown,
    decreases es.len(),
{
    if es.len() > 0 {
        lemma_shutdown_is_absorbing(next_state(s, es.first()), es.drop_first());
    }
}

/// Law: a close request or a pressed Escape key does reach ShuttingDown: any
/// run of a live loop that contains one ends shutting down.
pub proof fn lemma_close_or_escape_reaches_shutdown(s: Runner, es: Seq<Event>, k: int)
    requires
        !s.destroyed,
        0 <= k < es.len(),
        is_shutdown_trigger(es[k]),
        forall|i: int| 0 <= i < k ==> !(#[trigger] es[i] is LoopDestroyed),
    ensures
        run_events(s, es).phase is ShuttingDown,
    decreases es.len(),
{
    let s1 = next_state(s, es.first());
    if k == 0 {
        lemma_shutdown_is_absorbing(s1, es.drop_first());
    } else {
        assert(!(es[0] is LoopDestroyed));
        assert(!s1.destroyed);
        assert(es.drop_first()[k - 1] == es[k]);
        assert forall|i: int| 0 <= i < k - 1 implies !(#[trigger] es.drop_first()[i]
            is LoopDestroyed) by {
            assert(es.drop_first()[i] == es[i + 1]);
        }
        lemma_close_or_escape_reaches_shutdown(s1, es.drop_first(), k - 1);
    }
}

/// Law: whenever a step yields overlay rendering, the overlay context exists,
/// the action comes immediately after the main render and immediately before
/// presentation: main render first, overlay second, present last.
pub proof fn lemma_overlay_between_main_and_present(s: Runner, e: Event)
    ensures
        forall|i: int|
            0 <= i < actions_of(s, e).len() && (#[trigger] actions_of(s, e)[i]) is RenderOverlay
                ==> s.overlay_enabled && s.overlay_ready && 0 < i && actions_of(s, e)[i - 1]
                is RenderMain && i + 1 < actions_of(s, e).len() && actions_of(s, e)[i + 1]
                is Present,
{
    let acts = actions_of(s, e);
    assert forall|i: int|
        0 <= i < acts.len() && (#[trigger] acts[i]) is RenderOverlay implies s.overlay_enabled
        && s.overlay_ready && 0 < i && acts[i - 1] is RenderMain && i + 1 < acts.len() && acts[i
        + 1] is Present by {
        if !s.destroyed {
            match e {
                Event::RedrawRequested { acquired: AcquireResult::Acquired } => {
                    if s.overlay_enabled && s.overlay_ready {
                        assert(acts =~= seq![
                            Action::RenderMain,
                            Action::RenderOverlay { elapsed_ms: s.elapsed_ms },
                            Action::Present,
                            Action::OverlayHandleEvent,
                        ]);
                        assert(i == 1);
                    } else {
                        assert(acts =~= seq![Action::RenderMain, Action::Present]);
                        assert(false);
                    }
                },
                _ => {},
            }
        }
    }
}

impl AppBuilder {
    /// The runner a freshly built application starts its loop with: surface
    /// sized to the requested window dimension, phase Initializing.
    pub fn runner(&self, overlay_enabled: bool, start_ms: u64) -> (r: Runner)
        ensures
            r.phase is Initializing,
            r.surface.width == self.dim.width,
            r.surface.height == self.dim.height,
            r.overlay_enabled == overlay_enabled,
            !r.overlay_ready,
            !r.destroyed,
            r.last_frame_ms == start_ms,
            r.elapsed_ms == 0,
    {
        Runner::new(SurfaceState::new(self.dim.width, self.dim.height), overlay_enabled, start_ms)
    }
}

} // verus!

