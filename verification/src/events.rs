//! Decisions of the window event loop, separated from the windowing calls
//! that carry them out.

use vstd::prelude::*;

verus! {

/// The window events the application reacts to, reduced to plain values.
#[derive(Clone, Copy, Debug, PartialEq, Eq, Structural)]
pub enum WindowEventKind {
    /// The user asked to close the window.
    CloseRequested,
    /// The window was resized to the given width and height in pixels.
    Resized(u32, u32),
    /// The platform asked for the window to be redrawn.
    RedrawRequested,
    /// Any other event; the application ignores it.
    Other,
}

/// What the event loop should do in response to one window event.
#[derive(Clone, Copy, Debug, PartialEq, Eq, Structural)]
pub enum EventAction {
    /// Stop the event loop.
    Exit,
    /// Reconfigure the surface to the given size and request a redraw.
    ResizeAndRedraw(u32, u32),
    /// Draw one frame.
    Redraw,
    /// Do nothing.
    Ignore,
}

/// Decide the event loop's response to one window event.
///
/// A resize or redraw is acted on only once the render context exists.
pub fn handle_window_event(ctx_ready: bool, event: WindowEventKind) -> (action: EventAction)
    ensures
        event is CloseRequested ==> action is Exit,
        forall|w: u32, h: u32|
            event == WindowEventKind::Resized(w, h) && ctx_ready ==> action
                == EventAction::ResizeAndRedraw(w, h),
        event is Resized && !ctx_ready ==> action is Ignore,
        event is RedrawRequested && ctx_ready ==> action is Redraw,
        event is RedrawRequested && !ctx_ready ==> action is Ignore,
        event is Other ==> action is Ignore,
{
    match event {
        WindowEventKind::CloseRequested => EventAction::Exit,
        WindowEventKind::Resized(w, h) => {
            if ctx_ready {
                EventAction::ResizeAndRedraw(w, h)
            } else {
                EventAction::Ignore
            }
        },
        WindowEventKind::RedrawRequested => {
            if ctx_ready {
                EventAction::Redraw
            } else {
                EventAction::Ignore
            }
        },
        WindowEventKind::Other => EventAction::Ignore,
    }
}

/// Decide whether the application, on being resumed, must create its window
/// and render contexts: exactly when no window exists yet.
pub fn should_create_window(window_exists: bool) -> (create: bool)
    ensures
        create == !window_exists,
{
    !window_exists
}

/// Clamp a window size to the smallest extent a surface accepts: each
/// dimension is kept, except that zero becomes one.
pub fn clamped_size(width: u32, height: u32) -> (size: (u32, u32))
    ensures
        size.0 == if width == 0 { 1u32 } else { width },
        size.1 == if height == 0 { 1u32 } else { height },
{
    let w = if width == 0 { 1 } else { width };
    let h = if height == 0 { 1 } else { height };
    (w, h)
}

} // verus!
