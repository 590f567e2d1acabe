//! Routing of window events between the debug overlay and the application.

use vstd::prelude::*;

verus! {

/// What an event is about, as far as routing goes.
#[derive(Clone, Copy, Debug, PartialEq, Eq, Structural)]
pub enum EventKind {
    /// A key was pressed or released.
    KeyboardInput,
    /// The state of the modifier keys changed.
    ModifiersChanged,
    /// The cursor moved within the window.
    CursorMoved,
    /// The cursor entered the window.
    CursorEntered,
    /// The cursor left the window.
    CursorLeft,
    /// The mouse wheel turned.
    MouseWheel,
    /// A mouse button was pressed or released.
    MouseInput,
    /// Pressure on a touchpad changed.
    TouchpadPressure,
    /// Any other event of the window.
    OtherWindowEvent,
    /// An event that is not about the window.
    Other,
}

/// Whether an event of kind `event` is passed on to the application, once
/// the overlay has seen it: keyboard events unless the overlay wants the
/// keyboard, pointer events unless it wants the mouse, every other event
/// always.
pub open spec fn passes_to_app(event: EventKind, want_capture_keyboard: bool, want_capture_mouse: bool) -> bool {
    match event {
        EventKind::KeyboardInput | EventKind::ModifiersChanged => !want_capture_keyboard,
        EventKind::CursorMoved
        | EventKind::CursorEntered
        | EventKind::CursorLeft
        | EventKind::MouseWheel
        | EventKind::MouseInput
        | EventKind::TouchpadPressure => !want_capture_mouse,
        EventKind::OtherWindowEvent | EventKind::Other => true,
    }
}

/// Decides whether an event that the overlay has seen is passed on to the
/// application.
pub fn handle_event(event: EventKind, want_capture_keyboard: bool, want_capture_mouse: bool) -> (pass: bool)
    ensures
        pass == passes_to_app(event, want_capture_keyboard, want_capture_mouse),
{
    match event {
        EventKind::KeyboardInput | EventKind::ModifiersChanged => !want_capture_keyboard,
        EventKind::CursorMoved
        | EventKind::CursorEntered
        | EventKind::CursorLeft
        | EventKind::MouseWheel
        | EventKind::MouseInput
        | EventKind::TouchpadPressure => !want_capture_mouse,
        EventKind::OtherWindowEvent | EventKind::Other => true,
    }
}

} // verus!
