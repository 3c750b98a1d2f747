//! The stimuli the coordinator reacts to, as plain values.
//!
//! The host framework delivers its events as framework objects; before a
//! decision is made it reduces each to one of the types here: what a
//! visibility query answered, which mouse button did what on the tray icon,
//! and what kind of window event arrived.

use vstd::prelude::*;

verus! {

/// The answer of a window visibility query.
///
/// `Unknown` records a query that failed.  The coordinator folds `Unknown`
/// into the not-visible case on purpose: a toggle on a window whose state
/// cannot be read attempts to show it rather than silently doing nothing.
#[derive(Clone, Copy, Debug, PartialEq, Eq, Structural)]
pub enum Visibility {
    Visible,
    Hidden,
    Unknown,
}

/// The mouse button carried by a tray-icon interaction.
#[derive(Clone, Copy, Debug, PartialEq, Eq, Structural)]
pub enum MouseButton {
    Left,
    Right,
    Middle,
}

/// Whether the button was released or pressed.
#[derive(Clone, Copy, Debug, PartialEq, Eq, Structural)]
pub enum MouseButtonState {
    Up,
    Down,
}

/// A tray-icon interaction event.
#[derive(Clone, Copy, Debug, PartialEq, Eq, Structural)]
pub enum TrayEvent {
    Click { button: MouseButton, button_state: MouseButtonState },
    DoubleClick { button: MouseButton },
    Enter,
    Move,
    Leave,
}

/// The kind of a window event delivered for the main window.  Only a close
/// request carries any behaviour; every other kind is ignored.
#[derive(Clone, Copy, Debug, PartialEq, Eq, Structural)]
pub enum WindowEventKind {
    CloseRequested,
    Other,
}

} // verus!
