//! Keys and event results.

use vstd::prelude::*;

verus! {

/// Keys that display widgets react to.
#[derive(Debug, Clone, Copy, PartialEq, Eq, Structural)]
pub enum KeyCode {
    /// Arrow left.
    Left,
    /// Arrow right.
    Right,
    /// Arrow up.
    Up,
    /// Arrow down.
    Down,
    /// Home.
    Home,
    /// End.
    End,
    /// Page up.
    PageUp,
    /// Page down.
    PageDown,
    /// Enter.
    Enter,
    /// Space bar.
    Space,
    /// Any other key.
    Other,
}

/// Whether a widget consumed an event.
#[derive(Debug, Clone, Copy, PartialEq, Eq, Structural)]
pub enum EventResult {
    /// The widget reacted to the event.
    Handled,
    /// The event passes on.
    NotHandled,
}

} // verus!
