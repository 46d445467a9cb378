//! Platform events, reduced to the plain values the library acts on.
//!
//! The windowing collaborator delivers its own event structures; the shell
//! around the library converts each of them to a `WindowEvent` before
//! handing it to the dispatcher. Cursor positions arrive already translated
//! to the screen-centered coordinate system, and the cursor velocity is the
//! delta from the previous position, both carried as bit patterns.

use vstd::prelude::*;
use crate::layers::Vec2Bits;

verus! {

/// A mouse button, with `Other` standing for any button the edge tracker
/// does not follow.
#[derive(Copy, Clone, Eq, PartialEq, Debug)]
pub enum MouseButton {
    Left,
    Middle,
    Right,
    Other,
}

/// One platform event, as plain values.
#[derive(Copy, Clone, Eq, PartialEq, Debug)]
pub enum WindowEvent {
    /// The window was resized to the given physical size.
    Resized { width: u32, height: u32 },
    /// The user asked to close the window.
    CloseRequested,
    CursorEntered,
    CursorLeft,
    /// The cursor moved: its new centered position and the delta from the
    /// previous position.
    CursorMoved { position: Vec2Bits, velocity: Vec2Bits },
    /// A mouse button changed state; `pressed` is false for a release.
    MouseInput { pressed: bool, button: MouseButton },
    /// The wheel scrolled by the given delta.
    MouseWheel { delta: Vec2Bits },
    /// A key changed state; `key` is the tracker's key index.
    KeyboardInput { pressed: bool, key: u8 },
    /// The modifier flags changed to the given values.
    ModifiersChanged { shift: bool, ctrl: bool, alt: bool, logo: bool },
    /// Any event the library does not act on.
    Other,
}

} // verus!
