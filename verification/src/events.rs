//! The raw events the controller consumes: tray-icon pointer events and the
//! window's close request.

use vstd::prelude::*;

verus! {

use crate::lifecycle::Effect;

/// The shape of a raw tray-icon pointer event.  Only a click is meaningful;
/// everything else (enter, leave, move, ...) is lumped into `Other`.
#[derive(Clone, Copy, Debug, PartialEq, Eq, Structural)]
pub enum PointerKind {
    Click,
    Other,
}

/// Which pointer button a click event carries.
#[derive(Clone, Copy, Debug, PartialEq, Eq, Structural)]
pub enum PointerButton {
    Left,
    Right,
    Middle,
    Other,
}

/// Whether the button was pressed or released.
#[derive(Clone, Copy, Debug, PartialEq, Eq, Structural)]
pub enum PointerButtonState {
    Up,
    Down,
}

/// A raw pointer event on the tray icon.  Only `Click` + `Left` + `Up` is
/// semantically meaningful to the controller; every other combination is
/// observed and discarded, never an error.
#[derive(Clone, Copy, Debug, PartialEq, Eq, Structural)]
pub struct PointerEvent {
    pub kind: PointerKind,
    pub button: PointerButton,
    pub button_state: PointerButtonState,
}

impl PointerEvent {
    /// Whether this is the one pointer-event shape that triggers an action:
    /// a click with the left button released.
    pub open spec fn is_left_click_up(self) -> bool {
        &&& self.kind == PointerKind::Click
        &&& self.button == PointerButton::Left
        &&& self.button_state == PointerButtonState::Up
    }
}

/// What the close-intercept hook answers a window close request with.
/// `prevent_default` asks the host to suppress the window system's default
/// behaviour (which would destroy the window); `effects` is what the host
/// performs instead.
pub struct CloseDecision {
    pub prevent_default: bool,
    pub effects: Vec<Effect>,
}

} // verus!
