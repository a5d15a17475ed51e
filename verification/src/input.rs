//! Per-frame input: which buttons are held, and what the pointer did.
//!
//! The host fills an [`InputSnapshot`] once per frame, with what is held in
//! that frame, and hands it to the controller.  Physical buttons are
//! mapped to logical actions by one fixed table, [`bound`], so that the keys
//! of two keyboard layouts drive the same action.

use vstd::prelude::*;
use crate::units::Micro;

verus! {

/// A physical button the controller listens to.
#[derive(Clone, Copy, PartialEq, Eq, Debug, Structural)]
pub enum Button {
    KeyW,
    KeyZ,
    KeyS,
    KeyA,
    KeyQ,
    KeyD,
    Space,
    ShiftLeft,
    F1,
    MouseLeft,
}

/// A logical action of the controller.
#[derive(Clone, Copy, PartialEq, Eq, Debug, Structural)]
pub enum Action {
    Forward,
    Backward,
    StrafeLeft,
    StrafeRight,
    Ascend,
    Descend,
    PrimaryClick,
    DebugTrigger,
}

/// The binding table: `button` drives `action`.
///
/// Forward and strafe-left each answer to two keys, one per keyboard layout.
pub open spec fn bound(action: Action, button: Button) -> bool {
    match action {
        Action::Forward => button == Button::KeyW || button == Button::KeyZ,
        Action::Backward => button == Button::KeyS,
        Action::StrafeLeft => button == Button::KeyA || button == Button::KeyQ,
        Action::StrafeRight => button == Button::KeyD,
        Action::Ascend => button == Button::Space,
        Action::Descend => button == Button::ShiftLeft,
        Action::PrimaryClick => button == Button::MouseLeft,
        Action::DebugTrigger => button == Button::F1,
    }
}

/// The action that `button` drives.
pub open spec fn spec_action_of(button: Button) -> Action {
    match button {
        Button::KeyW | Button::KeyZ => Action::Forward,
        Button::KeyS => Action::Backward,
        Button::KeyA | Button::KeyQ => Action::StrafeLeft,
        Button::KeyD => Action::StrafeRight,
        Button::Space => Action::Ascend,
        Button::ShiftLeft => Action::Descend,
        Button::MouseLeft => Action::PrimaryClick,
        Button::F1 => Action::DebugTrigger,
    }
}

/// Every button drives exactly one action.
pub proof fn every_button_drives_one_action(action: Action, button: Button)
    ensures
        bound(action, button) <==> action == spec_action_of(button),
{
}

/// The action that `button` drives.
pub fn action_of(button: Button) -> (action: Action)
    ensures
        action == spec_action_of(button),
        bound(action, button),
{
    match button {
        Button::KeyW | Button::KeyZ => Action::Forward,
        Button::KeyS => Action::Backward,
        Button::KeyA | Button::KeyQ => Action::StrafeLeft,
        Button::KeyD => Action::StrafeRight,
        Button::Space => Action::Ascend,
        Button::ShiftLeft => Action::Descend,
        Button::MouseLeft => Action::PrimaryClick,
        Button::F1 => Action::DebugTrigger,
    }
}

/// Whether `button` drives `action`.
pub fn is_bound(action: Action, button: Button) -> (b: bool)
    ensures
        b == bound(action, button),
{
    action_of(button) == action
}

/// One raw pointer-motion event, in device counts and millionths of them.
#[derive(Clone, Copy, PartialEq, Eq, Debug, Structural)]
pub struct PointerDelta {
    pub dx: Micro,
    pub dy: Micro,
}

/// What the host knows of the pointer this frame.
#[derive(Clone, PartialEq, Eq, Debug)]
pub enum PointerInput {
    /// No pointer or window data: the window is not focused, or the pointer
    /// is outside it.
    Unavailable,
    /// The motion events that arrived since the previous frame.
    Motion(Vec<PointerDelta>),
    /// The pointer's position inside a window of the given size, in pixels
    /// and millionths of them.
    Position { x: Micro, y: Micro, width: Micro, height: Micro },
}

/// The input of one frame.
#[derive(Clone, PartialEq, Eq, Debug)]
pub struct InputSnapshot {
    /// The buttons held down during this frame, in any order; a button may
    /// be listed more than once.
    pub pressed: Vec<Button>,
    pub pointer: PointerInput,
}

impl InputSnapshot {
    /// `button` is held.
    pub open spec fn holds(&self, button: Button) -> bool {
        self.pressed@.contains(button)
    }

    /// Some button bound to `action` is held.
    pub open spec fn active(&self, action: Action) -> bool {
        exists|button: Button| bound(action, button) && #[trigger] self.holds(button)
    }

    /// A frame in which nothing is held and the pointer is unavailable.
    pub fn idle() -> (snapshot: InputSnapshot)
        ensures
            snapshot.pressed@ == Seq::<Button>::empty(),
            snapshot.pointer == PointerInput::Unavailable,
            forall|action: Action| !snapshot.active(action),
    {
        InputSnapshot { pressed: Vec::new(), pointer: PointerInput::Unavailable }
    }

    /// Whether `button` is held.
    pub fn is_pressed(&self, button: Button) -> (b: bool)
        ensures
            b == self.holds(button),
    {
        let mut i: usize = 0;
        while i < self.pressed.len()
            invariant
                i <= self.pressed.len(),
                forall|j: int| 0 <= j < i ==> self.pressed@[j] != button,
            decreases self.pressed.len() - i,
        {
            if self.pressed[i] == button {
                return true;
            }
            i += 1;
        }
        false
    }

    /// Whether some button bound to `action` is held.
    pub fn action_pressed(&self, action: Action) -> (b: bool)
        ensures
            b == self.active(action),
    {
        let mut i: usize = 0;
        while i < self.pressed.len()
            invariant
                i <= self.pressed.len(),
                forall|j: int| 0 <= j < i ==> !bound(action, self.pressed@[j]),
            decreases self.pressed.len() - i,
        {
            if is_bound(action, self.pressed[i]) {
                assert(self.holds(self.pressed@[i as int]));
                return true;
            }
            i += 1;
        }
        false
    }
}

} // verus!
