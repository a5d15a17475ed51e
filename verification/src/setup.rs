//! What is set once, when the window is ready.

use vstd::prelude::*;
use crate::movement::CursorOptions;

verus! {

/// Captures the pointer: locks and hides it.
pub fn setup_cursor_grab(cursor: &mut CursorOptions)
    ensures
        *final(cursor) == CursorOptions::spec_captured(),
{
    cursor.capture();
}

} // verus!
