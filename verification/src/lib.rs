//! A first-person camera controller in fixed-point arithmetic, and the
//! decisions of the terminal introduction that precedes it.
//!
//! Each frame the host hands over what it read: the buttons that are held,
//! the pointer, the frame time and the sine and cosine of the yaw.  The
//! controller answers with a new position and orientation, the pointer
//! settings to ask of the window, and now and then a debug report.  It
//! does no input or output of its own, and of the input it keeps only
//! whether the primary button and the debug trigger were down, to tell the
//! frame in which either goes down.
//!
//! - [`units`]: whole numbers of millionths, and their arithmetic.
//! - [`input`]: the input of one frame, and the key bindings.
//! - [`movement`]: movement, pointer look, cursor capture, debug report.
//! - [`setup`]: what is set once at start.
//! - [`intro`]: the introduction's skip flag and glitch effect.
//! - [`laws`]: what holds of the controller for every input.

pub mod input;
pub mod intro;
pub mod laws;
pub mod movement;
pub mod setup;
pub mod units;
