//! Game engine for a whack-a-mole pad: nine timed mole slots, a keypad,
//! rounds of rising difficulty and a frame-limited light renderer.
pub mod keypad;
pub mod mole;
