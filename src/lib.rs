//! The input side of a keypad calculator: the state machine that turns button
//! presses into an expression, the display formatter, the symbol translator,
//! and the adapter around the expression evaluator.

pub mod text;
pub mod keypad;
pub mod laws;
