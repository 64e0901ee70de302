//! Interactive terminal calculator and browser built on checked arithmetic.
//!
//! The crate holds the logic of a small tabbed terminal program: a cyclic
//! set of tabs, an input-mode state machine with a bounded calculation
//! history, and an expression evaluator that drives every operation through
//! the checked arithmetic of the `proven` crate, so that overflow and
//! division by zero are reported as text instead of ever panicking.

pub mod app;
pub mod arith;
pub mod calc;
pub mod dispatch;
pub mod numfmt;
pub mod text;
