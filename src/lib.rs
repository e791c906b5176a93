//! Marshalling between native values and the values of a garbage-collected
//! Lisp host that is reached through a C module interface.
//!
//! The host side is driven from outside this library. What is decided here:
//! how a call's exit status becomes a result, which host symbol stands for
//! absence and for truth, how the two-phase string copy proceeds and how its
//! bytes become text, and whether an embedded object may be borrowed back as
//! a given native type.

pub mod error;
pub mod exit;
pub mod symbol;
pub mod text;
pub mod transfer;
