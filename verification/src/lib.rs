//! Stateful core of a modal text-editing engine: shape-aware register
//! storage, the input-context accumulator with its resolve protocol, and a
//! small mode state machine for unmapped-key handling.

pub mod base;
pub mod cmdbar;
pub mod context;
pub mod register;
pub mod text;
