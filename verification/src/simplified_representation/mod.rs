//! The lowering of a syntax tree to the description of a contract.
//!
//! [`lowering`] says what the lowering yields, as functions of the tree alone.
//! [`emitter`] is the backend that computes it with a stack of operands; its rules stand
//! in [`type_rules`] and [`declaration_rules`], its hooks in [`hooks`], and [`laws`] states
//! what holds of every lowering.

pub mod declaration_rules;
pub mod emitter;
pub mod hooks;
pub mod laws;
pub mod lowering;
pub mod name_generator;
pub mod primitives;
pub mod type_rules;
