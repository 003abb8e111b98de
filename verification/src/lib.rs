//! A structured description of the deployable surface of a Scilla contract: its name, the
//! parameters of its constructor, its fields and its transitions, each with its type.
//!
//! The description is made from the syntax tree of a contract. [`ast`] holds the tree, the
//! interface of a conversion backend and the traversal that drives a backend over a tree;
//! [`simplified_representation`] holds the backend that lowers a tree to a [`Contract`].

pub mod ast;
pub mod contract;
pub mod error;
pub mod field;
pub mod simplified_representation;
pub mod text;
pub mod transition;
pub mod types;

pub use contract::Contract;
pub use error::Error;
pub use field::{Field, FieldList};
pub use transition::{Transition, TransitionList};
pub use types::Type;
