pub mod definitions;
pub mod expressions;
pub mod names;
pub mod statements;
pub mod types;
