//! Windows tuning operations: the scripts they run, how each outcome becomes
//! a uniform result envelope, and the decisions of the multi-step operations.
//! Running the interpreter and launching programs is left to the caller.

pub mod envelope;
pub mod text;
pub mod quoting;
pub mod scripts;
pub mod catalog;
pub mod composite;
pub mod listing;
pub mod power;
pub mod shell;
pub mod laws;
pub mod registry;
