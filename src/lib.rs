//! Passing a nested record to a function three ways: through a mutable
//! reference, by move, and by copy. Each way has a `show` step that bumps the
//! outer field and renders the line to print, and a `run` that builds the
//! starting record and returns every byte the program writes.
pub mod record;
pub mod text;
pub mod by_ref;
pub mod by_move;
pub mod by_copy;
pub mod program;
