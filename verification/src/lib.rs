//! Command-line front end for the glas language toolchain.
//!
//! The library classifies a sequence of argument tokens into a run mode
//! (`run_mode`), implements the classifier itself (`parsing`), and renders
//! the text that dispatching a run mode writes to standard output
//! (`output`). Reading the process arguments and printing the text are left
//! to the surrounding binary.

pub mod output;
pub mod parsing;
pub mod run_mode;
