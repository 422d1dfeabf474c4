//! A minimal interactive command-line shell library.
//!
//! The crate models the command-dispatch loop of a small shell: a line of
//! input is tokenized on whitespace and interpreted either as a built-in
//! directive (`exit`, `cd` with home-path expansion) or as an external
//! command invocation. All parsing, dispatch decisions and path resolution
//! are verified; the surrounding process (terminal I/O, spawning child
//! processes, changing the working directory) lives outside the library and
//! acts on the decisions returned from here.

pub mod cd;
pub mod errors;
pub mod shell;
pub mod tokens;
