//! An interactive command-line calculator library.
//!
//! The library holds the verified core of the calculator: the constant
//! environment that expressions are evaluated against, the color profile
//! used to decorate output, command parsing and dispatch, and the step
//! function of the read-eval-print shell. File and terminal I/O, ANSI
//! rendering, and everything floating-point — reading a value from its
//! text, writing it back, and the expression evaluator itself — live in
//! the surrounding binary, which hands the library plain values; only the
//! per-user config-directory lookup is reached through a trusted
//! declaration.

pub mod cli;
pub mod colors;
pub mod context;
pub mod store;
pub mod text;
