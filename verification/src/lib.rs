//! The decisions behind `cargo llvm-cov`: which commands to run, in which order, with which
//! arguments, and what to read out of their output.

pub mod args;
pub mod color;
pub mod command_laws;
pub mod context;
pub mod error;
pub mod laws;
pub mod objects;
pub mod option_laws;
pub mod output_laws;
pub mod path;
pub mod plan;
pub mod process;
pub mod report;
pub mod session;
pub mod session_laws;
pub mod setup;
pub mod setup_laws;
pub mod stage_laws;
pub mod system;
pub mod text;
pub mod toolchain;
pub mod turn_laws;
