//! Discovery and batch orchestration for bulk steganography scanning.
//!
//! The library decides which files are plausible carriers, drops
//! byte-identical duplicates, walks a directory tree with an explicit work
//! stack, builds the external tool's argument lists, classifies the tool's
//! diagnostic output and keeps the run's counters.  All I/O stays with the
//! caller, which feeds the library plain values.
pub mod args;
pub mod classify;
pub mod config;
pub mod dedup;
pub mod discover;
pub mod invoke;
pub mod progress;
pub mod run;

pub use args::{base_name, crack_args, join, output_path, seed_args};
pub use classify::{accepts, has_carrier_magic};
pub use dedup::Digests;
pub use discover::{Candidate, Discovery};
pub use invoke::{classify_lines, classify_outcome, line_has_marker, DiagnosticScan, Outcome, SubOp};
pub use run::{Mode, RunState, Step};
pub use progress::{clock, mode_cracks, mode_detects, percent, Progress};
pub use config::{check_config, ConfigError};
