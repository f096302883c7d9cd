//! Host-side logic for an interactive text-completion plugin.
//!
//! The crate holds the parts of the host that decide and compute: the
//! case-insensitive matching that the completion provider applies to its
//! reference set, the key-by-key transitions of the interactive input
//! buffer, and the formatting of log and completion output. The thin
//! layer that reads raw keystrokes and drives a sandboxed guest module
//! lives outside the library.

pub mod text;
pub mod complete;
pub mod keys;
pub mod report;
