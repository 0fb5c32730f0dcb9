//! The dispatch and capability-state core of a themeable multi-tool
//! protocol server: theme resolution and message templating, the per-tool
//! enablement store with its immutable leader tool, typed decoding of
//! caller-supplied arguments, and the routing of tool invocations. All
//! I/O — the theme file, the persisted configuration, the interaction,
//! memory and search collaborators — stays outside; these modules take
//! what was read as plain values and fix, with proofs, what is decided
//! from them.

use vstd::prelude::*;

pub mod assoc;
pub mod commands;
pub mod config;
pub mod interaction;
pub mod memory;
pub mod server;
pub mod text;
pub mod theme;
pub mod types;

pub use text::replace_str;
pub use text::str_eq;
