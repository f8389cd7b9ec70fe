//! Runs a cargo subcommand through the Windows toolchain from inside WSL,
//! keeping a stable build-cache directory and the active rustup channel.
//!
//! The library holds the decisions: where the cache lives, which channel is
//! active, which variables cross the WSL boundary, and what is launched.
//! Process spawning and environment reads belong to the caller.

pub mod error;
pub mod text;
pub mod host;
pub mod target_dir;
pub mod toolchain;
pub mod wsl_path;
pub mod bridge;
pub mod invocation;
pub mod session;
