//! Launching a program inside an operating-system sandbox.
//!
//! One description of mounts, environment and isolation is translated into
//! the invocation of a sandboxing executable: a bind-mount and namespace
//! launcher ([`bubblewrap`]), a profile-based sandbox ([`firejail`]) or a
//! syscall-filtering jail ([`nsjail`]). Inside the sandbox a small
//! supervisor, the reaper, takes one command from its input and executes it
//! ([`reaper`], with the byte layout in [`wire`]).
//!
//! The library computes invocations and bytes; spawning processes and
//! writing files is left to its caller.

pub mod bubblewrap;
pub mod cellar;
pub mod env;
pub mod error;
pub mod firejail;
pub mod host;
pub mod invocation;
pub mod layout;
pub mod nsjail;
pub mod reaper;
pub mod text;
pub mod wire;

pub use bubblewrap::{BubLauncher, BubMount};
pub use env::{EnvVar, HostEnv};
pub use error::CellarError;
pub use firejail::{FirejailLauncher, X11Sandbox};
pub use invocation::Invocation;
