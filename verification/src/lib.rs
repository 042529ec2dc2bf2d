//! Verified core of a small dotnet toolchain version manager.
//!
//! The crate holds the logic of the four commands: reporting the active
//! toolchain version, listing installed SDKs, pinning a project to a version
//! through a JSON pin file, and planning an installation run. All process,
//! file and network work is left to the surrounding binary, which feeds this
//! library plain values and carries out the plans it returns.

pub mod command;
pub mod install;
pub mod pin;
pub mod platform;
pub mod query;
pub mod text;
