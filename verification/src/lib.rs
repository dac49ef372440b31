//! Resolution and installation of the `harper-ls` language server binary.
//!
//! A binary is looked for in three places, in this order: the workspace's
//! settings, the shell's search path, and the copy that this extension
//! installed earlier ([`resolver`]). Where none of them has it, the release
//! archive for the platform is fetched and unpacked into a directory of its
//! own, named after the version ([`installer`]).
//!
//! Nothing here touches the disk, the network or the editor. The caller
//! reads the workspace and hands over what it found; during an installation
//! it carries out one [`installer::HostRequest`] at a time and hands back the
//! [`installer::HostResponse`]. What holds of every such exchange is proved
//! in [`laws`].

use vstd::prelude::*;

pub mod binary;
pub mod error;
pub mod extension;
pub mod installer;
pub mod laws;
pub mod layout;
pub mod platform;
pub mod release;
pub mod resolver;
pub mod settings;

verus! {

/// Logical name of the language server; also the name of its executable.
pub const NAME: &'static str = "harper-ls";

/// The upstream project on the release-hosting service, owner first.
pub const REPOSITORY: &'static str = "elijah-potter/harper";

} // verus!
