//! Locating the `discord-ls` language server for an editor extension.
//!
//! The crate decides; it performs no I/O itself. A [`ServerResolver`] is
//! driven by its host: every [`Step`] names the host calls to make, and the
//! answer to the one query among them is handed back to reach the next step,
//! until the step carries the path of the server binary or the reason why
//! none could be had.

pub mod command;
pub mod error;
pub mod host;
pub mod laws;
pub mod platform;
pub mod release;
pub mod resolver;
pub mod sweep;

pub use command::{language_server_command, launch_command, LaunchCommand};
pub use error::ResolveError;
pub use host::{ArchiveKind, DirEntry, Effect, EntryKind, InstallStatus, Query, Response};
pub use platform::{asset_name, binary_path, Architecture, Os, PlatformKey};
pub use release::{Release, ReleaseAsset};
pub use resolver::{Next, ResolverState, ServerResolver, Step};
pub use sweep::plan_sweep;
