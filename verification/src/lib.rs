//! Resolution and provisioning of the `lume-lsp` language-server binary.
//!
//! The library is the decision core of an editor extension. Given plain
//! values describing the outside world (workspace settings, the result of a
//! search-path lookup, whether a file exists, the metadata of a remote
//! release), it decides which binary to launch and what the host must do
//! next: use a path, check a cached file, fetch a release, download an
//! archive, or remove stale installs. The host performs the I/O and feeds
//! each answer back in.

pub mod platform;
pub mod provision;
pub mod resolver;
