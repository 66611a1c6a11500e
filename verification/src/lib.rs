//! A minimal container launcher: resolve an image name to a pull token
//! and a manifest, assemble the image's layers into an ephemeral root
//! filesystem, confine the process to that root with a private
//! process-ID namespace, run the requested command inside it, and relay
//! the command's output and exit code.
//!
//! The crate is split along what can be decided and what must be
//! performed. Everything that decides is here and verified: URLs and
//! headers, the meaning of registry replies, the overlay semantics of
//! layers, the order of the isolation steps, exit codes, and what may be
//! forwarded. The performing side — network fetches, archive unpacking,
//! process spawning — is plain input/output left to the embedding
//! program.

pub mod errors;
pub mod isolation;
pub mod json;
pub mod layers;
pub mod registry;
pub mod runner;
