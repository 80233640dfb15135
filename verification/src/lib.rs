//! An idempotent, reversible provisioning engine: planned actions that can be
//! described, executed, and reverted, with per-action lifecycle state so that
//! re-running a partially applied plan is safe.

pub mod create_directory;
pub mod create_file;
pub mod create_volume;
pub mod describe;
pub mod host;
pub mod laws;
pub mod place_channel_configuration;
pub mod place_nix_configuration;
pub mod registry;
pub mod state;

pub use state::ActionState;
