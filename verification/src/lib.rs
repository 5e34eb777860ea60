//! Proof and debug harness of the desktop shell.
//!
//! In proof mode the shell goes straight to one surface and keeps it visible, so that screenshots
//! can be captured automatically. This crate decides what is shown ([`config`], [`surface`]) and
//! where ([`placement`]), and turns a synthetic seed into the provider-usage snapshot that fills the
//! cards ([`seed`]). Reading the environment, the seed file and the monitors is left to the shell.
pub mod clock;
pub mod config;
pub mod laws;
pub mod placement;
pub mod seed;
pub mod surface;
pub mod text;

pub use config::{
    activate, is_proof_mode, proof_payload_is_supported, Activation, ProofConfig,
    ProofModeRejection, PROOF_MODE_ENV_VAR,
};
pub use placement::{
    proof_anchor_y, proof_settled_bottom, proof_window_position, proof_window_position_fits,
    proof_window_position_unjustified, MainWindow, ProofMonitor, PROOF_BOTTOM_INSET_PX,
};
pub use seed::{
    pace_stage_from_seed, seed_usage_snapshot_from_env, ProviderUsageSnapshot, SeedFile,
    SeedProviderUsageSnapshot, SEED_USAGE_ENV_VAR,
};
pub use surface::{Catalog, SurfaceMode, SurfaceTarget};
