//! Extraction of reconstructed type declarations from a single PDB file.
//!
//! The orchestrator drives an external symbol-reconstruction backend over a
//! pair of unbounded message channels, following a strict three-phase
//! protocol (load, enumerate, reconstruct) with at most one command in
//! flight at any time. The protocol itself — the command and outcome
//! shapes, how each outcome is interpreted, and how per-type results are
//! collected — is verified; the channel transport is trusted.

pub mod channel;
pub mod frontend;
pub mod orchestrator;
pub mod properties;
pub mod protocol;
