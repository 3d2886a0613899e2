//! Decision-tree classification of iris measurements, and the plain-value
//! logic around proving that classification: transport encoding of proof
//! artefacts, the single artefact slot, and the reading of an attestation
//! script's report.

pub mod classifier;
pub mod hexcode;
pub mod wire;
pub mod artifact;
pub mod slot;
pub mod attestation;
