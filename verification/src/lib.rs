//! Core of a PLONK-style proving system over the BLS12-381 scalar field.
//!
//! The crate provides the pieces of the prover that decide soundness and
//! completeness: power-of-two evaluation domains with (coset) transforms,
//! per-row gate-constraint evaluators, the grand-product permutation
//! argument, and the quotient-polynomial engine that combines them over an
//! extended coset domain and divides by the vanishing polynomial.
//!
//! Field arithmetic and the FFT kernels come from the `ark` crates and are
//! relied upon through a small set of trusted wrappers; everything built on
//! top of them — indexing, domain extension, rotation emulation, the
//! constraint formulas and the final division — is verified.

use vstd::prelude::*;

pub mod domain;
pub mod field;
pub mod gates;
pub mod permutation;
pub mod proving_key;
pub mod quotient;

verus! {

/// Errors reported by domain construction and key compilation.
#[derive(Debug, Clone, Copy, PartialEq, Eq, Structural)]
pub enum Error {
    /// The requested evaluation domain does not fit the two-adicity of the
    /// scalar field: no multiplicative subgroup of the requested size exists.
    InvalidEvalDomainSize { log_size_of_group: u32, adicity: u32 },
    /// A vanishing-polynomial evaluation meant to serve as a divisor over the
    /// extended coset was zero.  The coset is chosen disjoint from the
    /// domain, so this signals a broken engine invariant.
    ZeroVanishingEvaluation,
}

} // verus!
