//! The structured reference string of the PVSS scheme: one generator of the
//! encryption group and two of the commitment group. Generated once per
//! deployment, public, immutable.

use vstd::prelude::*;

use crate::curve::{EcGroup, G1, G2};
use crate::errors::PVSSError;

verus! {

/// The PVSS structured reference string.
#[derive(Clone, Copy, PartialEq)]
pub struct SRS {
    /// Generator of the encryption group.
    pub g1: G1,
    /// Generator of the commitment group.
    pub g2: G2,
    /// Second generator of the commitment group.
    pub g2_prime: G2,
}

impl SRS {
    /// Samples a fresh SRS: three uniformly random generators.
    pub fn setup() -> (r: Result<SRS, PVSSError>)
        ensures
            r is Ok,
    {
        Ok(SRS { g1: G1::sample(), g2: G2::sample(), g2_prime: G2::sample() })
    }
}

} // verus!
