//! The public configuration that every party shares: the SRS, the
//! polynomial degree `t`, and the number of participants `n`.

use vstd::prelude::*;

use crate::srs::SRS;

verus! {

/// System-wide public parameters of a PVSS deployment.
#[derive(Clone, Copy, PartialEq)]
pub struct Config {
    /// The structured reference string.
    pub srs: SRS,
    /// The degree `t` of the sharing polynomials (reconstruction needs
    /// `t + 1` decrypted shares).
    pub degree: usize,
    /// The number of participants `n`.
    pub num_participants: usize,
}

} // verus!
