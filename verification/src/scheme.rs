//! The interface of signature schemes whose keys and signatures can be
//! aggregated. The library itself verifies Schnorr signatures one by one or
//! in randomized batches; this trait is the hook for schemes that combine
//! many signatures into one.

use vstd::prelude::*;

use crate::errors::SignatureError;

verus! {

/// A signature scheme that supports aggregation of public keys and of
/// signatures.
pub trait AggregatableSignatureScheme: Sized {
    /// The scheme's public keys.
    type PublicKey;

    /// The scheme's signatures.
    type Signature;

    /// Aggregates public keys.
    fn aggregate_public_keys(&self, public_keys: &Vec<Self::PublicKey>) -> Result<
        Self::PublicKey,
        SignatureError,
    >;

    /// Aggregates signatures.
    fn aggregate_signatures(&self, signatures: &Vec<Self::Signature>) -> Result<
        Self::Signature,
        SignatureError,
    >;
}

} // verus!
