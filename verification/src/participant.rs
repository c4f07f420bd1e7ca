//! Participants and dealers. A participant is public data (an id and two
//! public keys); a dealer additionally owns the matching secrets.

use vstd::prelude::*;

use crate::curve::{Fr, G1};
use crate::eddsa::{PublicKey, SecretKey};

verus! {

/// The states a participant moves through during a sharing round.
#[derive(Clone, Copy, PartialEq, Eq, Debug)]
pub enum ParticipantState {
    /// Acting as a dealer that has not shared yet.
    Dealer,
    /// A dealer whose share has been broadcast.
    DealerShared,
    /// A passive participant before verification.
    Initial,
    /// A participant whose share was verified.
    Verified,
}

/// One party of the protocol, as its peers see it.
#[derive(Clone, Copy, PartialEq)]
pub struct Participant {
    /// The participant id, in `[0, n)`.
    pub id: usize,
    /// The public encryption key (a point of the encryption group).
    pub public_key_sig: G1,
    /// The attestation verification key.
    pub public_key_ed: PublicKey,
}

/// One party of the protocol, as the party itself: the secrets that match
/// its participant record. Secret keys are exclusively owned.
pub struct Dealer {
    /// The secret encryption scalar.
    pub private_key_sig: Fr,
    /// The attestation signing key.
    pub private_key_ed: SecretKey,
    /// The dealer's own participant record.
    pub participant: Participant,
}

impl Clone for Dealer {
    fn clone(&self) -> (r: Self)
        ensures
            r.private_key_sig == self.private_key_sig,
            r.private_key_ed@ == self.private_key_ed@,
            r.participant == self.participant,
    {
        Dealer {
            private_key_sig: self.private_key_sig,
            private_key_ed: self.private_key_ed.clone(),
            participant: self.participant,
        }
    }
}

} // verus!
