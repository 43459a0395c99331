//! Proofs that an account controls an identity elsewhere.

use crate::time::Timestamp;
use vstd::prelude::*;

verus! {

/// A third party's word that an account controls an identity with it.
#[derive(Debug, Clone, PartialEq, Eq)]
pub struct IdentityProof {
    /// The third party, such as `keybase`.
    pub provider: String,
    pub provider_username: String,
    pub updated_at: Timestamp,
    pub proof_url: String,
    pub profile_url: String,
}

/// The mathematical value of an [`IdentityProof`].
pub struct IdentityProofView {
    pub provider: Seq<char>,
    pub provider_username: Seq<char>,
    pub updated_at: Timestamp,
    pub proof_url: Seq<char>,
    pub profile_url: Seq<char>,
}

impl DeepView for IdentityProof {
    type V = IdentityProofView;

    open spec fn deep_view(&self) -> IdentityProofView {
        IdentityProofView {
            provider: self.provider@,
            provider_username: self.provider_username@,
            updated_at: self.updated_at,
            proof_url: self.proof_url@,
            profile_url: self.profile_url@,
        }
    }
}

impl View for IdentityProof {
    type V = IdentityProofView;

    open spec fn view(&self) -> IdentityProofView {
        self.deep_view()
    }
}

impl IdentityProof {
    /// A proof with the given fields.
    pub fn new(
        provider: String,
        provider_username: String,
        updated_at: Timestamp,
        proof_url: String,
        profile_url: String,
    ) -> (proof_record: IdentityProof)
        ensures
            proof_record@ == (IdentityProofView {
                provider: provider@,
                provider_username: provider_username@,
                updated_at,
                proof_url: proof_url@,
                profile_url: profile_url@,
            }),
    {
        IdentityProof { provider, provider_username, updated_at, proof_url, profile_url }
    }
}

} // verus!
