//! Pleroma's identity proofs as they come over the wire.

use crate::entities::identity_proof as unified;
use crate::error::{outcome, Error, ErrorView};
use crate::json::{
    check_fields, lemma_insert_unknown, lemma_screen_refuses, required_text, screened, text_at, Json,
    JsonValue,
};
use crate::record::{FromJson, ToUnified};
use crate::strictness::Strictness;
use crate::time::{instant_at, required_instant, Timestamp};
use crate::warning::{Warning, WarningView};
use vstd::prelude::*;

verus! {

/// A third party's word that an account controls an identity with it.
#[derive(Debug, Clone, PartialEq, Eq)]
pub struct IdentityProof {
    pub provider: String,
    pub provider_username: String,
    pub updated_at: Timestamp,
    pub proof_url: String,
    pub profile_url: String,
}

/// The mathematical value of a Pleroma [`IdentityProof`].
pub struct IdentityProofRecord {
    pub provider: Seq<char>,
    pub provider_username: Seq<char>,
    pub updated_at: Timestamp,
    pub proof_url: Seq<char>,
    pub profile_url: Seq<char>,
}

impl DeepView for IdentityProof {
    type V = IdentityProofRecord;

    open spec fn deep_view(&self) -> IdentityProofRecord {
        IdentityProofRecord {
            provider: self.provider@,
            provider_username: self.provider_username@,
            updated_at: self.updated_at,
            proof_url: self.proof_url@,
            profile_url: self.profile_url@,
        }
    }
}

impl View for IdentityProof {
    type V = IdentityProofRecord;

    open spec fn view(&self) -> IdentityProofRecord {
        self.deep_view()
    }
}

impl FromJson for IdentityProof {
    open spec fn entity() -> Seq<char> {
        "IdentityProof"@
    }

    open spec fn known_fields() -> Seq<Seq<char>> {
        seq!["provider"@, "provider_username"@, "updated_at"@, "proof_url"@, "profile_url"@]
    }

    open spec fn readable(fields: Seq<(Seq<char>, Json)>, mode: Strictness) -> bool {
        &&& screened(fields, Self::known_fields(), mode) is Ok
        &&& text_at(fields, "provider"@) is Ok
        &&& text_at(fields, "provider_username"@) is Ok
        &&& instant_at(fields, "updated_at"@) is Ok
        &&& text_at(fields, "proof_url"@) is Ok
        &&& text_at(fields, "profile_url"@) is Ok
    }

    /// The fields are screened first, then read in the order of
    /// `known_fields`; the first failure is the outcome.
    open spec fn of_json(doc: Json, mode: Strictness) -> Result<IdentityProofRecord, ErrorView> {
        match doc {
            Json::Object(fields) => {
                let screen = screened(fields, IdentityProof::known_fields(), mode);
                let provider = text_at(fields, "provider"@);
                let provider_username = text_at(fields, "provider_username"@);
                let updated_at = instant_at(fields, "updated_at"@);
                let proof_url = text_at(fields, "proof_url"@);
                let profile_url = text_at(fields, "profile_url"@);
                if screen is Err {
                    Err(screen->Err_0)
                } else if provider is Err {
                    Err(provider->Err_0)
                } else if provider_username is Err {
                    Err(provider_username->Err_0)
                } else if updated_at is Err {
                    Err(updated_at->Err_0)
                } else if proof_url is Err {
                    Err(proof_url->Err_0)
                } else if profile_url is Err {
                    Err(profile_url->Err_0)
                } else {
                    Ok(
                        IdentityProofRecord {
                            provider: provider->Ok_0,
                            provider_username: provider_username->Ok_0,
                            updated_at: updated_at->Ok_0,
                            proof_url: proof_url->Ok_0,
                            profile_url: profile_url->Ok_0,
                        },
                    )
                }
            },
            _ => Err(ErrorView::not_an_object()),
        }
    }

    fn entity_name() -> (name: &'static str) {
        "IdentityProof"
    }

    fn from_json(doc: &JsonValue, mode: Strictness) -> (r: Result<IdentityProof, Error>) {
        let entries = match doc.as_object() {
            Some(entries) => entries,
            None => { return Err(Error::not_an_object()); },
        };
        let known = vec!["provider", "provider_username", "updated_at", "proof_url", "profile_url"];
        assert(known.deep_view() =~= IdentityProof::known_fields());
        check_fields(entries, &known, mode)?;
        let provider = required_text(entries, "provider")?;
        let provider_username = required_text(entries, "provider_username")?;
        let updated_at = required_instant(entries, "updated_at")?;
        let proof_url = required_text(entries, "proof_url")?;
        let profile_url = required_text(entries, "profile_url")?;
        Ok(IdentityProof { provider, provider_username, updated_at, proof_url, profile_url })
    }

    proof fn lemma_total(doc: Json, mode: Strictness) {
    }

    proof fn lemma_ignores_unknown(fields: Seq<(Seq<char>, Json)>, at: int, key: Seq<char>, value: Json) {
        lemma_insert_unknown(fields, at, key, value, Self::known_fields(), 0);
        lemma_insert_unknown(fields, at, key, value, Self::known_fields(), 1);
        lemma_insert_unknown(fields, at, key, value, Self::known_fields(), 2);
        lemma_insert_unknown(fields, at, key, value, Self::known_fields(), 3);
        lemma_insert_unknown(fields, at, key, value, Self::known_fields(), 4);
    }

    proof fn lemma_refuses_unknown(fields: Seq<(Seq<char>, Json)>, at: int, key: Seq<char>, value: Json) {
        lemma_screen_refuses(fields, at, key, value, Self::known_fields());
    }
}

impl ToUnified for IdentityProof {
    type Unified = unified::IdentityProof;

    /// Every field as it came.
    open spec fn unified(wire: IdentityProofRecord) -> unified::IdentityProofView {
        unified::IdentityProofView {
            provider: wire.provider,
            provider_username: wire.provider_username,
            updated_at: wire.updated_at,
            proof_url: wire.proof_url,
            profile_url: wire.profile_url,
        }
    }

    open spec fn warnings(wire: IdentityProofRecord) -> Seq<WarningView> {
        Seq::empty()
    }

    fn to_unified(&self, sink: &mut Vec<Warning>) -> (entity: unified::IdentityProof) {
        assert(sink.deep_view() + Seq::<WarningView>::empty() =~= sink.deep_view());
        let entity = unified::IdentityProof::new(
            self.provider.clone(),
            self.provider_username.clone(),
            self.updated_at,
            self.proof_url.clone(),
            self.profile_url.clone(),
        );
        assert(entity.deep_view() == Self::unified(self.deep_view()));
        entity
    }
}

} // verus!
