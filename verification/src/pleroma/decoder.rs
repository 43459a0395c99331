//! From the bytes of a Pleroma response to an entity of the unified model.

use crate::entities::account as unified_account;
use crate::entities::identity_proof as unified_proof;
use crate::entities::notification as unified_notification;
use crate::entities::status as unified_status;
use crate::error::{outcome, Error};
use crate::json::{document_of, JsonValue};
use crate::pleroma::entities::account::Account;
use crate::pleroma::entities::identity_proof::IdentityProof;
use crate::pleroma::entities::notification::Notification;
use crate::pleroma::entities::status::Status;
use crate::record::{decode_bytes, decode_json, entity_of, malformed, warnings_of, FromJson};
use crate::strictness::Strictness;
use crate::warning::Warning;
use vstd::prelude::*;

verus! {

/// A decoder of Pleroma responses, strict or lenient as it was built.
#[derive(Debug, Clone, Copy, PartialEq, Eq, Structural)]
pub struct Decoder {
    pub strictness: Strictness,
}

impl Default for Decoder {
    /// A lenient decoder.
    fn default() -> (decoder: Decoder)
        ensures
            decoder.strictness == Strictness::Lenient,
    {
        Decoder { strictness: Strictness::Lenient }
    }
}

impl Decoder {
    /// A decoder of the given strictness.
    pub fn new(strictness: Strictness) -> (decoder: Decoder)
        ensures
            decoder.strictness == strictness,
    {
        Decoder { strictness }
    }

    /// Decodes the document of an account, and puts what was mended on the
    /// way at the end of `sink`.
    pub fn account_from_json(&self, doc: &JsonValue, sink: &mut Vec<Warning>) -> (r: Result<
        unified_account::Account,
        Error,
    >)
        ensures
            outcome(r) == entity_of::<Account>(doc@, self.strictness),
            final(sink).deep_view() == old(sink).deep_view() + warnings_of::<Account>(doc@, self.strictness),
    {
        decode_json::<Account>(doc, self.strictness, sink)
    }

    /// Decodes the body of an account response, and puts what was mended on
    /// the way at the end of `sink`.
    pub fn account_with_warnings(&self, bytes: &[u8], sink: &mut Vec<Warning>) -> (r: Result<
        unified_account::Account,
        Error,
    >)
        ensures
            match document_of(bytes@) {
                Some(doc) => outcome(r) == entity_of::<Account>(doc, self.strictness)
                    && final(sink).deep_view()
                        == old(sink).deep_view() + warnings_of::<Account>(doc, self.strictness),
                None => r matches Err(e)
                    && malformed(e@, Account::entity())
                    && final(sink).deep_view()
                    == old(sink).deep_view(),
            },
    {
        decode_bytes::<Account>(bytes, self.strictness, sink)
    }

    /// Decodes the body of an account response.
    pub fn account(&self, bytes: &[u8]) -> (r: Result<unified_account::Account, Error>)
        ensures
            match document_of(bytes@) {
                Some(doc) => outcome(r) == entity_of::<Account>(doc, self.strictness),
                None => r matches Err(e) && malformed(e@, Account::entity()),
            },
    {
        let mut unused: Vec<Warning> = Vec::new();
        decode_bytes::<Account>(bytes, self.strictness, &mut unused)
    }

    /// Decodes the document of an identity proof.
    pub fn identity_proof_from_json(&self, doc: &JsonValue) -> (r: Result<unified_proof::IdentityProof, Error>)
        ensures
            outcome(r) == entity_of::<IdentityProof>(doc@, self.strictness),
    {
        let mut unused: Vec<Warning> = Vec::new();
        decode_json::<IdentityProof>(doc, self.strictness, &mut unused)
    }

    /// Decodes the body of an identity proof.
    pub fn identity_proof(&self, bytes: &[u8]) -> (r: Result<unified_proof::IdentityProof, Error>)
        ensures
            match document_of(bytes@) {
                Some(doc) => outcome(r) == entity_of::<IdentityProof>(doc, self.strictness),
                None => r matches Err(e) && malformed(e@, IdentityProof::entity()),
            },
    {
        let mut unused: Vec<Warning> = Vec::new();
        decode_bytes::<IdentityProof>(bytes, self.strictness, &mut unused)
    }

    /// Decodes the document of a status, and puts what was mended on the
    /// way at the end of `sink`.
    pub fn status_from_json(&self, doc: &JsonValue, sink: &mut Vec<Warning>) -> (r: Result<
        unified_status::Status,
        Error,
    >)
        ensures
            outcome(r) == entity_of::<Status>(doc@, self.strictness),
            final(sink).deep_view() == old(sink).deep_view() + warnings_of::<Status>(doc@, self.strictness),
    {
        decode_json::<Status>(doc, self.strictness, sink)
    }

    /// Decodes the body of a status response, and puts what was mended on
    /// the way at the end of `sink`.
    pub fn status_with_warnings(&self, bytes: &[u8], sink: &mut Vec<Warning>) -> (r: Result<
        unified_status::Status,
        Error,
    >)
        ensures
            match document_of(bytes@) {
                Some(doc) => outcome(r) == entity_of::<Status>(doc, self.strictness)
                    && final(sink).deep_view()
                        == old(sink).deep_view() + warnings_of::<Status>(doc, self.strictness),
                None => r matches Err(e)
                    && malformed(e@, Status::entity())
                    && final(sink).deep_view()
                    == old(sink).deep_view(),
            },
    {
        decode_bytes::<Status>(bytes, self.strictness, sink)
    }

    /// Decodes the body of a status response.
    pub fn status(&self, bytes: &[u8]) -> (r: Result<unified_status::Status, Error>)
        ensures
            match document_of(bytes@) {
                Some(doc) => outcome(r) == entity_of::<Status>(doc, self.strictness),
                None => r matches Err(e) && malformed(e@, Status::entity()),
            },
    {
        let mut unused: Vec<Warning> = Vec::new();
        decode_bytes::<Status>(bytes, self.strictness, &mut unused)
    }

    /// Decodes the document of a notification, and puts what was mended on
    /// the way at the end of `sink`.
    pub fn notification_from_json(&self, doc: &JsonValue, sink: &mut Vec<Warning>) -> (r: Result<
        unified_notification::Notification,
        Error,
    >)
        ensures
            outcome(r) == entity_of::<Notification>(doc@, self.strictness),
            final(sink).deep_view() == old(sink).deep_view() + warnings_of::<Notification>(
                doc@,
                self.strictness,
            ),
    {
        decode_json::<Notification>(doc, self.strictness, sink)
    }

    /// Decodes the body of a notification response, and puts what was
    /// mended on the way at the end of `sink`.
    pub fn notification_with_warnings(&self, bytes: &[u8], sink: &mut Vec<Warning>) -> (r: Result<
        unified_notification::Notification,
        Error,
    >)
        ensures
            match document_of(bytes@) {
                Some(doc) => outcome(r) == entity_of::<Notification>(doc, self.strictness)
                    && final(sink).deep_view()
                        == old(sink).deep_view() + warnings_of::<Notification>(doc, self.strictness),
                None => r matches Err(e)
                    && malformed(e@, Notification::entity())
                    && final(sink).deep_view() == old(sink).deep_view(),
            },
    {
        decode_bytes::<Notification>(bytes, self.strictness, sink)
    }

    /// Decodes the body of a notification response.
    pub fn notification(
        &self,
        bytes: &[u8],
    ) -> (r: Result<unified_notification::Notification, Error>)
        ensures
            match document_of(bytes@) {
                Some(doc) => outcome(r) == entity_of::<Notification>(doc, self.strictness),
                None => r matches Err(e) && malformed(e@, Notification::entity()),
            },
    {
        let mut unused: Vec<Warning> = Vec::new();
        decode_bytes::<Notification>(bytes, self.strictness, &mut unused)
    }
}

} // verus!
