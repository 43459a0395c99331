//! From the bytes of a Firefish response to an entity of the unified model.

use crate::error::{outcome, Error, ErrorView, Kind};
use crate::record::{malformed, FromJson};
use crate::firefish::oauth::{AppDataFromServer, TokenDataFromServer};
use crate::json::{document_of, lookup, Json, JsonValue};
use crate::oauth::{AppData, AppDataView, TokenData, TokenDataView};
use crate::strictness::Strictness;
use vstd::prelude::*;

verus! {

/// A decoder of Firefish responses, strict or lenient as it was built.
#[derive(Debug, Clone, Copy, PartialEq, Eq, Structural)]
pub struct Decoder {
    pub strictness: Strictness,
}

impl Default for Decoder {
    /// A lenient decoder.
    fn default() -> (decoder: Decoder)
        ensures
            decoder.strictness == Strictness::Lenient,
    {
        Decoder { strictness: Strictness::Lenient }
    }
}

/// The application that a registration response holds; a failure is marked
/// with the entity's name.
pub open spec fn app_data_of(doc: Json, mode: Strictness) -> Result<AppDataView, ErrorView> {
    match AppDataFromServer::of_json(doc, mode) {
        Ok(record) => match record.app_data() {
            Ok(app) => Ok(app),
            Err(e) => Err(e.within("AppData"@)),
        },
        Err(e) => Err(e.within("AppData"@)),
    }
}

/// The token that a token response holds; a failure is marked with the
/// entity's name.
pub open spec fn token_data_of(doc: Json, mode: Strictness) -> Result<TokenDataView, ErrorView> {
    match TokenDataFromServer::of_json(doc, mode) {
        Ok(record) => Ok(record.token_data()),
        Err(e) => Err(e.within("TokenData"@)),
    }
}

/// A registration response is decoded exactly where its fields can be read
/// and a secret is among them.
pub proof fn lemma_app_data_total(doc: Json, mode: Strictness)
    ensures
        app_data_of(doc, mode) is Ok <==> (doc matches Json::Object(fields)
            && AppDataFromServer::readable(fields, mode) && lookup(fields, "secret"@) matches Some(
            Json::Text(_),
        )),
        token_data_of(doc, mode) is Ok <==> (doc matches Json::Object(fields)
            && TokenDataFromServer::readable(fields, mode)),
{
    AppDataFromServer::lemma_total(doc, mode);
    TokenDataFromServer::lemma_total(doc, mode);
}

/// In lenient mode an entry under a name that the response does not have
/// changes nothing of what is decoded; in strict mode it makes the decoding
/// fail, with a parse failure at an unknown field.
pub proof fn lemma_app_data_unknown_field(
    fields: Seq<(Seq<char>, Json)>,
    at: int,
    key: Seq<char>,
    value: Json,
)
    requires
        0 <= at <= fields.len(),
        !AppDataFromServer::known_fields().contains(key),
    ensures
        app_data_of(Json::Object(fields.insert(at, (key, value))), Strictness::Lenient) == app_data_of(
            Json::Object(fields),
            Strictness::Lenient,
        ),
        app_data_of(Json::Object(fields.insert(at, (key, value))), Strictness::Strict) matches Err(e)
           
                && e.kind == Kind::ParseError
                && e.field is Some
                && !AppDataFromServer::known_fields().contains(
            e.field->0,
        ),
{
    AppDataFromServer::lemma_ignores_unknown(fields, at, key, value);
    AppDataFromServer::lemma_refuses_unknown(fields, at, key, value);
}

/// The same of a token response.
pub proof fn lemma_token_data_unknown_field(
    fields: Seq<(Seq<char>, Json)>,
    at: int,
    key: Seq<char>,
    value: Json,
)
    requires
        0 <= at <= fields.len(),
        !TokenDataFromServer::known_fields().contains(key),
    ensures
        token_data_of(Json::Object(fields.insert(at, (key, value))), Strictness::Lenient) == token_data_of(
            Json::Object(fields),
            Strictness::Lenient,
        ),
        token_data_of(Json::Object(fields.insert(at, (key, value))), Strictness::Strict) matches Err(e)
            && e.kind == Kind::ParseError && e.field is Some
            && !TokenDataFromServer::known_fields().contains(e.field->0),
{
    TokenDataFromServer::lemma_ignores_unknown(fields, at, key, value);
    TokenDataFromServer::lemma_refuses_unknown(fields, at, key, value);
}

impl Decoder {
    /// A decoder of the given strictness.
    pub fn new(strictness: Strictness) -> (decoder: Decoder)
        ensures
            decoder.strictness == strictness,
    {
        Decoder { strictness }
    }

    /// Decodes the document of a registration response.
    pub fn app_data_from_json(&self, doc: &JsonValue) -> (r: Result<AppData, Error>)
        ensures
            outcome(r) == app_data_of(doc@, self.strictness),
    {
        match AppDataFromServer::from_json(doc, self.strictness) {
            Ok(record) => match record.into_app_data() {
                Ok(app) => Ok(app),
                Err(e) => Err(e.within("AppData")),
            },
            Err(e) => Err(e.within("AppData")),
        }
    }

    /// Decodes the body of a registration response.
    pub fn app_data(&self, bytes: &[u8]) -> (r: Result<AppData, Error>)
        ensures
            match document_of(bytes@) {
                Some(doc) => outcome(r) == app_data_of(doc, self.strictness),
                None => r matches Err(e) && malformed(e@, "AppData"@),
            },
    {
        match JsonValue::parse(bytes) {
            Ok(doc) => self.app_data_from_json(&doc),
            Err(e) => Err(e.within("AppData")),
        }
    }

    /// Decodes the document of a token response.
    pub fn token_data_from_json(&self, doc: &JsonValue) -> (r: Result<TokenData, Error>)
        ensures
            outcome(r) == token_data_of(doc@, self.strictness),
    {
        match TokenDataFromServer::from_json(doc, self.strictness) {
            Ok(record) => Ok(record.into_token_data()),
            Err(e) => Err(e.within("TokenData")),
        }
    }

    /// Decodes the body of a token response.
    pub fn token_data(&self, bytes: &[u8]) -> (r: Result<TokenData, Error>)
        ensures
            match document_of(bytes@) {
                Some(doc) => outcome(r) == token_data_of(doc, self.strictness),
                None => r matches Err(e) && malformed(e@, "TokenData"@),
            },
    {
        match JsonValue::parse(bytes) {
            Ok(doc) => self.token_data_from_json(&doc),
            Err(e) => Err(e.within("TokenData")),
        }
    }
}

} // verus!
