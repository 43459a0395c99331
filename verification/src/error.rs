//! The closed set of failures that the decoders report.

use vstd::prelude::*;

verus! {

/// What went wrong.
#[derive(Debug, Clone, Copy, PartialEq, Eq, Structural)]
pub enum Kind {
    /// Malformed JSON, a missing or null required field, a value of the
    /// wrong JSON type, or a timestamp that cannot be read.
    ParseError,
    /// An enum spelling outside the recognized table, met in strict mode.
    UnknownVariantError,
    /// A failure raised by this library itself, described by its message.
    OwnError,
    /// A failure of the transport, handed through unchanged.
    HTTPError,
    /// Kept for kinds that may be added later.
    OtherError,
}

/// A failure, with what is known of its place.
#[derive(Debug, Clone, PartialEq, Eq)]
pub struct Error {
    pub kind: Kind,
    /// What happened, in words.
    pub message: String,
    /// The wire field at fault, where there is one.
    pub field: Option<String>,
    /// The raw text that could not be read, where there is one.
    pub fragment: Option<String>,
    /// The entity that was being decoded when the failure arose.
    pub entity: Option<String>,
}

/// The mathematical value of an [`Error`].
pub struct ErrorView {
    pub kind: Kind,
    pub message: Seq<char>,
    pub field: Option<Seq<char>>,
    pub fragment: Option<Seq<char>>,
    pub entity: Option<Seq<char>>,
}

impl DeepView for Error {
    type V = ErrorView;

    open spec fn deep_view(&self) -> ErrorView {
        ErrorView {
            kind: self.kind,
            message: self.message@,
            field: self.field.deep_view(),
            fragment: self.fragment.deep_view(),
            entity: self.entity.deep_view(),
        }
    }
}

impl View for Error {
    type V = ErrorView;

    open spec fn view(&self) -> ErrorView {
        self.deep_view()
    }
}

/// The mathematical value of what a decoder returns.
pub open spec fn outcome<T: DeepView>(r: Result<T, Error>) -> Result<T::V, ErrorView> {
    match r {
        Ok(value) => Ok(value.deep_view()),
        Err(e) => Err(e@),
    }
}

impl ErrorView {
    /// The same failure, marked with the entity that was being decoded. A
    /// failure that is marked already keeps its mark: the innermost entity
    /// is the one named.
    pub open spec fn within(self, entity: Seq<char>) -> ErrorView {
        if self.entity is Some {
            self
        } else {
            ErrorView { entity: Some(entity), ..self }
        }
    }

    /// The same failure, laid at a wire field.
    pub open spec fn at(self, field: Seq<char>) -> ErrorView {
        ErrorView { field: Some(field), ..self }
    }

    /// A failure of the library's own, with nothing known but its message.
    pub open spec fn own(message: Seq<char>, kind: Kind) -> ErrorView {
        ErrorView { kind, message, field: None, fragment: None, entity: None }
    }

    /// A parse failure at a named field.
    pub open spec fn at_field(message: Seq<char>, field: Seq<char>) -> ErrorView {
        ErrorView { kind: Kind::ParseError, message, field: Some(field), fragment: None, entity: None }
    }

    /// A required field is not there.
    pub open spec fn missing(field: Seq<char>) -> ErrorView {
        ErrorView::at_field("missing field"@, field)
    }

    /// A required field holds `null`.
    pub open spec fn null(field: Seq<char>) -> ErrorView {
        ErrorView::at_field("null in required field"@, field)
    }

    /// A field holds a value of another JSON type than the one expected.
    pub open spec fn wrong_type(field: Seq<char>) -> ErrorView {
        ErrorView::at_field("wrong JSON type"@, field)
    }

    /// A field that the record does not have, met in strict mode.
    pub open spec fn unknown_field(field: Seq<char>) -> ErrorView {
        ErrorView::at_field("unknown field"@, field)
    }

    /// A document, or a list item, that should be a JSON object and is none.
    pub open spec fn not_an_object() -> ErrorView {
        ErrorView::own("expected a JSON object"@, Kind::ParseError)
    }

    /// A document that should be a JSON string and is none.
    pub open spec fn not_a_string() -> ErrorView {
        ErrorView::own("expected a JSON string"@, Kind::ParseError)
    }

    /// A timestamp that cannot be read; the fragment is its text.
    pub open spec fn bad_timestamp(field: Seq<char>, text: Seq<char>) -> ErrorView {
        ErrorView {
            kind: Kind::ParseError,
            message: "unreadable timestamp"@,
            field: Some(field),
            fragment: Some(text),
            entity: None,
        }
    }

    /// An enum spelling outside the recognized table.
    pub open spec fn unknown_variant(spelling: Seq<char>) -> ErrorView {
        ErrorView {
            kind: Kind::UnknownVariantError,
            message: "unknown variant"@,
            field: None,
            fragment: Some(spelling),
            entity: None,
        }
    }
}

impl Error {
    /// A failure of the library's own: a message and a kind, no field, no
    /// fragment and no entity.
    pub fn new_own(message: String, kind: Kind) -> (e: Error)
        ensures
            e@ == ErrorView::own(message@, kind),
    {
        Error { kind, message, field: None, fragment: None, entity: None }
    }

    /// A parse failure at `field`, described by `message`.
    pub fn at_field(message: &str, field: &str) -> (e: Error)
        ensures
            e@ == ErrorView::at_field(message@, field@),
    {
        Error {
            kind: Kind::ParseError,
            message: message.to_owned(),
            field: Some(field.to_owned()),
            fragment: None,
            entity: None,
        }
    }

    /// The failure for a required field that is not there.
    pub fn missing(field: &str) -> (e: Error)
        ensures
            e@ == ErrorView::missing(field@),
    {
        Error::at_field("missing field", field)
    }

    /// The failure for a required field that holds `null`.
    pub fn null(field: &str) -> (e: Error)
        ensures
            e@ == ErrorView::null(field@),
    {
        Error::at_field("null in required field", field)
    }

    /// The failure for a value of the wrong JSON type.
    pub fn wrong_type(field: &str) -> (e: Error)
        ensures
            e@ == ErrorView::wrong_type(field@),
    {
        Error::at_field("wrong JSON type", field)
    }

    /// The failure for a field that the record does not have.
    pub fn unknown_field(field: &str) -> (e: Error)
        ensures
            e@ == ErrorView::unknown_field(field@),
    {
        Error::at_field("unknown field", field)
    }

    /// The failure for a value that should be a JSON object and is none.
    pub fn not_an_object() -> (e: Error)
        ensures
            e@ == ErrorView::not_an_object(),
    {
        Error::new_own("expected a JSON object".to_owned(), Kind::ParseError)
    }

    /// The failure for a value that should be a JSON string and is none.
    pub fn not_a_string() -> (e: Error)
        ensures
            e@ == ErrorView::not_a_string(),
    {
        Error::new_own("expected a JSON string".to_owned(), Kind::ParseError)
    }

    /// The failure for a timestamp that cannot be read.
    pub fn bad_timestamp(field: &str, text: &str) -> (e: Error)
        ensures
            e@ == ErrorView::bad_timestamp(field@, text@),
    {
        Error {
            kind: Kind::ParseError,
            message: "unreadable timestamp".to_owned(),
            field: Some(field.to_owned()),
            fragment: Some(text.to_owned()),
            entity: None,
        }
    }

    /// The failure for an enum spelling outside the recognized table.
    pub fn unknown_variant(spelling: &str) -> (e: Error)
        ensures
            e@ == ErrorView::unknown_variant(spelling@),
    {
        Error {
            kind: Kind::UnknownVariantError,
            message: "unknown variant".to_owned(),
            field: None,
            fragment: Some(spelling.to_owned()),
            entity: None,
        }
    }

    /// Lays the failure at a wire field; all else stays as it was.
    pub fn at(self, field: &str) -> (e: Error)
        ensures
            e@ == self@.at(field@),
    {
        Error {
            kind: self.kind,
            message: self.message,
            field: Some(field.to_owned()),
            fragment: self.fragment,
            entity: self.entity,
        }
    }

    /// Marks the failure with the entity that was being decoded, unless it
    /// is marked already; all else stays as it was.
    pub fn within(self, entity: &str) -> (e: Error)
        ensures
            e@ == self@.within(entity@),
    {
        if self.entity.is_some() {
            self
        } else {
            Error {
                kind: self.kind,
                message: self.message,
                field: self.field,
                fragment: self.fragment,
                entity: Some(entity.to_owned()),
            }
        }
    }
}

} // verus!
