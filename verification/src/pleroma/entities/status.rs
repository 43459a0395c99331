//! Pleroma's statuses as they come over the wire.

use crate::entities::status as unified;
use crate::error::{outcome, Error, ErrorView};
use crate::json::{lemma_insert_unknown, lemma_screen_refuses, 
    bool_at, check_fields, find, int_at, lemma_lookup_smaller, lookup, opt_text_at, optional_text,
    required_bool, required_int, required_text, screened, text_at, Json, JsonValue,
};
use crate::pleroma::entities::account::{Account, AccountRecord, Emoji, EmojiRecord};
use crate::record::{
    all_to_unified, all_to_unified_plain, list_at, opt_list_at,
    opt_record_at, optional_list, optional_record, record_at,
    required_list, required_record, unified_all, warnings_all, FromJson, ToUnified,
};
use crate::strictness::Strictness;
use crate::text::str_eq;
use crate::time::{instant_at, opt_instant_at, optional_instant, required_instant, Timestamp};
use crate::warning::{clamp_count, clamped, count_warnings, Warning, WarningView};
use vstd::prelude::*;

verus! {

/// The spelling of a visibility on Pleroma's wire.
pub open spec fn visibility_spelling(visibility: unified::VisibilityView) -> Seq<char> {
    match visibility {
        unified::VisibilityView::Public => "public"@,
        unified::VisibilityView::Unlisted => "unlisted"@,
        unified::VisibilityView::Private => "private"@,
        unified::VisibilityView::Direct => "direct"@,
        unified::VisibilityView::Unknown(s) => s,
    }
}

/// The visibility that Pleroma's table gives for a spelling, `None` where
/// the table does not hold it.
pub open spec fn visibility_read(s: Seq<char>) -> Option<unified::VisibilityView> {
    if s == "public"@ {
        Some(unified::VisibilityView::Public)
    } else if s == "unlisted"@ {
        Some(unified::VisibilityView::Unlisted)
    } else if s == "private"@ {
        Some(unified::VisibilityView::Private)
    } else if s == "direct"@ {
        Some(unified::VisibilityView::Direct)
    } else {
        None
    }
}

/// What a decoder makes of a visibility's spelling: the table's value; for
/// a spelling outside the table, the spelling kept as unknown in lenient
/// mode and a failure in strict mode.
pub open spec fn visibility_decoded(s: Seq<char>, mode: Strictness) -> Result<
    unified::VisibilityView,
    ErrorView,
> {
    match visibility_read(s) {
        Some(visibility) => Ok(visibility),
        None => match mode {
            Strictness::Lenient => Ok(unified::VisibilityView::Unknown(s)),
            Strictness::Strict => Err(ErrorView::unknown_variant(s)),
        },
    }
}

/// A required field that holds a visibility; a failure of the table is laid
/// at the field.
pub open spec fn visibility_at(
    fields: Seq<(Seq<char>, Json)>,
    name: Seq<char>,
    mode: Strictness,
) -> Result<
    unified::VisibilityView,
    ErrorView,
> {
    match text_at(fields, name) {
        Err(e) => Err(e),
        Ok(s) => match visibility_decoded(s, mode) {
            Ok(visibility) => Ok(visibility),
            Err(e) => Err(e.at(name)),
        },
    }
}

/// Reading the spelling of a visibility of the table gives it back, and a
/// spelling that is read as a visibility is that visibility's spelling.
pub proof fn lemma_visibility_round_trip(visibility: unified::VisibilityView, s: Seq<char>)
    ensures
        !(visibility is Unknown) ==> visibility_read(visibility_spelling(visibility)) == Some(visibility),
        visibility_read(s) matches Some(v) ==> visibility_spelling(v) == s && !(v is Unknown),
{
    reveal_strlit("public");
    reveal_strlit("unlisted");
    reveal_strlit("private");
    reveal_strlit("direct");
    assert("public"@.len() == 6 && "public"@[0] == 'p');
    assert("unlisted"@.len() == 8);
    assert("private"@.len() == 7);
    assert("direct"@.len() == 6 && "direct"@[0] == 'd');
}

/// Reads the spelling of a visibility.
pub fn read_visibility(s: &str, mode: Strictness) -> (r: Result<unified::StatusVisibility, Error>)
    ensures
        outcome(r) == visibility_decoded(s@, mode),
{
    if str_eq(s, "public") {
        Ok(unified::StatusVisibility::Public)
    } else if str_eq(s, "unlisted") {
        Ok(unified::StatusVisibility::Unlisted)
    } else if str_eq(s, "private") {
        Ok(unified::StatusVisibility::Private)
    } else if str_eq(s, "direct") {
        Ok(unified::StatusVisibility::Direct)
    } else {
        match mode {
            Strictness::Lenient => Ok(unified::StatusVisibility::Unknown(s.to_owned())),
            Strictness::Strict => Err(Error::unknown_variant(s)),
        }
    }
}

/// The spelling of a visibility on Pleroma's wire, for request payloads.
pub fn write_visibility(visibility: &unified::StatusVisibility) -> (s: String)
    ensures
        s@ == visibility_spelling(visibility.deep_view()),
{
    match visibility {
        unified::StatusVisibility::Public => "public".to_owned(),
        unified::StatusVisibility::Unlisted => "unlisted".to_owned(),
        unified::StatusVisibility::Private => "private".to_owned(),
        unified::StatusVisibility::Direct => "direct".to_owned(),
        unified::StatusVisibility::Unknown(s) => s.clone(),
    }
}

/// Reads a required field that holds a visibility.
pub fn required_visibility(
    entries: &Vec<(String, JsonValue)>,
    name: &str,
    mode: Strictness,
) -> (r: Result<
    unified::StatusVisibility,
    Error,
>)
    ensures
        outcome(r) == visibility_at(entries.deep_view(), name@, mode),
{
    let s = required_text(entries, name)?;
    match read_visibility(s.as_str(), mode) {
        Ok(visibility) => Ok(visibility),
        Err(e) => Err(e.at(name)),
    }
}

/// The spelling of a media type on Pleroma's wire.
pub open spec fn media_type_spelling(media_type: unified::MediaTypeView) -> Seq<char> {
    match media_type {
        unified::MediaTypeView::Image => "image"@,
        unified::MediaTypeView::Gifv => "gifv"@,
        unified::MediaTypeView::Video => "video"@,
        unified::MediaTypeView::Audio => "audio"@,
        unified::MediaTypeView::Unknown(s) => s,
    }
}

/// The media type that Pleroma's table gives for a spelling, `None` where
/// the table does not hold it.
pub open spec fn media_type_read(s: Seq<char>) -> Option<unified::MediaTypeView> {
    if s == "image"@ {
        Some(unified::MediaTypeView::Image)
    } else if s == "gifv"@ {
        Some(unified::MediaTypeView::Gifv)
    } else if s == "video"@ {
        Some(unified::MediaTypeView::Video)
    } else if s == "audio"@ {
        Some(unified::MediaTypeView::Audio)
    } else {
        None
    }
}

/// What a decoder makes of a media type's spelling: the table's value; for
/// a spelling outside the table, the spelling kept as unknown in lenient
/// mode and a failure in strict mode.
pub open spec fn media_type_decoded(s: Seq<char>, mode: Strictness) -> Result<
    unified::MediaTypeView,
    ErrorView,
> {
    match media_type_read(s) {
        Some(media_type) => Ok(media_type),
        None => match mode {
            Strictness::Lenient => Ok(unified::MediaTypeView::Unknown(s)),
            Strictness::Strict => Err(ErrorView::unknown_variant(s)),
        },
    }
}

/// A required field that holds a media type; a failure of the table is laid
/// at the field.
pub open spec fn media_type_at(
    fields: Seq<(Seq<char>, Json)>,
    name: Seq<char>,
    mode: Strictness,
) -> Result<
    unified::MediaTypeView,
    ErrorView,
> {
    match text_at(fields, name) {
        Err(e) => Err(e),
        Ok(s) => match media_type_decoded(s, mode) {
            Ok(media_type) => Ok(media_type),
            Err(e) => Err(e.at(name)),
        },
    }
}

/// Reading the spelling of a media type of the table gives it back, and a
/// spelling that is read as a media type is that type's spelling.
pub proof fn lemma_media_type_round_trip(media_type: unified::MediaTypeView, s: Seq<char>)
    ensures
        !(media_type is Unknown) ==> media_type_read(media_type_spelling(media_type)) == Some(media_type),
        media_type_read(s) matches Some(m) ==> media_type_spelling(m) == s && !(m is Unknown),
{
    reveal_strlit("image");
    reveal_strlit("gifv");
    reveal_strlit("video");
    reveal_strlit("audio");
    assert("image"@.len() == 5 && "image"@[0] == 'i');
    assert("gifv"@.len() == 4);
    assert("video"@.len() == 5 && "video"@[0] == 'v');
    assert("audio"@.len() == 5 && "audio"@[0] == 'a');
}

/// Reads the spelling of a media type.
pub fn read_media_type(s: &str, mode: Strictness) -> (r: Result<unified::MediaType, Error>)
    ensures
        outcome(r) == media_type_decoded(s@, mode),
{
    if str_eq(s, "image") {
        Ok(unified::MediaType::Image)
    } else if str_eq(s, "gifv") {
        Ok(unified::MediaType::Gifv)
    } else if str_eq(s, "video") {
        Ok(unified::MediaType::Video)
    } else if str_eq(s, "audio") {
        Ok(unified::MediaType::Audio)
    } else {
        match mode {
            Strictness::Lenient => Ok(unified::MediaType::Unknown(s.to_owned())),
            Strictness::Strict => Err(Error::unknown_variant(s)),
        }
    }
}

/// The spelling of a media type on Pleroma's wire.
pub fn write_media_type(media_type: &unified::MediaType) -> (s: String)
    ensures
        s@ == media_type_spelling(media_type.deep_view()),
{
    match media_type {
        unified::MediaType::Image => "image".to_owned(),
        unified::MediaType::Gifv => "gifv".to_owned(),
        unified::MediaType::Video => "video".to_owned(),
        unified::MediaType::Audio => "audio".to_owned(),
        unified::MediaType::Unknown(s) => s.clone(),
    }
}

/// Reads a required field that holds a media type.
pub fn required_media_type(
    entries: &Vec<(String, JsonValue)>,
    name: &str,
    mode: Strictness,
) -> (r: Result<
    unified::MediaType,
    Error,
>)
    ensures
        outcome(r) == media_type_at(entries.deep_view(), name@, mode),
{
    let s = required_text(entries, name)?;
    match read_media_type(s.as_str(), mode) {
        Ok(media_type) => Ok(media_type),
        Err(e) => Err(e.at(name)),
    }
}

/// A file attached to a status.
#[derive(Debug, PartialEq, Eq)]
pub struct Attachment {
    pub id: String,
    pub media_type: unified::MediaType,
    pub url: String,
    pub preview_url: Option<String>,
    pub description: Option<String>,
}

/// The mathematical value of a Pleroma [`Attachment`].
pub struct AttachmentRecord {
    pub id: Seq<char>,
    pub media_type: unified::MediaTypeView,
    pub url: Seq<char>,
    pub preview_url: Option<Seq<char>>,
    pub description: Option<Seq<char>>,
}

impl DeepView for Attachment {
    type V = AttachmentRecord;

    open spec fn deep_view(&self) -> AttachmentRecord {
        AttachmentRecord {
            id: self.id@,
            media_type: self.media_type.deep_view(),
            url: self.url@,
            preview_url: self.preview_url.deep_view(),
            description: self.description.deep_view(),
        }
    }
}

impl FromJson for Attachment {
    open spec fn entity() -> Seq<char> {
        "Attachment"@
    }

    open spec fn known_fields() -> Seq<Seq<char>> {
        seq!["id"@, "type"@, "url"@, "preview_url"@, "description"@]
    }

    open spec fn readable(fields: Seq<(Seq<char>, Json)>, mode: Strictness) -> bool {
        &&& screened(fields, Self::known_fields(), mode) is Ok
        &&& text_at(fields, "id"@) is Ok
        &&& media_type_at(fields, "type"@, mode) is Ok
        &&& text_at(fields, "url"@) is Ok
        &&& opt_text_at(fields, "preview_url"@) is Ok
        &&& opt_text_at(fields, "description"@) is Ok
    }

    /// The fields are screened first, then read in the order of
    /// `known_fields`; the first failure is the outcome.
    open spec fn of_json(doc: Json, mode: Strictness) -> Result<AttachmentRecord, ErrorView> {
        match doc {
            Json::Object(fields) => {
                let screen = screened(fields, Attachment::known_fields(), mode);
                let id = text_at(fields, "id"@);
                let media_type = media_type_at(fields, "type"@, mode);
                let url = text_at(fields, "url"@);
                let preview_url = opt_text_at(fields, "preview_url"@);
                let description = opt_text_at(fields, "description"@);
                if screen is Err {
                    Err(screen->Err_0)
                } else if id is Err {
                    Err(id->Err_0)
                } else if media_type is Err {
                    Err(media_type->Err_0)
                } else if url is Err {
                    Err(url->Err_0)
                } else if preview_url is Err {
                    Err(preview_url->Err_0)
                } else if description is Err {
                    Err(description->Err_0)
                } else {
                    Ok(
                        AttachmentRecord {
                            id: id->Ok_0,
                            media_type: media_type->Ok_0,
                            url: url->Ok_0,
                            preview_url: preview_url->Ok_0,
                            description: description->Ok_0,
                        },
                    )
                }
            },
            _ => Err(ErrorView::not_an_object()),
        }
    }

    fn entity_name() -> (name: &'static str) {
        "Attachment"
    }

    fn from_json(doc: &JsonValue, mode: Strictness) -> (r: Result<Attachment, Error>) {
        let entries = match doc.as_object() {
            Some(entries) => entries,
            None => { return Err(Error::not_an_object()); },
        };
        let known = vec!["id", "type", "url", "preview_url", "description"];
        assert(known.deep_view() =~= Attachment::known_fields());
        check_fields(entries, &known, mode)?;
        let id = required_text(entries, "id")?;
        let media_type = required_media_type(entries, "type", mode)?;
        let url = required_text(entries, "url")?;
        let preview_url = optional_text(entries, "preview_url")?;
        let description = optional_text(entries, "description")?;
        Ok(Attachment { id, media_type, url, preview_url, description })
    }

    proof fn lemma_total(doc: Json, mode: Strictness) {
    }

    proof fn lemma_ignores_unknown(
        fields: Seq<(Seq<char>, Json)>,
        at: int,
        key: Seq<char>,
        value: Json,
    ) {
        lemma_insert_unknown(fields, at, key, value, Self::known_fields(), 0);
        lemma_insert_unknown(fields, at, key, value, Self::known_fields(), 1);
        lemma_insert_unknown(fields, at, key, value, Self::known_fields(), 2);
        lemma_insert_unknown(fields, at, key, value, Self::known_fields(), 3);
        lemma_insert_unknown(fields, at, key, value, Self::known_fields(), 4);
    }

    proof fn lemma_refuses_unknown(
        fields: Seq<(Seq<char>, Json)>,
        at: int,
        key: Seq<char>,
        value: Json,
    ) {
        lemma_screen_refuses(fields, at, key, value, Self::known_fields());
    }
}

impl ToUnified for Attachment {
    type Unified = unified::Attachment;

    /// Every field as it came.
    open spec fn unified(wire: AttachmentRecord) -> unified::AttachmentView {
        unified::AttachmentView {
            id: wire.id,
            media_type: wire.media_type,
            url: wire.url,
            preview_url: wire.preview_url,
            description: wire.description,
        }
    }

    open spec fn warnings(wire: AttachmentRecord) -> Seq<WarningView> {
        Seq::empty()
    }

    fn to_unified(&self, sink: &mut Vec<Warning>) -> (entity: unified::Attachment) {
        assert(sink.deep_view() + Seq::<WarningView>::empty() =~= sink.deep_view());
        let entity = unified::Attachment {
            id: self.id.clone(),
            media_type: self.media_type.clone(),
            url: self.url.clone(),
            preview_url: copy_text(&self.preview_url),
            description: copy_text(&self.description),
        };
        assert(entity.deep_view() == Self::unified(self.deep_view()));
        entity
    }
}

/// An account named in a status.
#[derive(Debug, PartialEq, Eq)]
pub struct Mention {
    pub id: String,
    pub username: String,
    pub url: String,
    pub acct: String,
}

/// The mathematical value of a Pleroma [`Mention`].
pub struct MentionRecord {
    pub id: Seq<char>,
    pub username: Seq<char>,
    pub url: Seq<char>,
    pub acct: Seq<char>,
}

impl DeepView for Mention {
    type V = MentionRecord;

    open spec fn deep_view(&self) -> MentionRecord {
        MentionRecord {
            id: self.id@,
            username: self.username@,
            url: self.url@,
            acct: self.acct@,
        }
    }
}

impl FromJson for Mention {
    open spec fn entity() -> Seq<char> {
        "Mention"@
    }

    open spec fn known_fields() -> Seq<Seq<char>> {
        seq!["id"@, "username"@, "url"@, "acct"@]
    }

    open spec fn readable(fields: Seq<(Seq<char>, Json)>, mode: Strictness) -> bool {
        &&& screened(fields, Self::known_fields(), mode) is Ok
        &&& text_at(fields, "id"@) is Ok
        &&& text_at(fields, "username"@) is Ok
        &&& text_at(fields, "url"@) is Ok
        &&& text_at(fields, "acct"@) is Ok
    }

    /// The fields are screened first, then read in the order of
    /// `known_fields`; the first failure is the outcome.
    open spec fn of_json(doc: Json, mode: Strictness) -> Result<MentionRecord, ErrorView> {
        match doc {
            Json::Object(fields) => {
                let screen = screened(fields, Mention::known_fields(), mode);
                let id = text_at(fields, "id"@);
                let username = text_at(fields, "username"@);
                let url = text_at(fields, "url"@);
                let acct = text_at(fields, "acct"@);
                if screen is Err {
                    Err(screen->Err_0)
                } else if id is Err {
                    Err(id->Err_0)
                } else if username is Err {
                    Err(username->Err_0)
                } else if url is Err {
                    Err(url->Err_0)
                } else if acct is Err {
                    Err(acct->Err_0)
                } else {
                    Ok(
                        MentionRecord {
                            id: id->Ok_0,
                            username: username->Ok_0,
                            url: url->Ok_0,
                            acct: acct->Ok_0,
                        },
                    )
                }
            },
            _ => Err(ErrorView::not_an_object()),
        }
    }

    fn entity_name() -> (name: &'static str) {
        "Mention"
    }

    fn from_json(doc: &JsonValue, mode: Strictness) -> (r: Result<Mention, Error>) {
        let entries = match doc.as_object() {
            Some(entries) => entries,
            None => { return Err(Error::not_an_object()); },
        };
        let known = vec!["id", "username", "url", "acct"];
        assert(known.deep_view() =~= Mention::known_fields());
        check_fields(entries, &known, mode)?;
        let id = required_text(entries, "id")?;
        let username = required_text(entries, "username")?;
        let url = required_text(entries, "url")?;
        let acct = required_text(entries, "acct")?;
        Ok(Mention { id, username, url, acct })
    }

    proof fn lemma_total(doc: Json, mode: Strictness) {
    }

    proof fn lemma_ignores_unknown(
        fields: Seq<(Seq<char>, Json)>,
        at: int,
        key: Seq<char>,
        value: Json,
    ) {
        lemma_insert_unknown(fields, at, key, value, Self::known_fields(), 0);
        lemma_insert_unknown(fields, at, key, value, Self::known_fields(), 1);
        lemma_insert_unknown(fields, at, key, value, Self::known_fields(), 2);
        lemma_insert_unknown(fields, at, key, value, Self::known_fields(), 3);
    }

    proof fn lemma_refuses_unknown(
        fields: Seq<(Seq<char>, Json)>,
        at: int,
        key: Seq<char>,
        value: Json,
    ) {
        lemma_screen_refuses(fields, at, key, value, Self::known_fields());
    }
}

impl ToUnified for Mention {
    type Unified = unified::Mention;

    /// Every field as it came.
    open spec fn unified(wire: MentionRecord) -> unified::MentionView {
        unified::MentionView {
            id: wire.id,
            username: wire.username,
            url: wire.url,
            acct: wire.acct,
        }
    }

    open spec fn warnings(wire: MentionRecord) -> Seq<WarningView> {
        Seq::empty()
    }

    fn to_unified(&self, sink: &mut Vec<Warning>) -> (entity: unified::Mention) {
        assert(sink.deep_view() + Seq::<WarningView>::empty() =~= sink.deep_view());
        let entity = unified::Mention {
            id: self.id.clone(),
            username: self.username.clone(),
            url: self.url.clone(),
            acct: self.acct.clone(),
        };
        assert(entity.deep_view() == Self::unified(self.deep_view()));
        entity
    }
}

/// A hashtag used in a status.
#[derive(Debug, PartialEq, Eq)]
pub struct Tag {
    pub name: String,
    pub url: String,
}

/// The mathematical value of a Pleroma [`Tag`].
pub struct TagRecord {
    pub name: Seq<char>,
    pub url: Seq<char>,
}

impl DeepView for Tag {
    type V = TagRecord;

    open spec fn deep_view(&self) -> TagRecord {
        TagRecord {
            name: self.name@,
            url: self.url@,
        }
    }
}

impl FromJson for Tag {
    open spec fn entity() -> Seq<char> {
        "Tag"@
    }

    open spec fn known_fields() -> Seq<Seq<char>> {
        seq!["name"@, "url"@]
    }

    open spec fn readable(fields: Seq<(Seq<char>, Json)>, mode: Strictness) -> bool {
        &&& screened(fields, Self::known_fields(), mode) is Ok
        &&& text_at(fields, "name"@) is Ok
        &&& text_at(fields, "url"@) is Ok
    }

    /// The fields are screened first, then read in the order of
    /// `known_fields`; the first failure is the outcome.
    open spec fn of_json(doc: Json, mode: Strictness) -> Result<TagRecord, ErrorView> {
        match doc {
            Json::Object(fields) => {
                let screen = screened(fields, Tag::known_fields(), mode);
                let name = text_at(fields, "name"@);
                let url = text_at(fields, "url"@);
                if screen is Err {
                    Err(screen->Err_0)
                } else if name is Err {
                    Err(name->Err_0)
                } else if url is Err {
                    Err(url->Err_0)
                } else {
                    Ok(
                        TagRecord {
                            name: name->Ok_0,
                            url: url->Ok_0,
                        },
                    )
                }
            },
            _ => Err(ErrorView::not_an_object()),
        }
    }

    fn entity_name() -> (name: &'static str) {
        "Tag"
    }

    fn from_json(doc: &JsonValue, mode: Strictness) -> (r: Result<Tag, Error>) {
        let entries = match doc.as_object() {
            Some(entries) => entries,
            None => { return Err(Error::not_an_object()); },
        };
        let known = vec!["name", "url"];
        assert(known.deep_view() =~= Tag::known_fields());
        check_fields(entries, &known, mode)?;
        let name = required_text(entries, "name")?;
        let url = required_text(entries, "url")?;
        Ok(Tag { name, url })
    }

    proof fn lemma_total(doc: Json, mode: Strictness) {
    }

    proof fn lemma_ignores_unknown(
        fields: Seq<(Seq<char>, Json)>,
        at: int,
        key: Seq<char>,
        value: Json,
    ) {
        lemma_insert_unknown(fields, at, key, value, Self::known_fields(), 0);
        lemma_insert_unknown(fields, at, key, value, Self::known_fields(), 1);
    }

    proof fn lemma_refuses_unknown(
        fields: Seq<(Seq<char>, Json)>,
        at: int,
        key: Seq<char>,
        value: Json,
    ) {
        lemma_screen_refuses(fields, at, key, value, Self::known_fields());
    }
}

impl ToUnified for Tag {
    type Unified = unified::Tag;

    /// Every field as it came.
    open spec fn unified(wire: TagRecord) -> unified::TagView {
        unified::TagView {
            name: wire.name,
            url: wire.url,
        }
    }

    open spec fn warnings(wire: TagRecord) -> Seq<WarningView> {
        Seq::empty()
    }

    fn to_unified(&self, sink: &mut Vec<Warning>) -> (entity: unified::Tag) {
        assert(sink.deep_view() + Seq::<WarningView>::empty() =~= sink.deep_view());
        let entity = unified::Tag {
            name: self.name.clone(),
            url: self.url.clone(),
        };
        assert(entity.deep_view() == Self::unified(self.deep_view()));
        entity
    }
}

/// How often a status was answered with one emoji.
#[derive(Debug, PartialEq, Eq)]
pub struct Reaction {
    pub name: String,
    pub count: i64,
    /// Whether the reader's own account is among those who reacted.
    pub me: bool,
}

/// The mathematical value of a Pleroma [`Reaction`].
pub struct ReactionRecord {
    pub name: Seq<char>,
    pub count: i64,
    pub me: bool,
}

impl DeepView for Reaction {
    type V = ReactionRecord;

    open spec fn deep_view(&self) -> ReactionRecord {
        ReactionRecord {
            name: self.name@,
            count: self.count,
            me: self.me,
        }
    }
}

impl FromJson for Reaction {
    open spec fn entity() -> Seq<char> {
        "Reaction"@
    }

    open spec fn known_fields() -> Seq<Seq<char>> {
        seq!["name"@, "count"@, "me"@]
    }

    open spec fn readable(fields: Seq<(Seq<char>, Json)>, mode: Strictness) -> bool {
        &&& screened(fields, Self::known_fields(), mode) is Ok
        &&& text_at(fields, "name"@) is Ok
        &&& int_at(fields, "count"@) is Ok
        &&& bool_at(fields, "me"@) is Ok
    }

    /// The fields are screened first, then read in the order of
    /// `known_fields`; the first failure is the outcome.
    open spec fn of_json(doc: Json, mode: Strictness) -> Result<ReactionRecord, ErrorView> {
        match doc {
            Json::Object(fields) => {
                let screen = screened(fields, Reaction::known_fields(), mode);
                let name = text_at(fields, "name"@);
                let count = int_at(fields, "count"@);
                let me = bool_at(fields, "me"@);
                if screen is Err {
                    Err(screen->Err_0)
                } else if name is Err {
                    Err(name->Err_0)
                } else if count is Err {
                    Err(count->Err_0)
                } else if me is Err {
                    Err(me->Err_0)
                } else {
                    Ok(
                        ReactionRecord {
                            name: name->Ok_0,
                            count: count->Ok_0,
                            me: me->Ok_0,
                        },
                    )
                }
            },
            _ => Err(ErrorView::not_an_object()),
        }
    }

    fn entity_name() -> (name: &'static str) {
        "Reaction"
    }

    fn from_json(doc: &JsonValue, mode: Strictness) -> (r: Result<Reaction, Error>) {
        let entries = match doc.as_object() {
            Some(entries) => entries,
            None => { return Err(Error::not_an_object()); },
        };
        let known = vec!["name", "count", "me"];
        assert(known.deep_view() =~= Reaction::known_fields());
        check_fields(entries, &known, mode)?;
        let name = required_text(entries, "name")?;
        let count = required_int(entries, "count")?;
        let me = required_bool(entries, "me")?;
        Ok(Reaction { name, count, me })
    }

    proof fn lemma_total(doc: Json, mode: Strictness) {
    }

    proof fn lemma_ignores_unknown(
        fields: Seq<(Seq<char>, Json)>,
        at: int,
        key: Seq<char>,
        value: Json,
    ) {
        lemma_insert_unknown(fields, at, key, value, Self::known_fields(), 0);
        lemma_insert_unknown(fields, at, key, value, Self::known_fields(), 1);
        lemma_insert_unknown(fields, at, key, value, Self::known_fields(), 2);
    }

    proof fn lemma_refuses_unknown(
        fields: Seq<(Seq<char>, Json)>,
        at: int,
        key: Seq<char>,
        value: Json,
    ) {
        lemma_screen_refuses(fields, at, key, value, Self::known_fields());
    }
}

impl ToUnified for Reaction {
    type Unified = unified::Reaction;

    /// The name and the flag as they came; the count is zero where the
    /// wire's is negative.
    open spec fn unified(wire: ReactionRecord) -> unified::ReactionView {
        unified::ReactionView { name: wire.name, count: clamped(wire.count), me: wire.me }
    }

    /// One warning where the count is negative.
    open spec fn warnings(wire: ReactionRecord) -> Seq<WarningView> {
        count_warnings("count"@, wire.count)
    }

    fn to_unified(&self, sink: &mut Vec<Warning>) -> (entity: unified::Reaction) {
        let count = clamp_count("count", self.count, sink);
        let entity = unified::Reaction { name: self.name.clone(), count, me: self.me };
        assert(entity.deep_view() == Self::unified(self.deep_view()));
        entity
    }
}

/// The renderings of a status that Pleroma adds to the HTML one.
#[derive(Debug, PartialEq, Eq)]
pub struct Content {
    pub plain: Option<String>,
}

/// The mathematical value of a Pleroma [`Content`].
pub struct ContentRecord {
    pub plain: Option<Seq<char>>,
}

impl DeepView for Content {
    type V = ContentRecord;

    open spec fn deep_view(&self) -> ContentRecord {
        ContentRecord {
            plain: self.plain.deep_view(),
        }
    }
}

impl FromJson for Content {
    open spec fn entity() -> Seq<char> {
        "Content"@
    }

    open spec fn known_fields() -> Seq<Seq<char>> {
        seq!["text/plain"@]
    }

    open spec fn readable(fields: Seq<(Seq<char>, Json)>, mode: Strictness) -> bool {
        &&& screened(fields, Self::known_fields(), mode) is Ok
        &&& opt_text_at(fields, "text/plain"@) is Ok
    }

    /// The fields are screened first, then read in the order of
    /// `known_fields`; the first failure is the outcome.
    open spec fn of_json(doc: Json, mode: Strictness) -> Result<ContentRecord, ErrorView> {
        match doc {
            Json::Object(fields) => {
                let screen = screened(fields, Content::known_fields(), mode);
                let plain = opt_text_at(fields, "text/plain"@);
                if screen is Err {
                    Err(screen->Err_0)
                } else if plain is Err {
                    Err(plain->Err_0)
                } else {
                    Ok(
                        ContentRecord {
                            plain: plain->Ok_0,
                        },
                    )
                }
            },
            _ => Err(ErrorView::not_an_object()),
        }
    }

    fn entity_name() -> (name: &'static str) {
        "Content"
    }

    fn from_json(doc: &JsonValue, mode: Strictness) -> (r: Result<Content, Error>) {
        let entries = match doc.as_object() {
            Some(entries) => entries,
            None => { return Err(Error::not_an_object()); },
        };
        let known = vec!["text/plain"];
        assert(known.deep_view() =~= Content::known_fields());
        check_fields(entries, &known, mode)?;
        let plain = optional_text(entries, "text/plain")?;
        Ok(Content { plain })
    }

    proof fn lemma_total(doc: Json, mode: Strictness) {
    }

    proof fn lemma_ignores_unknown(
        fields: Seq<(Seq<char>, Json)>,
        at: int,
        key: Seq<char>,
        value: Json,
    ) {
        lemma_insert_unknown(fields, at, key, value, Self::known_fields(), 0);
    }

    proof fn lemma_refuses_unknown(
        fields: Seq<(Seq<char>, Json)>,
        at: int,
        key: Seq<char>,
        value: Json,
    ) {
        lemma_screen_refuses(fields, at, key, value, Self::known_fields());
    }
}

/// What Pleroma adds to a status, under the key `pleroma`. It is part of
/// the status, and its failures are marked with the status's name.
#[derive(Debug, PartialEq, Eq)]
pub struct Extension {
    pub content: Option<Content>,
    /// Empty where the server sent none.
    pub emoji_reactions: Vec<Reaction>,
}

/// The mathematical value of a Pleroma [`Extension`].
pub struct ExtensionRecord {
    pub content: Option<ContentRecord>,
    pub emoji_reactions: Seq<ReactionRecord>,
}

impl DeepView for Extension {
    type V = ExtensionRecord;

    open spec fn deep_view(&self) -> ExtensionRecord {
        ExtensionRecord {
            content: self.content.deep_view(),
            emoji_reactions: self.emoji_reactions.deep_view(),
        }
    }
}

impl FromJson for Extension {
    open spec fn entity() -> Seq<char> {
        "Status"@
    }

    open spec fn known_fields() -> Seq<Seq<char>> {
        seq!["content"@, "emoji_reactions"@]
    }

    open spec fn readable(fields: Seq<(Seq<char>, Json)>, mode: Strictness) -> bool {
        &&& screened(fields, Self::known_fields(), mode) is Ok
        &&& opt_record_at::<Content>(fields, "content"@, mode) is Ok
        &&& opt_list_at::<Reaction>(fields, "emoji_reactions"@, mode) is Ok
    }

    /// The fields are screened first, then read in the order of
    /// `known_fields`; the first failure is the outcome.
    open spec fn of_json(doc: Json, mode: Strictness) -> Result<ExtensionRecord, ErrorView> {
        match doc {
            Json::Object(fields) => {
                let screen = screened(fields, Extension::known_fields(), mode);
                let content = opt_record_at::<Content>(fields, "content"@, mode);
                let emoji_reactions = opt_list_at::<Reaction>(fields, "emoji_reactions"@, mode);
                if screen is Err {
                    Err(screen->Err_0)
                } else if content is Err {
                    Err(content->Err_0)
                } else if emoji_reactions is Err {
                    Err(emoji_reactions->Err_0)
                } else {
                    Ok(
                        ExtensionRecord {
                            content: content->Ok_0,
                            emoji_reactions: emoji_reactions->Ok_0,
                        },
                    )
                }
            },
            _ => Err(ErrorView::not_an_object()),
        }
    }

    fn entity_name() -> (name: &'static str) {
        "Status"
    }

    fn from_json(doc: &JsonValue, mode: Strictness) -> (r: Result<Extension, Error>) {
        let entries = match doc.as_object() {
            Some(entries) => entries,
            None => { return Err(Error::not_an_object()); },
        };
        let known = vec!["content", "emoji_reactions"];
        assert(known.deep_view() =~= Extension::known_fields());
        check_fields(entries, &known, mode)?;
        let content = optional_record::<Content>(entries, "content", mode)?;
        let emoji_reactions = optional_list::<Reaction>(entries, "emoji_reactions", mode)?;
        Ok(Extension { content, emoji_reactions })
    }

    proof fn lemma_total(doc: Json, mode: Strictness) {
    }

    proof fn lemma_ignores_unknown(
        fields: Seq<(Seq<char>, Json)>,
        at: int,
        key: Seq<char>,
        value: Json,
    ) {
        lemma_insert_unknown(fields, at, key, value, Self::known_fields(), 0);
        lemma_insert_unknown(fields, at, key, value, Self::known_fields(), 1);
    }

    proof fn lemma_refuses_unknown(
        fields: Seq<(Seq<char>, Json)>,
        at: int,
        key: Seq<char>,
        value: Json,
    ) {
        lemma_screen_refuses(fields, at, key, value, Self::known_fields());
    }
}

/// The application that posted a status.
#[derive(Debug, PartialEq, Eq)]
pub struct Application {
    pub name: String,
    pub website: Option<String>,
}

/// The mathematical value of a Pleroma [`Application`].
pub struct ApplicationRecord {
    pub name: Seq<char>,
    pub website: Option<Seq<char>>,
}

impl DeepView for Application {
    type V = ApplicationRecord;

    open spec fn deep_view(&self) -> ApplicationRecord {
        ApplicationRecord {
            name: self.name@,
            website: self.website.deep_view(),
        }
    }
}

impl FromJson for Application {
    open spec fn entity() -> Seq<char> {
        "Application"@
    }

    open spec fn known_fields() -> Seq<Seq<char>> {
        seq!["name"@, "website"@]
    }

    open spec fn readable(fields: Seq<(Seq<char>, Json)>, mode: Strictness) -> bool {
        &&& screened(fields, Self::known_fields(), mode) is Ok
        &&& text_at(fields, "name"@) is Ok
        &&& opt_text_at(fields, "website"@) is Ok
    }

    /// The fields are screened first, then read in the order of
    /// `known_fields`; the first failure is the outcome.
    open spec fn of_json(doc: Json, mode: Strictness) -> Result<ApplicationRecord, ErrorView> {
        match doc {
            Json::Object(fields) => {
                let screen = screened(fields, Application::known_fields(), mode);
                let name = text_at(fields, "name"@);
                let website = opt_text_at(fields, "website"@);
                if screen is Err {
                    Err(screen->Err_0)
                } else if name is Err {
                    Err(name->Err_0)
                } else if website is Err {
                    Err(website->Err_0)
                } else {
                    Ok(
                        ApplicationRecord {
                            name: name->Ok_0,
                            website: website->Ok_0,
                        },
                    )
                }
            },
            _ => Err(ErrorView::not_an_object()),
        }
    }

    fn entity_name() -> (name: &'static str) {
        "Application"
    }

    fn from_json(doc: &JsonValue, mode: Strictness) -> (r: Result<Application, Error>) {
        let entries = match doc.as_object() {
            Some(entries) => entries,
            None => { return Err(Error::not_an_object()); },
        };
        let known = vec!["name", "website"];
        assert(known.deep_view() =~= Application::known_fields());
        check_fields(entries, &known, mode)?;
        let name = required_text(entries, "name")?;
        let website = optional_text(entries, "website")?;
        Ok(Application { name, website })
    }

    proof fn lemma_total(doc: Json, mode: Strictness) {
    }

    proof fn lemma_ignores_unknown(
        fields: Seq<(Seq<char>, Json)>,
        at: int,
        key: Seq<char>,
        value: Json,
    ) {
        lemma_insert_unknown(fields, at, key, value, Self::known_fields(), 0);
        lemma_insert_unknown(fields, at, key, value, Self::known_fields(), 1);
    }

    proof fn lemma_refuses_unknown(
        fields: Seq<(Seq<char>, Json)>,
        at: int,
        key: Seq<char>,
        value: Json,
    ) {
        lemma_screen_refuses(fields, at, key, value, Self::known_fields());
    }
}

/// A status.
#[derive(Debug, PartialEq, Eq)]
pub struct Status {
    pub id: String,
    pub uri: String,
    pub url: Option<String>,
    pub account: Account,
    pub content: String,
    pub created_at: Timestamp,
    pub edited_at: Option<Timestamp>,
    pub in_reply_to_id: Option<String>,
    pub reblog: Option<Box<Status>>,
    pub media_attachments: Vec<Attachment>,
    pub mentions: Vec<Mention>,
    pub tags: Vec<Tag>,
    pub emojis: Vec<Emoji>,
    pub visibility: unified::StatusVisibility,
    pub favourites_count: i64,
    pub reblogs_count: i64,
    pub replies_count: i64,
    pub sensitive: bool,
    pub spoiler_text: Option<String>,
    pub language: Option<String>,
    pub application: Option<Application>,
    pub pleroma: Option<Extension>,
}

/// The mathematical value of a Pleroma [`Status`].
pub struct StatusRecord {
    pub id: Seq<char>,
    pub uri: Seq<char>,
    pub url: Option<Seq<char>>,
    pub account: AccountRecord,
    pub content: Seq<char>,
    pub created_at: Timestamp,
    pub edited_at: Option<Timestamp>,
    pub in_reply_to_id: Option<Seq<char>>,
    pub reblog: Option<Box<StatusRecord>>,
    pub media_attachments: Seq<AttachmentRecord>,
    pub mentions: Seq<MentionRecord>,
    pub tags: Seq<TagRecord>,
    pub emojis: Seq<EmojiRecord>,
    pub visibility: unified::VisibilityView,
    pub favourites_count: i64,
    pub reblogs_count: i64,
    pub replies_count: i64,
    pub sensitive: bool,
    pub spoiler_text: Option<Seq<char>>,
    pub language: Option<Seq<char>>,
    pub application: Option<ApplicationRecord>,
    pub pleroma: Option<ExtensionRecord>,
}

/// The mathematical value of a status.
pub open spec fn record_of(status: Status) -> StatusRecord
    decreases status,
{
    StatusRecord {
        id: status.id@,
        uri: status.uri@,
        url: status.url.deep_view(),
        account: status.account.deep_view(),
        content: status.content@,
        created_at: status.created_at,
        edited_at: status.edited_at,
        in_reply_to_id: status.in_reply_to_id.deep_view(),
        reblog: match status.reblog {
        Some(inner) => Some(Box::new(record_of(*inner))),
        None => None,
    },
        media_attachments: status.media_attachments.deep_view(),
        mentions: status.mentions.deep_view(),
        tags: status.tags.deep_view(),
        emojis: status.emojis.deep_view(),
        visibility: status.visibility.deep_view(),
        favourites_count: status.favourites_count,
        reblogs_count: status.reblogs_count,
        replies_count: status.replies_count,
        sensitive: status.sensitive,
        spoiler_text: status.spoiler_text.deep_view(),
        language: status.language.deep_view(),
        application: status.application.deep_view(),
        pleroma: status.pleroma.deep_view(),
    }
}

/// A copy of a status, field by field: it holds what the status holds.
fn copy_of(status: &Status) -> (copy: Status)
    ensures
        copy.deep_view() == status.deep_view(),
    decreases status,
{
    let copy = Status {
        id: status.id.clone(),
        uri: status.uri.clone(),
        url: status.url.clone(),
        account: status.account.clone(),
        content: status.content.clone(),
        created_at: status.created_at,
        edited_at: status.edited_at,
        in_reply_to_id: status.in_reply_to_id.clone(),
        reblog: match &status.reblog {
            Some(inner) => Some(Box::new(copy_of(inner))),
            None => None,
        },
        media_attachments: status.media_attachments.clone(),
        mentions: status.mentions.clone(),
        tags: status.tags.clone(),
        emojis: status.emojis.clone(),
        visibility: status.visibility.clone(),
        favourites_count: status.favourites_count,
        reblogs_count: status.reblogs_count,
        replies_count: status.replies_count,
        sensitive: status.sensitive,
        spoiler_text: status.spoiler_text.clone(),
        language: status.language.clone(),
        application: status.application.clone(),
        pleroma: status.pleroma.clone(),
    };
    assert(copy.media_attachments.deep_view() =~= status.media_attachments.deep_view());
    assert(copy.mentions.deep_view() =~= status.mentions.deep_view());
    assert(copy.tags.deep_view() =~= status.tags.deep_view());
    assert(copy.emojis.deep_view() =~= status.emojis.deep_view());
    copy
}

impl Clone for Status {
    fn clone(&self) -> (copy: Status)
        ensures
            copy.deep_view() == self.deep_view(),
    {
        copy_of(self)
    }
}

impl Clone for Attachment {
    fn clone(&self) -> (copy: Attachment)
        ensures
            copy.deep_view() == self.deep_view(),
    {
        let copy = Attachment {
            id: self.id.clone(),
            media_type: self.media_type.clone(),
            url: self.url.clone(),
            preview_url: self.preview_url.clone(),
            description: self.description.clone(),
        };
        copy
    }
}

impl Clone for Mention {
    fn clone(&self) -> (copy: Mention)
        ensures
            copy.deep_view() == self.deep_view(),
    {
        let copy = Mention {
            id: self.id.clone(),
            username: self.username.clone(),
            url: self.url.clone(),
            acct: self.acct.clone(),
        };
        copy
    }
}

impl Clone for Tag {
    fn clone(&self) -> (copy: Tag)
        ensures
            copy.deep_view() == self.deep_view(),
    {
        let copy = Tag {
            name: self.name.clone(),
            url: self.url.clone(),
        };
        copy
    }
}

impl Clone for Reaction {
    fn clone(&self) -> (copy: Reaction)
        ensures
            copy.deep_view() == self.deep_view(),
    {
        let copy = Reaction {
            name: self.name.clone(),
            count: self.count,
            me: self.me,
        };
        copy
    }
}

impl Clone for Content {
    fn clone(&self) -> (copy: Content)
        ensures
            copy.deep_view() == self.deep_view(),
    {
        let copy = Content {
            plain: self.plain.clone(),
        };
        copy
    }
}

impl Clone for Extension {
    fn clone(&self) -> (copy: Extension)
        ensures
            copy.deep_view() == self.deep_view(),
    {
        let copy = Extension {
            content: self.content.clone(),
            emoji_reactions: self.emoji_reactions.clone(),
        };
        assert(copy.emoji_reactions.deep_view() =~= self.emoji_reactions.deep_view());
        copy
    }
}

impl Clone for Application {
    fn clone(&self) -> (copy: Application)
        ensures
            copy.deep_view() == self.deep_view(),
    {
        let copy = Application {
            name: self.name.clone(),
            website: self.website.clone(),
        };
        copy
    }
}

impl DeepView for Status {
    type V = StatusRecord;

    open spec fn deep_view(&self) -> StatusRecord {
        record_of(*self)
    }
}

impl View for Status {
    type V = StatusRecord;

    open spec fn view(&self) -> StatusRecord {
        self.deep_view()
    }
}

/// The optional field `reblog`: the status under it, read as any status is
/// and its failure marked as a nested record's is; absent where the field
/// is missing or null.
pub open spec fn reblog_at(fields: Seq<(Seq<char>, Json)>, mode: Strictness) -> Result<
    Option<Box<StatusRecord>>,
    ErrorView,
>
    decreases fields, 0int,
{
    match lookup(fields, "reblog"@) {
        None => Ok(None),
        Some(Json::Null) => Ok(None),
        Some(inner) => if inner is Object {
            proof {
                lemma_lookup_smaller(fields, "reblog"@);
            }
            match status_of(inner, mode) {
                Ok(status) => Ok(Some(Box::new(status))),
                Err(e) => Err(e.within("Status"@)),
            }
        } else {
            Err(ErrorView::wrong_type("reblog"@))
        },
    }
}

/// The status that a document holds. The fields are screened first, then
/// read in the order of `known_fields`; the first failure is the outcome.
/// The status under `reblog` is read in the same way, and its failure is
/// marked as a nested record's is.
pub open spec fn status_of(doc: Json, mode: Strictness) -> Result<StatusRecord, ErrorView>
    decreases doc, 1int,
{
    match doc {
        Json::Object(fields) => {
            let screen = screened(fields, Status::known_fields(), mode);
            let id = text_at(fields, "id"@);
            let uri = text_at(fields, "uri"@);
            let url = opt_text_at(fields, "url"@);
            let account = record_at::<Account>(fields, "account"@, mode);
            let content = text_at(fields, "content"@);
            let created_at = instant_at(fields, "created_at"@);
            let edited_at = opt_instant_at(fields, "edited_at"@);
            let in_reply_to_id = opt_text_at(fields, "in_reply_to_id"@);
            let reblog = reblog_at(fields, mode);
            let media_attachments = list_at::<Attachment>(fields, "media_attachments"@, mode);
            let mentions = list_at::<Mention>(fields, "mentions"@, mode);
            let tags = list_at::<Tag>(fields, "tags"@, mode);
            let emojis = list_at::<Emoji>(fields, "emojis"@, mode);
            let visibility = visibility_at(fields, "visibility"@, mode);
            let favourites_count = int_at(fields, "favourites_count"@);
            let reblogs_count = int_at(fields, "reblogs_count"@);
            let replies_count = int_at(fields, "replies_count"@);
            let sensitive = bool_at(fields, "sensitive"@);
            let spoiler_text = opt_text_at(fields, "spoiler_text"@);
            let language = opt_text_at(fields, "language"@);
            let application = opt_record_at::<Application>(fields, "application"@, mode);
            let pleroma = opt_record_at::<Extension>(fields, "pleroma"@, mode);
            if screen is Err {
                Err(screen->Err_0)
            } else if id is Err {
                Err(id->Err_0)
            } else if uri is Err {
                Err(uri->Err_0)
            } else if url is Err {
                Err(url->Err_0)
            } else if account is Err {
                Err(account->Err_0)
            } else if content is Err {
                Err(content->Err_0)
            } else if created_at is Err {
                Err(created_at->Err_0)
            } else if edited_at is Err {
                Err(edited_at->Err_0)
            } else if in_reply_to_id is Err {
                Err(in_reply_to_id->Err_0)
            } else if reblog is Err {
                Err(reblog->Err_0)
            } else if media_attachments is Err {
                Err(media_attachments->Err_0)
            } else if mentions is Err {
                Err(mentions->Err_0)
            } else if tags is Err {
                Err(tags->Err_0)
            } else if emojis is Err {
                Err(emojis->Err_0)
            } else if visibility is Err {
                Err(visibility->Err_0)
            } else if favourites_count is Err {
                Err(favourites_count->Err_0)
            } else if reblogs_count is Err {
                Err(reblogs_count->Err_0)
            } else if replies_count is Err {
                Err(replies_count->Err_0)
            } else if sensitive is Err {
                Err(sensitive->Err_0)
            } else if spoiler_text is Err {
                Err(spoiler_text->Err_0)
            } else if language is Err {
                Err(language->Err_0)
            } else if application is Err {
                Err(application->Err_0)
            } else if pleroma is Err {
                Err(pleroma->Err_0)
            } else {
                Ok(
                    StatusRecord {
                        id: id->Ok_0,
                        uri: uri->Ok_0,
                        url: url->Ok_0,
                        account: account->Ok_0,
                        content: content->Ok_0,
                        created_at: created_at->Ok_0,
                        edited_at: edited_at->Ok_0,
                        in_reply_to_id: in_reply_to_id->Ok_0,
                        reblog: reblog->Ok_0,
                        media_attachments: media_attachments->Ok_0,
                        mentions: mentions->Ok_0,
                        tags: tags->Ok_0,
                        emojis: emojis->Ok_0,
                        visibility: visibility->Ok_0,
                        favourites_count: favourites_count->Ok_0,
                        reblogs_count: reblogs_count->Ok_0,
                        replies_count: replies_count->Ok_0,
                        sensitive: sensitive->Ok_0,
                        spoiler_text: spoiler_text->Ok_0,
                        language: language->Ok_0,
                        application: application->Ok_0,
                        pleroma: pleroma->Ok_0,
                    },
                )
            }
        },
        _ => Err(ErrorView::not_an_object()),
    }
}

/// Reads a status from a document.
pub fn read_status(doc: &JsonValue, mode: Strictness) -> (r: Result<Status, Error>)
    ensures
        outcome(r) == status_of(doc@, mode),
    decreases doc@,
{
    let entries = match doc.as_object() {
        Some(entries) => entries,
        None => { return Err(Error::not_an_object()); },
    };
    let known = vec![
        "id",
        "uri",
        "url",
        "account",
        "content",
        "created_at",
        "edited_at",
        "in_reply_to_id",
        "reblog",
        "media_attachments",
        "mentions",
        "tags",
        "emojis",
        "visibility",
        "favourites_count",
        "reblogs_count",
        "replies_count",
        "sensitive",
        "spoiler_text",
        "language",
        "application",
        "pleroma",
    ];
    assert(known.deep_view() =~= Status::known_fields());
    check_fields(entries, &known, mode)?;
    let id = required_text(entries, "id")?;
    let uri = required_text(entries, "uri")?;
    let url = optional_text(entries, "url")?;
    let account = required_record::<Account>(entries, "account", mode)?;
    let content = required_text(entries, "content")?;
    let created_at = required_instant(entries, "created_at")?;
    let edited_at = optional_instant(entries, "edited_at")?;
    let in_reply_to_id = optional_text(entries, "in_reply_to_id")?;
    let reblog = match find(entries, "reblog") {
        None => None,
        Some(JsonValue::Null) => None,
        Some(inner) => match inner.as_object() {
            Some(_) => {
                proof {
                    lemma_lookup_smaller(entries.deep_view(), "reblog"@);
                }
                match read_status(inner, mode) {
                    Ok(status) => Some(Box::new(status)),
                    Err(e) => { return Err(e.within("Status")); },
                }
            },
            None => { return Err(Error::wrong_type("reblog")); },
        },
    };
    let media_attachments = required_list::<Attachment>(entries, "media_attachments", mode)?;
    let mentions = required_list::<Mention>(entries, "mentions", mode)?;
    let tags = required_list::<Tag>(entries, "tags", mode)?;
    let emojis = required_list::<Emoji>(entries, "emojis", mode)?;
    let visibility = required_visibility(entries, "visibility", mode)?;
    let favourites_count = required_int(entries, "favourites_count")?;
    let reblogs_count = required_int(entries, "reblogs_count")?;
    let replies_count = required_int(entries, "replies_count")?;
    let sensitive = required_bool(entries, "sensitive")?;
    let spoiler_text = optional_text(entries, "spoiler_text")?;
    let language = optional_text(entries, "language")?;
    let application = optional_record::<Application>(entries, "application", mode)?;
    let pleroma = optional_record::<Extension>(entries, "pleroma", mode)?;
    Ok(
        Status {
            id,
            uri,
            url,
            account,
            content,
            created_at,
            edited_at,
            in_reply_to_id,
            reblog,
            media_attachments,
            mentions,
            tags,
            emojis,
            visibility,
            favourites_count,
            reblogs_count,
            replies_count,
            sensitive,
            spoiler_text,
            language,
            application,
            pleroma,
        },
    )
}

impl FromJson for Status {
    open spec fn entity() -> Seq<char> {
        "Status"@
    }

    open spec fn known_fields() -> Seq<Seq<char>> {
        seq![
            "id"@,
            "uri"@,
            "url"@,
            "account"@,
            "content"@,
            "created_at"@,
            "edited_at"@,
            "in_reply_to_id"@,
            "reblog"@,
            "media_attachments"@,
            "mentions"@,
            "tags"@,
            "emojis"@,
            "visibility"@,
            "favourites_count"@,
            "reblogs_count"@,
            "replies_count"@,
            "sensitive"@,
            "spoiler_text"@,
            "language"@,
            "application"@,
            "pleroma"@,
        ]
    }

    open spec fn readable(fields: Seq<(Seq<char>, Json)>, mode: Strictness) -> bool {
        &&& screened(fields, Self::known_fields(), mode) is Ok
        &&& text_at(fields, "id"@) is Ok
        &&& text_at(fields, "uri"@) is Ok
        &&& opt_text_at(fields, "url"@) is Ok
        &&& record_at::<Account>(fields, "account"@, mode) is Ok
        &&& text_at(fields, "content"@) is Ok
        &&& instant_at(fields, "created_at"@) is Ok
        &&& opt_instant_at(fields, "edited_at"@) is Ok
        &&& opt_text_at(fields, "in_reply_to_id"@) is Ok
        &&& reblog_at(fields, mode) is Ok
        &&& list_at::<Attachment>(fields, "media_attachments"@, mode) is Ok
        &&& list_at::<Mention>(fields, "mentions"@, mode) is Ok
        &&& list_at::<Tag>(fields, "tags"@, mode) is Ok
        &&& list_at::<Emoji>(fields, "emojis"@, mode) is Ok
        &&& visibility_at(fields, "visibility"@, mode) is Ok
        &&& int_at(fields, "favourites_count"@) is Ok
        &&& int_at(fields, "reblogs_count"@) is Ok
        &&& int_at(fields, "replies_count"@) is Ok
        &&& bool_at(fields, "sensitive"@) is Ok
        &&& opt_text_at(fields, "spoiler_text"@) is Ok
        &&& opt_text_at(fields, "language"@) is Ok
        &&& opt_record_at::<Application>(fields, "application"@, mode) is Ok
        &&& opt_record_at::<Extension>(fields, "pleroma"@, mode) is Ok
    }
    open spec fn of_json(doc: Json, mode: Strictness) -> Result<StatusRecord, ErrorView> {
        status_of(doc, mode)
    }

    fn entity_name() -> (name: &'static str) {
        "Status"
    }

    fn from_json(doc: &JsonValue, mode: Strictness) -> (r: Result<Status, Error>) {
        read_status(doc, mode)
    }

    proof fn lemma_total(doc: Json, mode: Strictness) {
    }

    proof fn lemma_ignores_unknown(
        fields: Seq<(Seq<char>, Json)>,
        at: int,
        key: Seq<char>,
        value: Json,
    ) {
        lemma_insert_unknown(fields, at, key, value, Self::known_fields(), 0);
        lemma_insert_unknown(fields, at, key, value, Self::known_fields(), 1);
        lemma_insert_unknown(fields, at, key, value, Self::known_fields(), 2);
        lemma_insert_unknown(fields, at, key, value, Self::known_fields(), 3);
        lemma_insert_unknown(fields, at, key, value, Self::known_fields(), 4);
        lemma_insert_unknown(fields, at, key, value, Self::known_fields(), 5);
        lemma_insert_unknown(fields, at, key, value, Self::known_fields(), 6);
        lemma_insert_unknown(fields, at, key, value, Self::known_fields(), 7);
        lemma_insert_unknown(fields, at, key, value, Self::known_fields(), 8);
        lemma_insert_unknown(fields, at, key, value, Self::known_fields(), 9);
        lemma_insert_unknown(fields, at, key, value, Self::known_fields(), 10);
        lemma_insert_unknown(fields, at, key, value, Self::known_fields(), 11);
        lemma_insert_unknown(fields, at, key, value, Self::known_fields(), 12);
        lemma_insert_unknown(fields, at, key, value, Self::known_fields(), 13);
        lemma_insert_unknown(fields, at, key, value, Self::known_fields(), 14);
        lemma_insert_unknown(fields, at, key, value, Self::known_fields(), 15);
        lemma_insert_unknown(fields, at, key, value, Self::known_fields(), 16);
        lemma_insert_unknown(fields, at, key, value, Self::known_fields(), 17);
        lemma_insert_unknown(fields, at, key, value, Self::known_fields(), 18);
        lemma_insert_unknown(fields, at, key, value, Self::known_fields(), 19);
        lemma_insert_unknown(fields, at, key, value, Self::known_fields(), 20);
        lemma_insert_unknown(fields, at, key, value, Self::known_fields(), 21);
    }

    proof fn lemma_refuses_unknown(
        fields: Seq<(Seq<char>, Json)>,
        at: int,
        key: Seq<char>,
        value: Json,
    ) {
        lemma_screen_refuses(fields, at, key, value, Self::known_fields());
    }
}

impl StatusRecord {
    /// The plain-text rendering of the status, where Pleroma sent one.
    pub open spec fn plain_content(self) -> Option<Seq<char>> {
        match self.pleroma {
            Some(extension) => match extension.content {
                Some(content) => content.plain,
                None => None,
            },
            None => None,
        }
    }

    /// The emoji reactions to the status; none where Pleroma sent none.
    pub open spec fn reactions(self) -> Seq<ReactionRecord> {
        match self.pleroma {
            Some(extension) => extension.emoji_reactions,
            None => Seq::empty(),
        }
    }

    /// The name of the application that posted the status.
    pub open spec fn application_name(self) -> Option<Seq<char>> {
        match self.application {
            Some(application) => Some(application.name),
            None => None,
        }
    }
}

/// The status of the unified model that a record stands for. Every field
/// comes from the wire field of its name as it came, but for these: the
/// three counts are zero where the wire's are negative; the plain content
/// is `pleroma.content."text/plain"`; the emoji reactions are
/// `pleroma.emoji_reactions`; the application is `application.name`; and
/// the account, the reblogged status and the items of the lists are
/// projected in their turn.
pub open spec fn unified_status(wire: StatusRecord) -> unified::StatusView
    decreases wire,
{
    unified::StatusView {
        id: wire.id,
        uri: wire.uri,
        url: wire.url,
        account: Account::unified(wire.account),
        content: wire.content,
        plain_content: wire.plain_content(),
        created_at: wire.created_at,
        edited_at: wire.edited_at,
        in_reply_to_id: wire.in_reply_to_id,
        reblog: match wire.reblog {
            Some(inner) => Some(Box::new(unified_status(*inner))),
            None => None,
        },
        media_attachments: unified_all::<Attachment>(wire.media_attachments),
        mentions: unified_all::<Mention>(wire.mentions),
        tags: unified_all::<Tag>(wire.tags),
        emojis: unified_all::<Emoji>(wire.emojis),
        emoji_reactions: unified_all::<Reaction>(wire.reactions()),
        visibility: wire.visibility,
        favourites_count: clamped(wire.favourites_count),
        reblogs_count: clamped(wire.reblogs_count),
        replies_count: clamped(wire.replies_count),
        sensitive: wire.sensitive,
        spoiler_text: wire.spoiler_text,
        language: wire.language,
        application: wire.application_name(),
    }
}

/// The warnings of the three counts of a status: one for each negative
/// count, in the order favourites, reblogs, replies.
pub open spec fn counts_warnings(wire: StatusRecord) -> Seq<WarningView> {
    count_warnings("favourites_count"@, wire.favourites_count) + count_warnings(
        "reblogs_count"@,
        wire.reblogs_count,
    ) + count_warnings("replies_count"@, wire.replies_count)
}

/// What is mended on the way from a record to a status: the warnings of
/// the account, then those of the reblogged status, then those of the
/// three counts, then those of the emoji reactions.
pub open spec fn status_warnings(wire: StatusRecord) -> Seq<WarningView>
    decreases wire,
{
    Account::warnings(wire.account) + (match wire.reblog {
        Some(inner) => status_warnings(*inner),
        None => Seq::empty(),
    }) + counts_warnings(wire) + warnings_all::<Reaction>(wire.reactions())
}

/// Four lists put one after another behind a first are their sum put
/// behind it.
proof fn lemma_in_steps(
    start: Seq<WarningView>,
    a: Seq<WarningView>,
    b: Seq<WarningView>,
    c: Seq<WarningView>,
    d: Seq<WarningView>,
)
    ensures
        start + a + b + c + d == start + (a + b + c + d),
{
    assert(start + a + b + c + d =~= start + (a + b + c + d));
}

/// The three counts of a status, each zero where the wire's is negative.
fn clamp_counts(status: &Status, sink: &mut Vec<Warning>) -> (counts: (u64, u64, u64))
    ensures
        counts.0 == clamped(status.favourites_count),
        counts.1 == clamped(status.reblogs_count),
        counts.2 == clamped(status.replies_count),
        final(sink).deep_view() == old(sink).deep_view() + counts_warnings(status.deep_view()),
{
    let ghost start = sink.deep_view();
    let favourites_count = clamp_count("favourites_count", status.favourites_count, sink);
    let reblogs_count = clamp_count("reblogs_count", status.reblogs_count, sink);
    let replies_count = clamp_count("replies_count", status.replies_count, sink);
    assert(sink.deep_view() =~= start + counts_warnings(status.deep_view()));
    (favourites_count, reblogs_count, replies_count)
}

/// The emoji reactions of a status.
fn reactions_to_unified(extension: &Option<Extension>, sink: &mut Vec<Warning>) -> (entities: Vec<
    unified::Reaction,
>)
    ensures
        entities.deep_view() == unified_all::<Reaction>(
            match extension.deep_view() {
                Some(e) => e.emoji_reactions,
                None => Seq::empty(),
            },
        ),
        final(sink).deep_view() == old(sink).deep_view() + warnings_all::<Reaction>(
            match extension.deep_view() {
                Some(e) => e.emoji_reactions,
                None => Seq::empty(),
            },
        ),
{
    match extension {
        Some(e) => all_to_unified::<Reaction>(&e.emoji_reactions, sink),
        None => {
            let none: Vec<unified::Reaction> = Vec::new();
            assert(none.deep_view() =~= unified_all::<Reaction>(Seq::empty()));
            assert(sink.deep_view() + warnings_all::<Reaction>(Seq::empty()) =~= sink.deep_view());
            none
        },
    }
}

/// The plain-text rendering of a status.
fn plain_content_of(extension: &Option<Extension>) -> (plain: Option<String>)
    ensures
        plain.deep_view() == match extension.deep_view() {
            Some(e) => match e.content {
                Some(content) => content.plain,
                None => None,
            },
            None => None,
        },
{
    match extension {
        Some(e) => match &e.content {
            Some(content) => match &content.plain {
                Some(text) => Some(text.clone()),
                None => None,
            },
            None => None,
        },
        None => None,
    }
}

/// A copy of an optional text.
fn copy_text(text: &Option<String>) -> (copy: Option<String>)
    ensures
        copy.deep_view() == text.deep_view(),
{
    match text {
        Some(t) => Some(t.clone()),
        None => None,
    }
}

/// Whether an optional status of the unified model is what an optional
/// record stands for.
pub open spec fn is_unified_reblog(
    entity: Option<Box<unified::Status>>,
    wire: Option<Box<StatusRecord>>,
) -> bool {
    match (entity, wire) {
        (Some(e), Some(w)) => e.deep_view() == unified_status(*w),
        (None, None) => true,
        _ => false,
    }
}

/// Puts a status together from the parts that were projected before and
/// the fields that are kept as they came.
fn assemble(
    status: &Status,
    account: crate::entities::account::Account,
    reblog: Option<Box<unified::Status>>,
    counts: (u64, u64, u64),
    emoji_reactions: Vec<unified::Reaction>,
) -> (entity: unified::Status)
    requires
        account.deep_view() == Account::unified(status.deep_view().account),
        is_unified_reblog(reblog, status.deep_view().reblog),
        counts.0 == clamped(status.favourites_count),
        counts.1 == clamped(status.reblogs_count),
        counts.2 == clamped(status.replies_count),
        emoji_reactions.deep_view() == unified_all::<Reaction>(status.deep_view().reactions()),
    ensures
        entity.deep_view() == unified_status(status.deep_view()),
{
    let entity = unified::Status {
        id: status.id.clone(),
        uri: status.uri.clone(),
        url: copy_text(&status.url),
        account,
        content: status.content.clone(),
        plain_content: plain_content_of(&status.pleroma),
        created_at: status.created_at,
        edited_at: status.edited_at,
        in_reply_to_id: copy_text(&status.in_reply_to_id),
        reblog,
        media_attachments: all_to_unified_plain::<Attachment>(&status.media_attachments),
        mentions: all_to_unified_plain::<Mention>(&status.mentions),
        tags: all_to_unified_plain::<Tag>(&status.tags),
        emojis: all_to_unified_plain::<Emoji>(&status.emojis),
        emoji_reactions,
        visibility: status.visibility.clone(),
        favourites_count: counts.0,
        reblogs_count: counts.1,
        replies_count: counts.2,
        sensitive: status.sensitive,
        spoiler_text: copy_text(&status.spoiler_text),
        language: copy_text(&status.language),
        application: match &status.application {
            Some(application) => Some(application.name.clone()),
            None => None,
        },
    };
    assert(entity.deep_view().reblog == unified_status(status.deep_view()).reblog);
    entity
}

/// Makes the status of the unified model that a record stands for.
pub fn unify_status(status: &Status, sink: &mut Vec<Warning>) -> (entity: unified::Status)
    ensures
        entity.deep_view() == unified_status(status.deep_view()),
        final(sink).deep_view() == old(sink).deep_view() + status_warnings(status.deep_view()),
    decreases status,
{
    let ghost wire = status.deep_view();
    let ghost start = sink.deep_view();
    let ghost from_reblog = match wire.reblog {
        Some(inner) => status_warnings(*inner),
        None => Seq::empty(),
    };
    let account = status.account.to_unified(sink);
    let reblog = match &status.reblog {
        Some(inner) => Some(Box::new(unify_status(inner, sink))),
        None => {
            assert(sink.deep_view() + Seq::<WarningView>::empty() =~= sink.deep_view());
            None
        },
    };
    assert(sink.deep_view() == start + Account::warnings(wire.account) + from_reblog);
    let counts = clamp_counts(status, sink);
    let emoji_reactions = reactions_to_unified(&status.pleroma, sink);
    proof {
        lemma_in_steps(
            start,
            Account::warnings(wire.account),
            from_reblog,
            counts_warnings(wire),
            warnings_all::<Reaction>(wire.reactions()),
        );
    }
    assemble(status, account, reblog, counts, emoji_reactions)
}

impl ToUnified for Status {
    type Unified = unified::Status;

    open spec fn unified(wire: StatusRecord) -> unified::StatusView {
        unified_status(wire)
    }

    open spec fn warnings(wire: StatusRecord) -> Seq<WarningView> {
        status_warnings(wire)
    }

    fn to_unified(&self, sink: &mut Vec<Warning>) -> (entity: unified::Status) {
        unify_status(self, sink)
    }
}

} // verus!
