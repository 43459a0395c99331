//! Pleroma's accounts as they come over the wire.

use crate::entities::account as unified;
use crate::error::{outcome, Error, ErrorView};
use crate::json::{lemma_insert_unknown, lemma_screen_refuses, 
    bool_at, check_fields, int_at, required_bool, required_int, required_text, screened, text_at, Json,
    JsonValue,
};
use crate::record::{
    all_to_unified_plain, list_at, required_list, unified_all, FromJson, ToUnified,
};
use crate::strictness::Strictness;
use crate::text::{trim_trailing, trimmed};
use crate::time::{instant_at, opt_instant_at, optional_instant, required_instant, Timestamp};
use crate::warning::{clamp_count, clamped, count_warnings, Warning, WarningView};
use vstd::prelude::*;

verus! {

/// A custom emoji.
#[derive(Debug, PartialEq, Eq)]
pub struct Emoji {
    pub shortcode: String,
    pub url: String,
    pub static_url: String,
    pub visible_in_picker: bool,
}

/// The mathematical value of a Pleroma [`Emoji`].
pub struct EmojiRecord {
    pub shortcode: Seq<char>,
    pub url: Seq<char>,
    pub static_url: Seq<char>,
    pub visible_in_picker: bool,
}

impl DeepView for Emoji {
    type V = EmojiRecord;

    open spec fn deep_view(&self) -> EmojiRecord {
        EmojiRecord {
            shortcode: self.shortcode@,
            url: self.url@,
            static_url: self.static_url@,
            visible_in_picker: self.visible_in_picker,
        }
    }
}

impl Clone for Emoji {
    fn clone(&self) -> (copy: Emoji)
        ensures
            copy.deep_view() == self.deep_view(),
    {
        let copy = Emoji {
            shortcode: self.shortcode.clone(),
            url: self.url.clone(),
            static_url: self.static_url.clone(),
            visible_in_picker: self.visible_in_picker,
        };
        copy
    }
}

impl FromJson for Emoji {
    open spec fn entity() -> Seq<char> {
        "Emoji"@
    }

    open spec fn known_fields() -> Seq<Seq<char>> {
        seq!["shortcode"@, "url"@, "static_url"@, "visible_in_picker"@]
    }

    open spec fn readable(fields: Seq<(Seq<char>, Json)>, mode: Strictness) -> bool {
        &&& screened(fields, Self::known_fields(), mode) is Ok
        &&& text_at(fields, "shortcode"@) is Ok
        &&& text_at(fields, "url"@) is Ok
        &&& text_at(fields, "static_url"@) is Ok
        &&& bool_at(fields, "visible_in_picker"@) is Ok
    }

    /// The fields are screened first, then read in the order of
    /// `known_fields`; the first failure is the outcome.
    open spec fn of_json(doc: Json, mode: Strictness) -> Result<EmojiRecord, ErrorView> {
        match doc {
            Json::Object(fields) => {
                let screen = screened(fields, Emoji::known_fields(), mode);
                let shortcode = text_at(fields, "shortcode"@);
                let url = text_at(fields, "url"@);
                let static_url = text_at(fields, "static_url"@);
                let visible_in_picker = bool_at(fields, "visible_in_picker"@);
                if screen is Err {
                    Err(screen->Err_0)
                } else if shortcode is Err {
                    Err(shortcode->Err_0)
                } else if url is Err {
                    Err(url->Err_0)
                } else if static_url is Err {
                    Err(static_url->Err_0)
                } else if visible_in_picker is Err {
                    Err(visible_in_picker->Err_0)
                } else {
                    Ok(
                        EmojiRecord {
                            shortcode: shortcode->Ok_0,
                            url: url->Ok_0,
                            static_url: static_url->Ok_0,
                            visible_in_picker: visible_in_picker->Ok_0,
                        },
                    )
                }
            },
            _ => Err(ErrorView::not_an_object()),
        }
    }

    fn entity_name() -> (name: &'static str) {
        "Emoji"
    }

    fn from_json(doc: &JsonValue, mode: Strictness) -> (r: Result<Emoji, Error>) {
        let entries = match doc.as_object() {
            Some(entries) => entries,
            None => { return Err(Error::not_an_object()); },
        };
        let known = vec!["shortcode", "url", "static_url", "visible_in_picker"];
        assert(known.deep_view() =~= Emoji::known_fields());
        check_fields(entries, &known, mode)?;
        let shortcode = required_text(entries, "shortcode")?;
        let url = required_text(entries, "url")?;
        let static_url = required_text(entries, "static_url")?;
        let visible_in_picker = required_bool(entries, "visible_in_picker")?;
        Ok(Emoji { shortcode, url, static_url, visible_in_picker })
    }

    proof fn lemma_total(doc: Json, mode: Strictness) {
    }

    proof fn lemma_ignores_unknown(
        fields: Seq<(Seq<char>, Json)>,
        at: int,
        key: Seq<char>,
        value: Json,
    ) {
        lemma_insert_unknown(fields, at, key, value, Self::known_fields(), 0);
        lemma_insert_unknown(fields, at, key, value, Self::known_fields(), 1);
        lemma_insert_unknown(fields, at, key, value, Self::known_fields(), 2);
        lemma_insert_unknown(fields, at, key, value, Self::known_fields(), 3);
    }

    proof fn lemma_refuses_unknown(
        fields: Seq<(Seq<char>, Json)>,
        at: int,
        key: Seq<char>,
        value: Json,
    ) {
        lemma_screen_refuses(fields, at, key, value, Self::known_fields());
    }
}

impl ToUnified for Emoji {
    type Unified = unified::Emoji;

    /// Every field as it came.
    open spec fn unified(wire: EmojiRecord) -> unified::EmojiView {
        unified::EmojiView {
            shortcode: wire.shortcode,
            url: wire.url,
            static_url: wire.static_url,
            visible_in_picker: wire.visible_in_picker,
        }
    }

    open spec fn warnings(wire: EmojiRecord) -> Seq<WarningView> {
        Seq::empty()
    }

    fn to_unified(&self, sink: &mut Vec<Warning>) -> (entity: unified::Emoji) {
        assert(sink.deep_view() + Seq::<WarningView>::empty() =~= sink.deep_view());
        let entity = unified::Emoji {
            shortcode: self.shortcode.clone(),
            url: self.url.clone(),
            static_url: self.static_url.clone(),
            visible_in_picker: self.visible_in_picker,
        };
        assert(entity.deep_view() == Self::unified(self.deep_view()));
        entity
    }
}

/// A line of an account's profile table.
#[derive(Debug, PartialEq, Eq)]
pub struct Field {
    pub name: String,
    pub value: String,
    pub verified_at: Option<Timestamp>,
}

/// The mathematical value of a Pleroma [`Field`].
pub struct FieldRecord {
    pub name: Seq<char>,
    pub value: Seq<char>,
    pub verified_at: Option<Timestamp>,
}

impl DeepView for Field {
    type V = FieldRecord;

    open spec fn deep_view(&self) -> FieldRecord {
        FieldRecord { name: self.name@, value: self.value@, verified_at: self.verified_at }
    }
}

impl Clone for Field {
    fn clone(&self) -> (copy: Field)
        ensures
            copy.deep_view() == self.deep_view(),
    {
        let copy = Field {
            name: self.name.clone(),
            value: self.value.clone(),
            verified_at: self.verified_at,
        };
        copy
    }
}

impl FromJson for Field {
    open spec fn entity() -> Seq<char> {
        "Field"@
    }

    open spec fn known_fields() -> Seq<Seq<char>> {
        seq!["name"@, "value"@, "verified_at"@]
    }

    open spec fn readable(fields: Seq<(Seq<char>, Json)>, mode: Strictness) -> bool {
        &&& screened(fields, Self::known_fields(), mode) is Ok
        &&& text_at(fields, "name"@) is Ok
        &&& text_at(fields, "value"@) is Ok
        &&& opt_instant_at(fields, "verified_at"@) is Ok
    }

    /// The fields are screened first, then read in the order of
    /// `known_fields`; the first failure is the outcome.
    open spec fn of_json(doc: Json, mode: Strictness) -> Result<FieldRecord, ErrorView> {
        match doc {
            Json::Object(fields) => {
                let screen = screened(fields, Field::known_fields(), mode);
                let name = text_at(fields, "name"@);
                let value = text_at(fields, "value"@);
                let verified_at = opt_instant_at(fields, "verified_at"@);
                if screen is Err {
                    Err(screen->Err_0)
                } else if name is Err {
                    Err(name->Err_0)
                } else if value is Err {
                    Err(value->Err_0)
                } else if verified_at is Err {
                    Err(verified_at->Err_0)
                } else {
                    Ok(
                        FieldRecord {
                            name: name->Ok_0, value: value->Ok_0, verified_at: verified_at->Ok_0,
                        },
                    )
                }
            },
            _ => Err(ErrorView::not_an_object()),
        }
    }

    fn entity_name() -> (name: &'static str) {
        "Field"
    }

    fn from_json(doc: &JsonValue, mode: Strictness) -> (r: Result<Field, Error>) {
        let entries = match doc.as_object() {
            Some(entries) => entries,
            None => { return Err(Error::not_an_object()); },
        };
        let known = vec!["name", "value", "verified_at"];
        assert(known.deep_view() =~= Field::known_fields());
        check_fields(entries, &known, mode)?;
        let name = required_text(entries, "name")?;
        let value = required_text(entries, "value")?;
        let verified_at = optional_instant(entries, "verified_at")?;
        Ok(Field { name, value, verified_at })
    }

    proof fn lemma_total(doc: Json, mode: Strictness) {
    }

    proof fn lemma_ignores_unknown(
        fields: Seq<(Seq<char>, Json)>,
        at: int,
        key: Seq<char>,
        value: Json,
    ) {
        lemma_insert_unknown(fields, at, key, value, Self::known_fields(), 0);
        lemma_insert_unknown(fields, at, key, value, Self::known_fields(), 1);
        lemma_insert_unknown(fields, at, key, value, Self::known_fields(), 2);
    }

    proof fn lemma_refuses_unknown(
        fields: Seq<(Seq<char>, Json)>,
        at: int,
        key: Seq<char>,
        value: Json,
    ) {
        lemma_screen_refuses(fields, at, key, value, Self::known_fields());
    }
}

impl ToUnified for Field {
    type Unified = unified::Field;

    /// Every field as it came.
    open spec fn unified(wire: FieldRecord) -> unified::FieldView {
        unified::FieldView { name: wire.name, value: wire.value, verified_at: wire.verified_at }
    }

    open spec fn warnings(wire: FieldRecord) -> Seq<WarningView> {
        Seq::empty()
    }

    fn to_unified(&self, sink: &mut Vec<Warning>) -> (entity: unified::Field) {
        assert(sink.deep_view() + Seq::<WarningView>::empty() =~= sink.deep_view());
        let entity = unified::Field {
            name: self.name.clone(),
            value: self.value.clone(),
            verified_at: self.verified_at,
        };
        assert(entity.deep_view() == Self::unified(self.deep_view()));
        entity
    }
}

/// An account.
#[derive(Debug, PartialEq, Eq)]
pub struct Account {
    pub id: String,
    pub username: String,
    pub acct: String,
    pub display_name: String,
    pub note: String,
    pub avatar: String,
    pub header: String,
    pub url: String,
    pub followers_count: i64,
    pub following_count: i64,
    pub statuses_count: i64,
    pub created_at: Timestamp,
    pub bot: bool,
    pub locked: bool,
    pub fields: Vec<Field>,
    pub emojis: Vec<Emoji>,
}

/// The mathematical value of a Pleroma [`Account`].
pub struct AccountRecord {
    pub id: Seq<char>,
    pub username: Seq<char>,
    pub acct: Seq<char>,
    pub display_name: Seq<char>,
    pub note: Seq<char>,
    pub avatar: Seq<char>,
    pub header: Seq<char>,
    pub url: Seq<char>,
    pub followers_count: i64,
    pub following_count: i64,
    pub statuses_count: i64,
    pub created_at: Timestamp,
    pub bot: bool,
    pub locked: bool,
    pub fields: Seq<FieldRecord>,
    pub emojis: Seq<EmojiRecord>,
}

impl DeepView for Account {
    type V = AccountRecord;

    open spec fn deep_view(&self) -> AccountRecord {
        AccountRecord {
            id: self.id@,
            username: self.username@,
            acct: self.acct@,
            display_name: self.display_name@,
            note: self.note@,
            avatar: self.avatar@,
            header: self.header@,
            url: self.url@,
            followers_count: self.followers_count,
            following_count: self.following_count,
            statuses_count: self.statuses_count,
            created_at: self.created_at,
            bot: self.bot,
            locked: self.locked,
            fields: self.fields.deep_view(),
            emojis: self.emojis.deep_view(),
        }
    }
}

impl Clone for Account {
    fn clone(&self) -> (copy: Account)
        ensures
            copy.deep_view() == self.deep_view(),
    {
        let copy = Account {
            id: self.id.clone(),
            username: self.username.clone(),
            acct: self.acct.clone(),
            display_name: self.display_name.clone(),
            note: self.note.clone(),
            avatar: self.avatar.clone(),
            header: self.header.clone(),
            url: self.url.clone(),
            followers_count: self.followers_count,
            following_count: self.following_count,
            statuses_count: self.statuses_count,
            created_at: self.created_at,
            bot: self.bot,
            locked: self.locked,
            fields: self.fields.clone(),
            emojis: self.emojis.clone(),
        };
        assert(copy.fields.deep_view() =~= self.fields.deep_view());
        assert(copy.emojis.deep_view() =~= self.emojis.deep_view());
        copy
    }
}

impl View for Account {
    type V = AccountRecord;

    open spec fn view(&self) -> AccountRecord {
        self.deep_view()
    }
}

impl FromJson for Account {
    open spec fn entity() -> Seq<char> {
        "Account"@
    }

    open spec fn known_fields() -> Seq<Seq<char>> {
        seq![
            "id"@,
            "username"@,
            "acct"@,
            "display_name"@,
            "note"@,
            "avatar"@,
            "header"@,
            "url"@,
            "followers_count"@,
            "following_count"@,
            "statuses_count"@,
            "created_at"@,
            "bot"@,
            "locked"@,
            "fields"@,
            "emojis"@,
        ]
    }

    open spec fn readable(fields: Seq<(Seq<char>, Json)>, mode: Strictness) -> bool {
        &&& screened(fields, Self::known_fields(), mode) is Ok
        &&& text_at(fields, "id"@) is Ok
        &&& text_at(fields, "username"@) is Ok
        &&& text_at(fields, "acct"@) is Ok
        &&& text_at(fields, "display_name"@) is Ok
        &&& text_at(fields, "note"@) is Ok
        &&& text_at(fields, "avatar"@) is Ok
        &&& text_at(fields, "header"@) is Ok
        &&& text_at(fields, "url"@) is Ok
        &&& int_at(fields, "followers_count"@) is Ok
        &&& int_at(fields, "following_count"@) is Ok
        &&& int_at(fields, "statuses_count"@) is Ok
        &&& instant_at(fields, "created_at"@) is Ok
        &&& bool_at(fields, "bot"@) is Ok
        &&& bool_at(fields, "locked"@) is Ok
        &&& list_at::<Field>(fields, "fields"@, mode) is Ok
        &&& list_at::<Emoji>(fields, "emojis"@, mode) is Ok
    }

    /// The fields are screened first, then read in the order of
    /// `known_fields`; the first failure is the outcome.
    open spec fn of_json(doc: Json, mode: Strictness) -> Result<AccountRecord, ErrorView> {
        match doc {
            Json::Object(fields) => {
                let screen = screened(fields, Account::known_fields(), mode);
                let id = text_at(fields, "id"@);
                let username = text_at(fields, "username"@);
                let acct = text_at(fields, "acct"@);
                let display_name = text_at(fields, "display_name"@);
                let note = text_at(fields, "note"@);
                let avatar = text_at(fields, "avatar"@);
                let header = text_at(fields, "header"@);
                let url = text_at(fields, "url"@);
                let followers_count = int_at(fields, "followers_count"@);
                let following_count = int_at(fields, "following_count"@);
                let statuses_count = int_at(fields, "statuses_count"@);
                let created_at = instant_at(fields, "created_at"@);
                let bot = bool_at(fields, "bot"@);
                let locked = bool_at(fields, "locked"@);
                let profile = list_at::<Field>(fields, "fields"@, mode);
                let emojis = list_at::<Emoji>(fields, "emojis"@, mode);
                if screen is Err {
                    Err(screen->Err_0)
                } else if id is Err {
                    Err(id->Err_0)
                } else if username is Err {
                    Err(username->Err_0)
                } else if acct is Err {
                    Err(acct->Err_0)
                } else if display_name is Err {
                    Err(display_name->Err_0)
                } else if note is Err {
                    Err(note->Err_0)
                } else if avatar is Err {
                    Err(avatar->Err_0)
                } else if header is Err {
                    Err(header->Err_0)
                } else if url is Err {
                    Err(url->Err_0)
                } else if followers_count is Err {
                    Err(followers_count->Err_0)
                } else if following_count is Err {
                    Err(following_count->Err_0)
                } else if statuses_count is Err {
                    Err(statuses_count->Err_0)
                } else if created_at is Err {
                    Err(created_at->Err_0)
                } else if bot is Err {
                    Err(bot->Err_0)
                } else if locked is Err {
                    Err(locked->Err_0)
                } else if profile is Err {
                    Err(profile->Err_0)
                } else if emojis is Err {
                    Err(emojis->Err_0)
                } else {
                    Ok(
                        AccountRecord {
                            id: id->Ok_0,
                            username: username->Ok_0,
                            acct: acct->Ok_0,
                            display_name: display_name->Ok_0,
                            note: note->Ok_0,
                            avatar: avatar->Ok_0,
                            header: header->Ok_0,
                            url: url->Ok_0,
                            followers_count: followers_count->Ok_0,
                            following_count: following_count->Ok_0,
                            statuses_count: statuses_count->Ok_0,
                            created_at: created_at->Ok_0,
                            bot: bot->Ok_0,
                            locked: locked->Ok_0,
                            fields: profile->Ok_0,
                            emojis: emojis->Ok_0,
                        },
                    )
                }
            },
            _ => Err(ErrorView::not_an_object()),
        }
    }

    fn entity_name() -> (name: &'static str) {
        "Account"
    }

    fn from_json(doc: &JsonValue, mode: Strictness) -> (r: Result<Account, Error>) {
        let entries = match doc.as_object() {
            Some(entries) => entries,
            None => { return Err(Error::not_an_object()); },
        };
        let known = vec![
            "id",
            "username",
            "acct",
            "display_name",
            "note",
            "avatar",
            "header",
            "url",
            "followers_count",
            "following_count",
            "statuses_count",
            "created_at",
            "bot",
            "locked",
            "fields",
            "emojis",
        ];
        assert(known.deep_view() =~= Account::known_fields());
        check_fields(entries, &known, mode)?;
        let id = required_text(entries, "id")?;
        let username = required_text(entries, "username")?;
        let acct = required_text(entries, "acct")?;
        let display_name = required_text(entries, "display_name")?;
        let note = required_text(entries, "note")?;
        let avatar = required_text(entries, "avatar")?;
        let header = required_text(entries, "header")?;
        let url = required_text(entries, "url")?;
        let followers_count = required_int(entries, "followers_count")?;
        let following_count = required_int(entries, "following_count")?;
        let statuses_count = required_int(entries, "statuses_count")?;
        let created_at = required_instant(entries, "created_at")?;
        let bot = required_bool(entries, "bot")?;
        let locked = required_bool(entries, "locked")?;
        let fields = required_list::<Field>(entries, "fields", mode)?;
        let emojis = required_list::<Emoji>(entries, "emojis", mode)?;
        Ok(
            Account {
                id,
                username,
                acct,
                display_name,
                note,
                avatar,
                header,
                url,
                followers_count,
                following_count,
                statuses_count,
                created_at,
                bot,
                locked,
                fields,
                emojis,
            },
        )
    }

    proof fn lemma_total(doc: Json, mode: Strictness) {
    }

    proof fn lemma_ignores_unknown(
        fields: Seq<(Seq<char>, Json)>,
        at: int,
        key: Seq<char>,
        value: Json,
    ) {
        lemma_insert_unknown(fields, at, key, value, Self::known_fields(), 0);
        lemma_insert_unknown(fields, at, key, value, Self::known_fields(), 1);
        lemma_insert_unknown(fields, at, key, value, Self::known_fields(), 2);
        lemma_insert_unknown(fields, at, key, value, Self::known_fields(), 3);
        lemma_insert_unknown(fields, at, key, value, Self::known_fields(), 4);
        lemma_insert_unknown(fields, at, key, value, Self::known_fields(), 5);
        lemma_insert_unknown(fields, at, key, value, Self::known_fields(), 6);
        lemma_insert_unknown(fields, at, key, value, Self::known_fields(), 7);
        lemma_insert_unknown(fields, at, key, value, Self::known_fields(), 8);
        lemma_insert_unknown(fields, at, key, value, Self::known_fields(), 9);
        lemma_insert_unknown(fields, at, key, value, Self::known_fields(), 10);
        lemma_insert_unknown(fields, at, key, value, Self::known_fields(), 11);
        lemma_insert_unknown(fields, at, key, value, Self::known_fields(), 12);
        lemma_insert_unknown(fields, at, key, value, Self::known_fields(), 13);
        lemma_insert_unknown(fields, at, key, value, Self::known_fields(), 14);
        lemma_insert_unknown(fields, at, key, value, Self::known_fields(), 15);
    }

    proof fn lemma_refuses_unknown(
        fields: Seq<(Seq<char>, Json)>,
        at: int,
        key: Seq<char>,
        value: Json,
    ) {
        lemma_screen_refuses(fields, at, key, value, Self::known_fields());
    }
}

impl ToUnified for Account {
    type Unified = unified::Account;

    /// Every field as it came, but for the display name, which loses the
    /// whitespace at its end, and the three counts, which are zero where
    /// the wire's are negative.
    open spec fn unified(wire: AccountRecord) -> unified::AccountView {
        unified::AccountView {
            id: wire.id,
            username: wire.username,
            acct: wire.acct,
            display_name: trimmed(wire.display_name),
            note: wire.note,
            avatar: wire.avatar,
            header: wire.header,
            url: wire.url,
            followers_count: clamped(wire.followers_count),
            following_count: clamped(wire.following_count),
            statuses_count: clamped(wire.statuses_count),
            created_at: wire.created_at,
            bot: wire.bot,
            locked: wire.locked,
            fields: unified_all::<Field>(wire.fields),
            emojis: unified_all::<Emoji>(wire.emojis),
        }
    }

    /// One warning for each negative count, in the order followers,
    /// following, statuses.
    open spec fn warnings(wire: AccountRecord) -> Seq<WarningView> {
        count_warnings("followers_count"@, wire.followers_count) + count_warnings(
            "following_count"@,
            wire.following_count,
        ) + count_warnings("statuses_count"@, wire.statuses_count)
    }

    fn to_unified(&self, sink: &mut Vec<Warning>) -> (entity: unified::Account) {
        let ghost start = sink.deep_view();
        let followers_count = clamp_count("followers_count", self.followers_count, sink);
        let following_count = clamp_count("following_count", self.following_count, sink);
        let statuses_count = clamp_count("statuses_count", self.statuses_count, sink);
        assert(sink.deep_view() =~= start + Self::warnings(self.deep_view()));
        let fields = all_to_unified_plain::<Field>(&self.fields);
        let emojis = all_to_unified_plain::<Emoji>(&self.emojis);
        let entity = unified::Account {
            id: self.id.clone(),
            username: self.username.clone(),
            acct: self.acct.clone(),
            display_name: trim_trailing(self.display_name.as_str()),
            note: self.note.clone(),
            avatar: self.avatar.clone(),
            header: self.header.clone(),
            url: self.url.clone(),
            followers_count,
            following_count,
            statuses_count,
            created_at: self.created_at,
            bot: self.bot,
            locked: self.locked,
            fields,
            emojis,
        };
        assert(entity.deep_view() == Self::unified(self.deep_view()));
        entity
    }
}

} // verus!
