//! Pleroma's notifications as they come over the wire.

use crate::entities::notification as unified;
use crate::entities::notification::NotificationKind;
use crate::error::{outcome, Error, ErrorView};
use crate::flavor::Flavor;
use crate::json::{lemma_insert_unknown, lemma_screen_refuses, 
    check_fields, opt_text_at, optional_text, required_text, screened, text_at, Json, JsonValue,
};
use crate::pleroma::entities::account::{Account, AccountRecord};
use crate::pleroma::entities::status::{Status, StatusRecord};
use crate::record::{
    opt_record_at, optional_record, record_at, required_record, FromJson, ToUnified,
};
use crate::strictness::Strictness;
use crate::text::str_eq;
use crate::time::{instant_at, required_instant, Timestamp};
use crate::warning::{Warning, WarningView};
use vstd::prelude::*;
use vstd::std_specs::convert::FromSpecImpl;

verus! {

/// The type of a Pleroma notification. `Unknown` holds a spelling that
/// Pleroma's table does not have; only a lenient decoder makes one.
#[derive(Debug, PartialEq, Eq)]
pub enum NotificationType {
    Follow,
    FollowRequest,
    Mention,
    Reblog,
    Favourite,
    Poll,
    PleromaEmojiReaction,
    Update,
    Move,
    Unknown(String),
}

/// The mathematical value of a Pleroma [`NotificationType`].
pub enum WireKind {
    Follow,
    FollowRequest,
    Mention,
    Reblog,
    Favourite,
    Poll,
    PleromaEmojiReaction,
    Update,
    Move,
    Unknown(Seq<char>),
}

impl Clone for NotificationType {
    fn clone(&self) -> (copy: NotificationType)
        ensures
            copy == *self,
    {
        match self {
            NotificationType::Follow => NotificationType::Follow,
            NotificationType::FollowRequest => NotificationType::FollowRequest,
            NotificationType::Mention => NotificationType::Mention,
            NotificationType::Reblog => NotificationType::Reblog,
            NotificationType::Favourite => NotificationType::Favourite,
            NotificationType::Poll => NotificationType::Poll,
            NotificationType::PleromaEmojiReaction => NotificationType::PleromaEmojiReaction,
            NotificationType::Update => NotificationType::Update,
            NotificationType::Move => NotificationType::Move,
            NotificationType::Unknown(s) => NotificationType::Unknown(s.clone()),
        }
    }
}

impl DeepView for NotificationType {
    type V = WireKind;

    open spec fn deep_view(&self) -> WireKind {
        match self {
            NotificationType::Follow => WireKind::Follow,
            NotificationType::FollowRequest => WireKind::FollowRequest,
            NotificationType::Mention => WireKind::Mention,
            NotificationType::Reblog => WireKind::Reblog,
            NotificationType::Favourite => WireKind::Favourite,
            NotificationType::Poll => WireKind::Poll,
            NotificationType::PleromaEmojiReaction => WireKind::PleromaEmojiReaction,
            NotificationType::Update => WireKind::Update,
            NotificationType::Move => WireKind::Move,
            NotificationType::Unknown(s) => WireKind::Unknown(s@),
        }
    }
}

impl View for NotificationType {
    type V = WireKind;

    open spec fn view(&self) -> WireKind {
        self.deep_view()
    }
}

impl WireKind {
    /// The string form of a type: its spelling on the wire.
    pub open spec fn spelled(self) -> Seq<char> {
        match self {
            WireKind::Follow => "follow"@,
            WireKind::Mention => "mention"@,
            WireKind::Reblog => "reblog"@,
            WireKind::Favourite => "favourite"@,
            WireKind::PleromaEmojiReaction => "pleroma:emoji_reaction"@,
            WireKind::Poll => "poll"@,
            WireKind::FollowRequest => "follow_request"@,
            WireKind::Update => "update"@,
            WireKind::Move => "move"@,
            WireKind::Unknown(s) => s,
        }
    }

    /// The type that Pleroma's table gives for a spelling, `None` where the
    /// table does not hold it.
    pub open spec fn read(s: Seq<char>) -> Option<WireKind> {
        if s == "follow"@ {
            Some(WireKind::Follow)
        } else if s == "mention"@ {
            Some(WireKind::Mention)
        } else if s == "reblog"@ {
            Some(WireKind::Reblog)
        } else if s == "favourite"@ {
            Some(WireKind::Favourite)
        } else if s == "pleroma:emoji_reaction"@ {
            Some(WireKind::PleromaEmojiReaction)
        } else if s == "poll"@ {
            Some(WireKind::Poll)
        } else if s == "follow_request"@ {
            Some(WireKind::FollowRequest)
        } else if s == "update"@ {
            Some(WireKind::Update)
        } else if s == "move"@ {
            Some(WireKind::Move)
        } else {
            None
        }
    }

    /// What a decoder makes of a spelling: the table's type; for a spelling
    /// outside the table, the spelling kept as unknown in lenient mode and a
    /// failure in strict mode.
    pub open spec fn decoded(s: Seq<char>, mode: Strictness) -> Result<WireKind, ErrorView> {
        match WireKind::read(s) {
            Some(kind) => Ok(kind),
            None => match mode {
                Strictness::Lenient => Ok(WireKind::Unknown(s)),
                Strictness::Strict => Err(ErrorView::unknown_variant(s)),
            },
        }
    }

    /// What a decoder makes of a document that should hold a type: a JSON
    /// string is read by the table; anything else is a parse failure.
    pub open spec fn of_json(doc: Json, mode: Strictness) -> Result<WireKind, ErrorView> {
        match doc {
            Json::Text(s) => WireKind::decoded(s, mode),
            _ => Err(ErrorView::not_a_string()),
        }
    }

    /// The type of the unified model that a Pleroma type stands for.
    /// Pleroma's `poll` tells of a poll that has ended.
    pub open spec fn unified(self) -> NotificationKind {
        match self {
            WireKind::Follow => NotificationKind::Follow,
            WireKind::FollowRequest => NotificationKind::FollowRequest,
            WireKind::Mention => NotificationKind::Mention,
            WireKind::Reblog => NotificationKind::Reblog,
            WireKind::Favourite => NotificationKind::Favourite,
            WireKind::Poll => NotificationKind::PollExpired,
            WireKind::PleromaEmojiReaction => NotificationKind::EmojiReaction,
            WireKind::Update => NotificationKind::Update,
            WireKind::Move => NotificationKind::Move,
            WireKind::Unknown(s) => NotificationKind::Unknown(s),
        }
    }
}

/// Reading the string form of a type of the table gives the type back, and
/// a spelling that is read as a type is that type's string form.
pub proof fn lemma_wire_round_trip(kind: WireKind, s: Seq<char>)
    ensures
        !(kind is Unknown) ==> WireKind::read(kind.spelled()) == Some(kind),
        !(kind is Unknown) ==> forall|mode: Strictness|
            WireKind::decoded(kind.spelled(), mode) == Ok::<_, ErrorView>(kind),
        WireKind::read(s) matches Some(k) ==> k.spelled() == s && !(k is Unknown),
{
    unified::reveal_spellings();
}

/// To write a type of the table as a document and to read the document
/// gives the type back, in either mode.
pub proof fn lemma_document_round_trip(kind: WireKind, mode: Strictness)
    requires
        !(kind is Unknown),
    ensures
        WireKind::of_json(Json::Text(kind.spelled()), mode) == Ok::<_, ErrorView>(kind),
{
    lemma_wire_round_trip(kind, kind.spelled());
}

/// Pleroma's own table and the Pleroma column of the unified table agree:
/// to read a spelling and then project gives what the unified table gives,
/// in either mode; and a type has the same spelling in both.
pub proof fn lemma_agrees_with_unified_table(s: Seq<char>, mode: Strictness, kind: WireKind)
    ensures
        match WireKind::decoded(s, mode) {
            Ok(k) => unified::decoded(Flavor::Pleroma, s, mode) == Ok::<_, ErrorView>(k.unified()),
            Err(e) => unified::decoded(Flavor::Pleroma, s, mode) == Err::<NotificationKind, _>(e),
        },
        unified::spelling(Flavor::Pleroma, kind.unified()) == Some(kind.spelled()),
{
    unified::reveal_spellings();
}

impl NotificationType {
    /// Reads a spelling and refuses what the table does not hold: the
    /// strict reading.
    pub fn from_str(s: &str) -> (r: Result<NotificationType, Error>)
        ensures
            outcome(r) == WireKind::decoded(s@, Strictness::Strict),
    {
        NotificationType::decode(s, Strictness::Strict)
    }

    /// Reads a spelling in the given mode.
    pub fn decode(s: &str, mode: Strictness) -> (r: Result<NotificationType, Error>)
        ensures
            outcome(r) == WireKind::decoded(s@, mode),
    {
        if str_eq(s, "follow") {
            Ok(NotificationType::Follow)
        } else if str_eq(s, "mention") {
            Ok(NotificationType::Mention)
        } else if str_eq(s, "reblog") {
            Ok(NotificationType::Reblog)
        } else if str_eq(s, "favourite") {
            Ok(NotificationType::Favourite)
        } else if str_eq(s, "pleroma:emoji_reaction") {
            Ok(NotificationType::PleromaEmojiReaction)
        } else if str_eq(s, "poll") {
            Ok(NotificationType::Poll)
        } else if str_eq(s, "follow_request") {
            Ok(NotificationType::FollowRequest)
        } else if str_eq(s, "update") {
            Ok(NotificationType::Update)
        } else if str_eq(s, "move") {
            Ok(NotificationType::Move)
        } else {
            match mode {
                Strictness::Lenient => Ok(NotificationType::Unknown(s.to_owned())),
                Strictness::Strict => Err(Error::unknown_variant(s)),
            }
        }
    }

    /// Reads the type from a document: a JSON string with its spelling.
    pub fn from_json(doc: &JsonValue, mode: Strictness) -> (r: Result<NotificationType, Error>)
        ensures
            outcome(r) == WireKind::of_json(doc@, mode),
    {
        match doc {
            JsonValue::Text(s) => NotificationType::decode(s.as_str(), mode),
            _ => Err(Error::not_a_string()),
        }
    }

    /// The document that stands for the type: a JSON string with its
    /// spelling.
    pub fn to_json(&self) -> (doc: JsonValue)
        ensures
            doc@ == Json::Text(self@.spelled()),
    {
        JsonValue::Text(self.to_string())
    }

    /// The string form of the type: its spelling on the wire.
    pub fn to_string(&self) -> (s: String)
        ensures
            s@ == self@.spelled(),
    {
        match self {
            NotificationType::Follow => "follow".to_owned(),
            NotificationType::Mention => "mention".to_owned(),
            NotificationType::Reblog => "reblog".to_owned(),
            NotificationType::Favourite => "favourite".to_owned(),
            NotificationType::PleromaEmojiReaction => "pleroma:emoji_reaction".to_owned(),
            NotificationType::Poll => "poll".to_owned(),
            NotificationType::FollowRequest => "follow_request".to_owned(),
            NotificationType::Update => "update".to_owned(),
            NotificationType::Move => "move".to_owned(),
            NotificationType::Unknown(s) => s.clone(),
        }
    }
}

impl From<NotificationType> for unified::NotificationType {
    /// The type of the unified model that a Pleroma type stands for.
    fn from(wire: NotificationType) -> (kind: unified::NotificationType)
        ensures
            kind@ == wire@.unified(),
    {
        match wire {
            NotificationType::Follow => unified::NotificationType::Follow,
            NotificationType::FollowRequest => unified::NotificationType::FollowRequest,
            NotificationType::Mention => unified::NotificationType::Mention,
            NotificationType::Reblog => unified::NotificationType::Reblog,
            NotificationType::Favourite => unified::NotificationType::Favourite,
            NotificationType::Poll => unified::NotificationType::PollExpired,
            NotificationType::PleromaEmojiReaction => unified::NotificationType::EmojiReaction,
            NotificationType::Update => unified::NotificationType::Update,
            NotificationType::Move => unified::NotificationType::Move,
            NotificationType::Unknown(s) => unified::NotificationType::Unknown(s),
        }
    }
}

impl FromSpecImpl<NotificationType> for unified::NotificationType {
    open spec fn obeys_from_spec() -> bool {
        true
    }

    open spec fn from_spec(wire: NotificationType) -> unified::NotificationType {
        match wire {
            NotificationType::Follow => unified::NotificationType::Follow,
            NotificationType::FollowRequest => unified::NotificationType::FollowRequest,
            NotificationType::Mention => unified::NotificationType::Mention,
            NotificationType::Reblog => unified::NotificationType::Reblog,
            NotificationType::Favourite => unified::NotificationType::Favourite,
            NotificationType::Poll => unified::NotificationType::PollExpired,
            NotificationType::PleromaEmojiReaction => unified::NotificationType::EmojiReaction,
            NotificationType::Update => unified::NotificationType::Update,
            NotificationType::Move => unified::NotificationType::Move,
            NotificationType::Unknown(s) => unified::NotificationType::Unknown(s),
        }
    }
}

/// A required field that holds the type of a notification; a failure of
/// the table is laid at the field.
pub open spec fn notification_type_at(
    fields: Seq<(Seq<char>, Json)>,
    name: Seq<char>,
    mode: Strictness,
) -> Result<
    WireKind,
    ErrorView,
> {
    match text_at(fields, name) {
        Err(e) => Err(e),
        Ok(s) => match WireKind::decoded(s, mode) {
            Ok(kind) => Ok(kind),
            Err(e) => Err(e.at(name)),
        },
    }
}

/// Reads a required field that holds the type of a notification.
pub fn required_notification_type(
    entries: &Vec<(String, JsonValue)>,
    name: &str,
    mode: Strictness,
) -> (r:
    Result<NotificationType, Error>)
    ensures
        outcome(r) == notification_type_at(entries.deep_view(), name@, mode),
{
    let s = required_text(entries, name)?;
    match NotificationType::decode(s.as_str(), mode) {
        Ok(kind) => Ok(kind),
        Err(e) => Err(e.at(name)),
    }
}

/// A notification.
#[derive(Debug, Clone, PartialEq, Eq)]
pub struct Notification {
    /// The account that gave rise to the notification.
    pub account: Account,
    pub created_at: Timestamp,
    pub id: String,
    pub status: Option<Status>,
    pub notification_type: NotificationType,
    /// The emoji of a reaction.
    pub emoji: Option<String>,
    /// The account that a move leads to.
    pub target: Option<Account>,
}

/// The mathematical value of a Pleroma [`Notification`].
pub struct NotificationRecord {
    pub account: AccountRecord,
    pub created_at: Timestamp,
    pub id: Seq<char>,
    pub status: Option<StatusRecord>,
    pub notification_type: WireKind,
    pub emoji: Option<Seq<char>>,
    pub target: Option<AccountRecord>,
}

impl DeepView for Notification {
    type V = NotificationRecord;

    open spec fn deep_view(&self) -> NotificationRecord {
        NotificationRecord {
            account: self.account.deep_view(),
            created_at: self.created_at,
            id: self.id@,
            status: self.status.deep_view(),
            notification_type: self.notification_type.deep_view(),
            emoji: self.emoji.deep_view(),
            target: self.target.deep_view(),
        }
    }
}

impl View for Notification {
    type V = NotificationRecord;

    open spec fn view(&self) -> NotificationRecord {
        self.deep_view()
    }
}

impl FromJson for Notification {
    open spec fn entity() -> Seq<char> {
        "Notification"@
    }

    open spec fn known_fields() -> Seq<Seq<char>> {
        seq!["account"@, "created_at"@, "id"@, "status"@, "type"@, "emoji"@, "target"@]
    }

    open spec fn readable(fields: Seq<(Seq<char>, Json)>, mode: Strictness) -> bool {
        &&& screened(fields, Self::known_fields(), mode) is Ok
        &&& record_at::<Account>(fields, "account"@, mode) is Ok
        &&& instant_at(fields, "created_at"@) is Ok
        &&& text_at(fields, "id"@) is Ok
        &&& opt_record_at::<Status>(fields, "status"@, mode) is Ok
        &&& notification_type_at(fields, "type"@, mode) is Ok
        &&& opt_text_at(fields, "emoji"@) is Ok
        &&& opt_record_at::<Account>(fields, "target"@, mode) is Ok
    }

    /// The fields are screened first, then read in the order of
    /// `known_fields`; the first failure is the outcome.
    open spec fn of_json(doc: Json, mode: Strictness) -> Result<NotificationRecord, ErrorView> {
        match doc {
            Json::Object(fields) => {
                let screen = screened(fields, Notification::known_fields(), mode);
                let account = record_at::<Account>(fields, "account"@, mode);
                let created_at = instant_at(fields, "created_at"@);
                let id = text_at(fields, "id"@);
                let status = opt_record_at::<Status>(fields, "status"@, mode);
                let notification_type = notification_type_at(fields, "type"@, mode);
                let emoji = opt_text_at(fields, "emoji"@);
                let target = opt_record_at::<Account>(fields, "target"@, mode);
                if screen is Err {
                    Err(screen->Err_0)
                } else if account is Err {
                    Err(account->Err_0)
                } else if created_at is Err {
                    Err(created_at->Err_0)
                } else if id is Err {
                    Err(id->Err_0)
                } else if status is Err {
                    Err(status->Err_0)
                } else if notification_type is Err {
                    Err(notification_type->Err_0)
                } else if emoji is Err {
                    Err(emoji->Err_0)
                } else if target is Err {
                    Err(target->Err_0)
                } else {
                    Ok(
                        NotificationRecord {
                            account: account->Ok_0,
                            created_at: created_at->Ok_0,
                            id: id->Ok_0,
                            status: status->Ok_0,
                            notification_type: notification_type->Ok_0,
                            emoji: emoji->Ok_0,
                            target: target->Ok_0,
                        },
                    )
                }
            },
            _ => Err(ErrorView::not_an_object()),
        }
    }

    fn entity_name() -> (name: &'static str) {
        "Notification"
    }

    fn from_json(doc: &JsonValue, mode: Strictness) -> (r: Result<Notification, Error>) {
        let entries = match doc.as_object() {
            Some(entries) => entries,
            None => { return Err(Error::not_an_object()); },
        };
        let known = vec!["account", "created_at", "id", "status", "type", "emoji", "target"];
        assert(known.deep_view() =~= Notification::known_fields());
        check_fields(entries, &known, mode)?;
        let account = required_record::<Account>(entries, "account", mode)?;
        let created_at = required_instant(entries, "created_at")?;
        let id = required_text(entries, "id")?;
        let status = optional_record::<Status>(entries, "status", mode)?;
        let notification_type = required_notification_type(entries, "type", mode)?;
        let emoji = optional_text(entries, "emoji")?;
        let target = optional_record::<Account>(entries, "target", mode)?;
        Ok(Notification { account, created_at, id, status, notification_type, emoji, target })
    }

    proof fn lemma_total(doc: Json, mode: Strictness) {
    }

    proof fn lemma_ignores_unknown(
        fields: Seq<(Seq<char>, Json)>,
        at: int,
        key: Seq<char>,
        value: Json,
    ) {
        lemma_insert_unknown(fields, at, key, value, Self::known_fields(), 0);
        lemma_insert_unknown(fields, at, key, value, Self::known_fields(), 1);
        lemma_insert_unknown(fields, at, key, value, Self::known_fields(), 2);
        lemma_insert_unknown(fields, at, key, value, Self::known_fields(), 3);
        lemma_insert_unknown(fields, at, key, value, Self::known_fields(), 4);
        lemma_insert_unknown(fields, at, key, value, Self::known_fields(), 5);
        lemma_insert_unknown(fields, at, key, value, Self::known_fields(), 6);
    }

    proof fn lemma_refuses_unknown(
        fields: Seq<(Seq<char>, Json)>,
        at: int,
        key: Seq<char>,
        value: Json,
    ) {
        lemma_screen_refuses(fields, at, key, value, Self::known_fields());
    }
}

/// What becomes of a notification whose type is spelled as Pleroma's table
/// does not have it, where all that is read before the type can be read:
/// in strict mode the reading fails, with an unknown-variant failure at
/// `type` that holds the spelling; in lenient mode the type is kept as
/// unknown with its spelling, if the rest can be read too.
pub proof fn lemma_unknown_type(
    fields: Seq<(Seq<char>, Json)>,
    spelling: Seq<char>,
    mode: Strictness,
)
    requires
        screened(fields, Notification::known_fields(), mode) is Ok,
        record_at::<Account>(fields, "account"@, mode) is Ok,
        instant_at(fields, "created_at"@) is Ok,
        text_at(fields, "id"@) is Ok,
        opt_record_at::<Status>(fields, "status"@, mode) is Ok,
        text_at(fields, "type"@) == Ok::<_, ErrorView>(spelling),
        WireKind::read(spelling) is None,
    ensures
        mode == Strictness::Strict ==> Notification::of_json(Json::Object(fields), mode) == Err::<
            NotificationRecord,
            _,
        >(ErrorView::unknown_variant(spelling).at("type"@)),
        mode == Strictness::Lenient
            && opt_text_at(fields, "emoji"@) is Ok
            && opt_record_at::<Account>(
            fields,
            "target"@,
            mode,
        ) is Ok ==> (Notification::of_json(Json::Object(fields), mode) matches Ok(record)
            && record.notification_type == WireKind::Unknown(spelling)),
{
}

impl NotificationRecord {
    /// What is mended on the way from a record to a notification: the
    /// warnings of the account, then those of the status, then those of the
    /// target.
    pub open spec fn warnings(self) -> Seq<WarningView> {
        Account::warnings(self.account) + (match self.status {
            Some(status) => Status::warnings(status),
            None => Seq::empty(),
        }) + (match self.target {
            Some(target) => Account::warnings(target),
            None => Seq::empty(),
        })
    }
}

impl ToUnified for Notification {
    type Unified = unified::Notification;

    /// The id, the time and the emoji as they came; the type as Pleroma's
    /// table maps it; the account, the status and the target projected in
    /// their turn, the latter two absent where the wire's are.
    open spec fn unified(wire: NotificationRecord) -> unified::NotificationView {
        unified::NotificationView {
            id: wire.id,
            created_at: wire.created_at,
            notification_type: wire.notification_type.unified(),
            account: Account::unified(wire.account),
            status: match wire.status {
                Some(status) => Some(Status::unified(status)),
                None => None,
            },
            target: match wire.target {
                Some(target) => Some(Account::unified(target)),
                None => None,
            },
            emoji: wire.emoji,
        }
    }

    open spec fn warnings(wire: NotificationRecord) -> Seq<WarningView> {
        wire.warnings()
    }

    fn to_unified(&self, sink: &mut Vec<Warning>) -> (entity: unified::Notification) {
        let ghost start = sink.deep_view();
        let ghost wire = self.deep_view();
        let account = self.account.to_unified(sink);
        let ghost from_account = Account::warnings(wire.account);
        let ghost from_status = match wire.status {
            Some(status) => Status::warnings(status),
            None => Seq::empty(),
        };
        let status = match &self.status {
            Some(status) => Some(status.to_unified(sink)),
            None => None,
        };
        assert(sink.deep_view() =~= start + (from_account + from_status));
        let target = match &self.target {
            Some(target) => Some(target.to_unified(sink)),
            None => None,
        };
        assert(sink.deep_view() =~= start + wire.warnings());
        let entity = unified::Notification {
            id: self.id.clone(),
            created_at: self.created_at,
            notification_type: unified::NotificationType::from(self.notification_type.clone()),
            account,
            status,
            target,
            emoji: match &self.emoji {
                Some(emoji) => Some(emoji.clone()),
                None => None,
            },
        };
        assert(entity.deep_view() == Self::unified(wire));
        entity
    }
}

} // verus!
