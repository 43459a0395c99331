//! Notifications of the unified model, and the table of their types.

use crate::entities::account::{Account, AccountView};
use crate::entities::status::{Status, StatusView};
use crate::error::{outcome, Error, ErrorView};
use crate::flavor::Flavor;
use crate::strictness::Strictness;
use crate::text::str_eq;
use crate::time::Timestamp;
use vstd::prelude::*;

verus! {

/// What a notification is about. The set is closed: what no flavor's table
/// holds is kept as `Unknown` with its spelling, in lenient mode only.
#[derive(Debug, PartialEq, Eq)]
pub enum NotificationType {
    Follow,
    FollowRequest,
    Mention,
    Reblog,
    Favourite,
    PollVote,
    PollExpired,
    EmojiReaction,
    Status,
    Update,
    Move,
    AdminSignup,
    AdminReport,
    Unknown(String),
}

/// The mathematical value of a [`NotificationType`].
pub enum NotificationKind {
    Follow,
    FollowRequest,
    Mention,
    Reblog,
    Favourite,
    PollVote,
    PollExpired,
    EmojiReaction,
    Status,
    Update,
    Move,
    AdminSignup,
    AdminReport,
    Unknown(Seq<char>),
}

impl Clone for NotificationType {
    fn clone(&self) -> (copy: NotificationType)
        ensures
            copy == *self,
    {
        match self {
            NotificationType::Follow => NotificationType::Follow,
            NotificationType::FollowRequest => NotificationType::FollowRequest,
            NotificationType::Mention => NotificationType::Mention,
            NotificationType::Reblog => NotificationType::Reblog,
            NotificationType::Favourite => NotificationType::Favourite,
            NotificationType::PollVote => NotificationType::PollVote,
            NotificationType::PollExpired => NotificationType::PollExpired,
            NotificationType::EmojiReaction => NotificationType::EmojiReaction,
            NotificationType::Status => NotificationType::Status,
            NotificationType::Update => NotificationType::Update,
            NotificationType::Move => NotificationType::Move,
            NotificationType::AdminSignup => NotificationType::AdminSignup,
            NotificationType::AdminReport => NotificationType::AdminReport,
            NotificationType::Unknown(s) => NotificationType::Unknown(s.clone()),
        }
    }
}

impl DeepView for NotificationType {
    type V = NotificationKind;

    open spec fn deep_view(&self) -> NotificationKind {
        match self {
            NotificationType::Follow => NotificationKind::Follow,
            NotificationType::FollowRequest => NotificationKind::FollowRequest,
            NotificationType::Mention => NotificationKind::Mention,
            NotificationType::Reblog => NotificationKind::Reblog,
            NotificationType::Favourite => NotificationKind::Favourite,
            NotificationType::PollVote => NotificationKind::PollVote,
            NotificationType::PollExpired => NotificationKind::PollExpired,
            NotificationType::EmojiReaction => NotificationKind::EmojiReaction,
            NotificationType::Status => NotificationKind::Status,
            NotificationType::Update => NotificationKind::Update,
            NotificationType::Move => NotificationKind::Move,
            NotificationType::AdminSignup => NotificationKind::AdminSignup,
            NotificationType::AdminReport => NotificationKind::AdminReport,
            NotificationType::Unknown(s) => NotificationKind::Unknown(s@),
        }
    }
}

impl View for NotificationType {
    type V = NotificationKind;

    open spec fn view(&self) -> NotificationKind {
        self.deep_view()
    }
}

/// The canonical spelling of a type on a flavor's wire; `None` where the
/// flavor has no such notification. An unknown type is spelled as it came.
pub open spec fn spelling(flavor: Flavor, kind: NotificationKind) -> Option<Seq<char>> {
    match flavor {
        Flavor::Mastodon => match kind {
            NotificationKind::Follow => Some("follow"@),
            NotificationKind::FollowRequest => Some("follow_request"@),
            NotificationKind::Mention => Some("mention"@),
            NotificationKind::Reblog => Some("reblog"@),
            NotificationKind::Favourite => Some("favourite"@),
            NotificationKind::PollVote => Some("poll"@),
            NotificationKind::PollExpired => Some("poll"@),
            NotificationKind::EmojiReaction => None,
            NotificationKind::Status => Some("status"@),
            NotificationKind::Update => Some("update"@),
            NotificationKind::Move => Some("move"@),
            NotificationKind::AdminSignup => Some("admin.sign_up"@),
            NotificationKind::AdminReport => Some("admin.report"@),
            NotificationKind::Unknown(s) => Some(s),
        },
        Flavor::Pleroma => match kind {
            NotificationKind::Follow => Some("follow"@),
            NotificationKind::FollowRequest => Some("follow_request"@),
            NotificationKind::Mention => Some("mention"@),
            NotificationKind::Reblog => Some("reblog"@),
            NotificationKind::Favourite => Some("favourite"@),
            NotificationKind::PollVote => None,
            NotificationKind::PollExpired => Some("poll"@),
            NotificationKind::EmojiReaction => Some("pleroma:emoji_reaction"@),
            NotificationKind::Status => None,
            NotificationKind::Update => Some("update"@),
            NotificationKind::Move => Some("move"@),
            NotificationKind::AdminSignup => None,
            NotificationKind::AdminReport => None,
            NotificationKind::Unknown(s) => Some(s),
        },
        Flavor::Firefish => match kind {
            NotificationKind::Follow => Some("follow"@),
            NotificationKind::FollowRequest => Some("receiveFollowRequest"@),
            NotificationKind::Mention => Some("mention"@),
            NotificationKind::Reblog => Some("renote"@),
            NotificationKind::Favourite => Some("favourite"@),
            NotificationKind::PollVote => Some("pollVote"@),
            NotificationKind::PollExpired => Some("pollEnded"@),
            NotificationKind::EmojiReaction => Some("reaction"@),
            NotificationKind::Status => None,
            NotificationKind::Update => None,
            NotificationKind::Move => None,
            NotificationKind::AdminSignup => None,
            NotificationKind::AdminReport => None,
            NotificationKind::Unknown(s) => Some(s),
        },
    }
}

/// The type that a flavor's table gives for a spelling; `None` where the
/// table does not hold it. Mastodon's `poll` is read as a poll that has
/// ended, and Firefish's `reply` as a mention.
pub open spec fn recognized(flavor: Flavor, s: Seq<char>) -> Option<NotificationKind> {
    match flavor {
        Flavor::Mastodon => if s == "follow"@ {
            Some(NotificationKind::Follow)
        } else if s == "follow_request"@ {
            Some(NotificationKind::FollowRequest)
        } else if s == "mention"@ {
            Some(NotificationKind::Mention)
        } else if s == "reblog"@ {
            Some(NotificationKind::Reblog)
        } else if s == "favourite"@ {
            Some(NotificationKind::Favourite)
        } else if s == "poll"@ {
            Some(NotificationKind::PollExpired)
        } else if s == "status"@ {
            Some(NotificationKind::Status)
        } else if s == "update"@ {
            Some(NotificationKind::Update)
        } else if s == "move"@ {
            Some(NotificationKind::Move)
        } else if s == "admin.sign_up"@ {
            Some(NotificationKind::AdminSignup)
        } else if s == "admin.report"@ {
            Some(NotificationKind::AdminReport)
        } else {
            None
        },
        Flavor::Pleroma => if s == "follow"@ {
            Some(NotificationKind::Follow)
        } else if s == "follow_request"@ {
            Some(NotificationKind::FollowRequest)
        } else if s == "mention"@ {
            Some(NotificationKind::Mention)
        } else if s == "reblog"@ {
            Some(NotificationKind::Reblog)
        } else if s == "favourite"@ {
            Some(NotificationKind::Favourite)
        } else if s == "poll"@ {
            Some(NotificationKind::PollExpired)
        } else if s == "pleroma:emoji_reaction"@ {
            Some(NotificationKind::EmojiReaction)
        } else if s == "update"@ {
            Some(NotificationKind::Update)
        } else if s == "move"@ {
            Some(NotificationKind::Move)
        } else {
            None
        },
        Flavor::Firefish => if s == "follow"@ {
            Some(NotificationKind::Follow)
        } else if s == "receiveFollowRequest"@ {
            Some(NotificationKind::FollowRequest)
        } else if s == "mention"@ || s == "reply"@ {
            Some(NotificationKind::Mention)
        } else if s == "renote"@ {
            Some(NotificationKind::Reblog)
        } else if s == "favourite"@ {
            Some(NotificationKind::Favourite)
        } else if s == "pollVote"@ {
            Some(NotificationKind::PollVote)
        } else if s == "pollEnded"@ {
            Some(NotificationKind::PollExpired)
        } else if s == "reaction"@ {
            Some(NotificationKind::EmojiReaction)
        } else {
            None
        },
    }
}

/// What a decoder makes of a spelling: the table's type where the table
/// holds it; else the spelling kept as unknown in lenient mode, and a
/// failure in strict mode.
pub open spec fn decoded(flavor: Flavor, s: Seq<char>, mode: Strictness) -> Result<
    NotificationKind,
    ErrorView,
> {
    match recognized(flavor, s) {
        Some(kind) => Ok(kind),
        None => match mode {
            Strictness::Lenient => Ok(NotificationKind::Unknown(s)),
            Strictness::Strict => Err(ErrorView::unknown_variant(s)),
        },
    }
}

/// Reveals what the spellings of the table hold.
pub proof fn reveal_spellings()
    ensures
        "follow"@ == seq!['f', 'o', 'l', 'l', 'o', 'w'],
        "follow_request"@.len() == 14,
        "mention"@.len() == 7,
        "reblog"@ == seq!['r', 'e', 'b', 'l', 'o', 'g'],
        "favourite"@ == seq!['f', 'a', 'v', 'o', 'u', 'r', 'i', 't', 'e'],
        "poll"@ == seq!['p', 'o', 'l', 'l'],
        "status"@ == seq!['s', 't', 'a', 't', 'u', 's'],
        "update"@ == seq!['u', 'p', 'd', 'a', 't', 'e'],
        "move"@ == seq!['m', 'o', 'v', 'e'],
        "admin.sign_up"@.len() == 13,
        "admin.report"@.len() == 12,
        "pleroma:emoji_reaction"@.len() == 22,
        "receiveFollowRequest"@.len() == 20,
        "reply"@.len() == 5,
        "renote"@ == seq!['r', 'e', 'n', 'o', 't', 'e'],
        "pollVote"@.len() == 8,
        "pollVote"@[0] == 'p',
        "pollEnded"@ == seq!['p', 'o', 'l', 'l', 'E', 'n', 'd', 'e', 'd'],
        "reaction"@.len() == 8,
        "reaction"@[0] == 'r',
{
    reveal_strlit("follow");
    reveal_strlit("follow_request");
    reveal_strlit("mention");
    reveal_strlit("reblog");
    reveal_strlit("favourite");
    reveal_strlit("poll");
    reveal_strlit("status");
    reveal_strlit("update");
    reveal_strlit("move");
    reveal_strlit("admin.sign_up");
    reveal_strlit("admin.report");
    reveal_strlit("pleroma:emoji_reaction");
    reveal_strlit("receiveFollowRequest");
    reveal_strlit("reply");
    reveal_strlit("renote");
    reveal_strlit("pollVote");
    reveal_strlit("pollEnded");
    reveal_strlit("reaction");
    assert("follow"@ =~= seq!['f', 'o', 'l', 'l', 'o', 'w']);
    assert("reblog"@ =~= seq!['r', 'e', 'b', 'l', 'o', 'g']);
    assert("favourite"@ =~= seq!['f', 'a', 'v', 'o', 'u', 'r', 'i', 't', 'e']);
    assert("poll"@ =~= seq!['p', 'o', 'l', 'l']);
    assert("status"@ =~= seq!['s', 't', 'a', 't', 'u', 's']);
    assert("update"@ =~= seq!['u', 'p', 'd', 'a', 't', 'e']);
    assert("move"@ =~= seq!['m', 'o', 'v', 'e']);
    assert("renote"@ =~= seq!['r', 'e', 'n', 'o', 't', 'e']);
    assert("pollEnded"@ =~= seq!['p', 'o', 'l', 'l', 'E', 'n', 'd', 'e', 'd']);
}

/// Reading a type's canonical spelling gives the type back: for every
/// flavor and every type of its table, but for Mastodon's vote in a poll,
/// whose spelling `poll` is read as a poll that has ended.
pub proof fn lemma_spelling_round_trip(flavor: Flavor, kind: NotificationKind)
    requires
        !(kind is Unknown),
        spelling(flavor, kind) is Some,
        !(flavor == Flavor::Mastodon && kind == NotificationKind::PollVote),
    ensures
        recognized(flavor, spelling(flavor, kind)->0) == Some(kind),
        forall|mode: Strictness| decoded(flavor, spelling(flavor, kind)->0, mode) == Ok::<_, ErrorView>(kind),
{
    reveal_spellings();
}

/// Every spelling that a table holds is the canonical spelling of the type
/// it is read as, but for Firefish's `reply`, which is read as a mention.
pub proof fn lemma_recognized_is_canonical(flavor: Flavor, s: Seq<char>)
    requires
        recognized(flavor, s) is Some,
        !(flavor == Flavor::Firefish && s == "reply"@),
    ensures
        spelling(flavor, recognized(flavor, s)->0) == Some(s),
        !(recognized(flavor, s)->0 is Unknown),
{
}

/// In lenient mode every spelling is read as some type, and one outside the
/// table is kept as it came; in strict mode exactly the spellings outside
/// the table fail, with an unknown-variant failure that holds the spelling.
pub proof fn lemma_unknown_spelling(flavor: Flavor, s: Seq<char>)
    ensures
        decoded(flavor, s, Strictness::Lenient) is Ok,
        recognized(flavor, s) is None ==> decoded(flavor, s, Strictness::Lenient) == Ok::<_, ErrorView>(
            NotificationKind::Unknown(s),
        ),
        decoded(flavor, s, Strictness::Strict) is Err <==> recognized(flavor, s) is None,
        decoded(flavor, s, Strictness::Strict) matches Err(e) ==> e == ErrorView::unknown_variant(s),
{
}

fn recognize_mastodon(s: &str) -> (r: Option<NotificationType>)
    ensures
        r.deep_view() == recognized(Flavor::Mastodon, s@),
{
    if str_eq(s, "follow") {
        Some(NotificationType::Follow)
    } else if str_eq(s, "follow_request") {
        Some(NotificationType::FollowRequest)
    } else if str_eq(s, "mention") {
        Some(NotificationType::Mention)
    } else if str_eq(s, "reblog") {
        Some(NotificationType::Reblog)
    } else if str_eq(s, "favourite") {
        Some(NotificationType::Favourite)
    } else if str_eq(s, "poll") {
        Some(NotificationType::PollExpired)
    } else if str_eq(s, "status") {
        Some(NotificationType::Status)
    } else if str_eq(s, "update") {
        Some(NotificationType::Update)
    } else if str_eq(s, "move") {
        Some(NotificationType::Move)
    } else if str_eq(s, "admin.sign_up") {
        Some(NotificationType::AdminSignup)
    } else if str_eq(s, "admin.report") {
        Some(NotificationType::AdminReport)
    } else {
        None
    }
}

fn recognize_pleroma(s: &str) -> (r: Option<NotificationType>)
    ensures
        r.deep_view() == recognized(Flavor::Pleroma, s@),
{
    if str_eq(s, "follow") {
        Some(NotificationType::Follow)
    } else if str_eq(s, "follow_request") {
        Some(NotificationType::FollowRequest)
    } else if str_eq(s, "mention") {
        Some(NotificationType::Mention)
    } else if str_eq(s, "reblog") {
        Some(NotificationType::Reblog)
    } else if str_eq(s, "favourite") {
        Some(NotificationType::Favourite)
    } else if str_eq(s, "poll") {
        Some(NotificationType::PollExpired)
    } else if str_eq(s, "pleroma:emoji_reaction") {
        Some(NotificationType::EmojiReaction)
    } else if str_eq(s, "update") {
        Some(NotificationType::Update)
    } else if str_eq(s, "move") {
        Some(NotificationType::Move)
    } else {
        None
    }
}

fn recognize_firefish(s: &str) -> (r: Option<NotificationType>)
    ensures
        r.deep_view() == recognized(Flavor::Firefish, s@),
{
    if str_eq(s, "follow") {
        Some(NotificationType::Follow)
    } else if str_eq(s, "receiveFollowRequest") {
        Some(NotificationType::FollowRequest)
    } else if str_eq(s, "mention") || str_eq(s, "reply") {
        Some(NotificationType::Mention)
    } else if str_eq(s, "renote") {
        Some(NotificationType::Reblog)
    } else if str_eq(s, "favourite") {
        Some(NotificationType::Favourite)
    } else if str_eq(s, "pollVote") {
        Some(NotificationType::PollVote)
    } else if str_eq(s, "pollEnded") {
        Some(NotificationType::PollExpired)
    } else if str_eq(s, "reaction") {
        Some(NotificationType::EmojiReaction)
    } else {
        None
    }
}

impl NotificationType {
    /// Reads a spelling from a flavor's wire.
    pub fn from_wire(
        flavor: Flavor,
        s: &str,
        mode: Strictness,
    ) -> (r: Result<NotificationType, Error>)
        ensures
            outcome(r) == decoded(flavor, s@, mode),
    {
        let found = match flavor {
            Flavor::Mastodon => recognize_mastodon(s),
            Flavor::Pleroma => recognize_pleroma(s),
            Flavor::Firefish => recognize_firefish(s),
        };
        match found {
            Some(kind) => Ok(kind),
            None => match mode {
                Strictness::Lenient => Ok(NotificationType::Unknown(s.to_owned())),
                Strictness::Strict => Err(Error::unknown_variant(s)),
            },
        }
    }

    /// The canonical spelling of the type on a flavor's wire, for request
    /// payloads; `None` where the flavor has no such notification.
    pub fn wire_name(&self, flavor: Flavor) -> (r: Option<String>)
        ensures
            r.deep_view() == spelling(flavor, self@),
    {
        let name: &str = match self {
            NotificationType::Unknown(s) => s.as_str(),
            NotificationType::Follow => "follow",
            NotificationType::Mention => "mention",
            NotificationType::Favourite => "favourite",
            NotificationType::FollowRequest => match flavor {
                Flavor::Firefish => "receiveFollowRequest",
                _ => "follow_request",
            },
            NotificationType::Reblog => match flavor {
                Flavor::Firefish => "renote",
                _ => "reblog",
            },
            NotificationType::PollVote => match flavor {
                Flavor::Mastodon => "poll",
                Flavor::Pleroma => { return None; },
                Flavor::Firefish => "pollVote",
            },
            NotificationType::PollExpired => match flavor {
                Flavor::Firefish => "pollEnded",
                _ => "poll",
            },
            NotificationType::EmojiReaction => match flavor {
                Flavor::Mastodon => { return None; },
                Flavor::Pleroma => "pleroma:emoji_reaction",
                Flavor::Firefish => "reaction",
            },
            NotificationType::Status => match flavor {
                Flavor::Mastodon => "status",
                _ => { return None; },
            },
            NotificationType::Update => match flavor {
                Flavor::Firefish => { return None; },
                _ => "update",
            },
            NotificationType::Move => match flavor {
                Flavor::Firefish => { return None; },
                _ => "move",
            },
            NotificationType::AdminSignup => match flavor {
                Flavor::Mastodon => "admin.sign_up",
                _ => { return None; },
            },
            NotificationType::AdminReport => match flavor {
                Flavor::Mastodon => "admin.report",
                _ => { return None; },
            },
        };
        Some(name.to_owned())
    }
}

/// A notification.
#[derive(Debug, Clone, PartialEq, Eq)]
pub struct Notification {
    pub id: String,
    pub created_at: Timestamp,
    pub notification_type: NotificationType,
    /// The account that gave rise to the notification.
    pub account: Account,
    pub status: Option<Status>,
    /// The account that a move leads to, or that an admin event is about.
    pub target: Option<Account>,
    /// The emoji of a reaction.
    pub emoji: Option<String>,
}

/// The mathematical value of a [`Notification`].
pub struct NotificationView {
    pub id: Seq<char>,
    pub created_at: Timestamp,
    pub notification_type: NotificationKind,
    pub account: AccountView,
    pub status: Option<StatusView>,
    pub target: Option<AccountView>,
    pub emoji: Option<Seq<char>>,
}

impl DeepView for Notification {
    type V = NotificationView;

    open spec fn deep_view(&self) -> NotificationView {
        NotificationView {
            id: self.id@,
            created_at: self.created_at,
            notification_type: self.notification_type.deep_view(),
            account: self.account.deep_view(),
            status: self.status.deep_view(),
            target: self.target.deep_view(),
            emoji: self.emoji.deep_view(),
        }
    }
}

impl Notification {
    /// A notification with the given fields, and without status, target
    /// and emoji.
    pub fn new(id: String, created_at: Timestamp, notification_type: NotificationType, account: Account) -> (n:
        Notification)
        ensures
            n@ == (NotificationView {
                id: id@,
                created_at,
                notification_type: notification_type@,
                account: account@,
                status: None,
                target: None,
                emoji: None,
            }),
    {
        Notification { id, created_at, notification_type, account, status: None, target: None, emoji: None }
    }
}

impl View for Notification {
    type V = NotificationView;

    open spec fn view(&self) -> NotificationView {
        self.deep_view()
    }
}

} // verus!
