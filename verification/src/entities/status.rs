//! Statuses of the unified model.

use crate::entities::account::{Account, AccountView, Emoji, EmojiView};
use crate::time::Timestamp;
use vstd::prelude::*;

verus! {

/// Who may see a status. `Unknown` holds a spelling that the flavor's table
/// does not have; only a lenient decoder makes one.
#[derive(Debug, PartialEq, Eq)]
pub enum StatusVisibility {
    Public,
    Unlisted,
    Private,
    Direct,
    Unknown(String),
}

/// The mathematical value of a [`StatusVisibility`].
pub enum VisibilityView {
    Public,
    Unlisted,
    Private,
    Direct,
    Unknown(Seq<char>),
}

impl DeepView for StatusVisibility {
    type V = VisibilityView;

    open spec fn deep_view(&self) -> VisibilityView {
        match self {
            StatusVisibility::Public => VisibilityView::Public,
            StatusVisibility::Unlisted => VisibilityView::Unlisted,
            StatusVisibility::Private => VisibilityView::Private,
            StatusVisibility::Direct => VisibilityView::Direct,
            StatusVisibility::Unknown(s) => VisibilityView::Unknown(s@),
        }
    }
}

impl Clone for StatusVisibility {
    fn clone(&self) -> (copy: StatusVisibility)
        ensures
            copy == *self,
    {
        match self {
            StatusVisibility::Public => StatusVisibility::Public,
            StatusVisibility::Unlisted => StatusVisibility::Unlisted,
            StatusVisibility::Private => StatusVisibility::Private,
            StatusVisibility::Direct => StatusVisibility::Direct,
            StatusVisibility::Unknown(s) => StatusVisibility::Unknown(s.clone()),
        }
    }
}

/// What an attachment is. `Unknown` holds a spelling that the flavor's
/// table does not have; only a lenient decoder makes one.
#[derive(Debug, PartialEq, Eq)]
pub enum MediaType {
    Image,
    Gifv,
    Video,
    Audio,
    Unknown(String),
}

/// The mathematical value of a [`MediaType`].
pub enum MediaTypeView {
    Image,
    Gifv,
    Video,
    Audio,
    Unknown(Seq<char>),
}

impl DeepView for MediaType {
    type V = MediaTypeView;

    open spec fn deep_view(&self) -> MediaTypeView {
        match self {
            MediaType::Image => MediaTypeView::Image,
            MediaType::Gifv => MediaTypeView::Gifv,
            MediaType::Video => MediaTypeView::Video,
            MediaType::Audio => MediaTypeView::Audio,
            MediaType::Unknown(s) => MediaTypeView::Unknown(s@),
        }
    }
}

impl Clone for MediaType {
    fn clone(&self) -> (copy: MediaType)
        ensures
            copy == *self,
    {
        match self {
            MediaType::Image => MediaType::Image,
            MediaType::Gifv => MediaType::Gifv,
            MediaType::Video => MediaType::Video,
            MediaType::Audio => MediaType::Audio,
            MediaType::Unknown(s) => MediaType::Unknown(s.clone()),
        }
    }
}

/// A file attached to a status.
#[derive(Debug, PartialEq, Eq)]
pub struct Attachment {
    pub id: String,
    pub media_type: MediaType,
    pub url: String,
    pub preview_url: Option<String>,
    pub description: Option<String>,
}

/// The mathematical value of an [`Attachment`].
pub struct AttachmentView {
    pub id: Seq<char>,
    pub media_type: MediaTypeView,
    pub url: Seq<char>,
    pub preview_url: Option<Seq<char>>,
    pub description: Option<Seq<char>>,
}

impl DeepView for Attachment {
    type V = AttachmentView;

    open spec fn deep_view(&self) -> AttachmentView {
        AttachmentView {
            id: self.id@,
            media_type: self.media_type.deep_view(),
            url: self.url@,
            preview_url: self.preview_url.deep_view(),
            description: self.description.deep_view(),
        }
    }
}

/// An account named in a status.
#[derive(Debug, PartialEq, Eq)]
pub struct Mention {
    pub id: String,
    pub username: String,
    pub url: String,
    pub acct: String,
}

/// The mathematical value of a [`Mention`].
pub struct MentionView {
    pub id: Seq<char>,
    pub username: Seq<char>,
    pub url: Seq<char>,
    pub acct: Seq<char>,
}

impl DeepView for Mention {
    type V = MentionView;

    open spec fn deep_view(&self) -> MentionView {
        MentionView { id: self.id@, username: self.username@, url: self.url@, acct: self.acct@ }
    }
}

/// A hashtag used in a status.
#[derive(Debug, PartialEq, Eq)]
pub struct Tag {
    pub name: String,
    pub url: String,
}

/// The mathematical value of a [`Tag`].
pub struct TagView {
    pub name: Seq<char>,
    pub url: Seq<char>,
}

impl DeepView for Tag {
    type V = TagView;

    open spec fn deep_view(&self) -> TagView {
        TagView { name: self.name@, url: self.url@ }
    }
}

/// How often a status was answered with one emoji.
#[derive(Debug, PartialEq, Eq)]
pub struct Reaction {
    pub name: String,
    pub count: u64,
    /// Whether the reader's own account is among those who reacted.
    pub me: bool,
}

/// The mathematical value of a [`Reaction`].
pub struct ReactionView {
    pub name: Seq<char>,
    pub count: u64,
    pub me: bool,
}

impl DeepView for Reaction {
    type V = ReactionView;

    open spec fn deep_view(&self) -> ReactionView {
        ReactionView { name: self.name@, count: self.count, me: self.me }
    }
}

/// A status.
#[derive(Debug, PartialEq, Eq)]
pub struct Status {
    pub id: String,
    pub uri: String,
    pub url: Option<String>,
    pub account: Account,
    pub content: String,
    pub plain_content: Option<String>,
    pub created_at: Timestamp,
    pub edited_at: Option<Timestamp>,
    pub in_reply_to_id: Option<String>,
    pub reblog: Option<Box<Status>>,
    pub media_attachments: Vec<Attachment>,
    pub mentions: Vec<Mention>,
    pub tags: Vec<Tag>,
    pub emojis: Vec<Emoji>,
    pub emoji_reactions: Vec<Reaction>,
    pub visibility: StatusVisibility,
    pub favourites_count: u64,
    pub reblogs_count: u64,
    pub replies_count: u64,
    pub sensitive: bool,
    pub spoiler_text: Option<String>,
    /// A BCP 47 language tag.
    pub language: Option<String>,
    /// The name of the application that posted the status.
    pub application: Option<String>,
}

/// The mathematical value of a [`Status`].
pub struct StatusView {
    pub id: Seq<char>,
    pub uri: Seq<char>,
    pub url: Option<Seq<char>>,
    pub account: AccountView,
    pub content: Seq<char>,
    pub plain_content: Option<Seq<char>>,
    pub created_at: Timestamp,
    pub edited_at: Option<Timestamp>,
    pub in_reply_to_id: Option<Seq<char>>,
    pub reblog: Option<Box<StatusView>>,
    pub media_attachments: Seq<AttachmentView>,
    pub mentions: Seq<MentionView>,
    pub tags: Seq<TagView>,
    pub emojis: Seq<EmojiView>,
    pub emoji_reactions: Seq<ReactionView>,
    pub visibility: VisibilityView,
    pub favourites_count: u64,
    pub reblogs_count: u64,
    pub replies_count: u64,
    pub sensitive: bool,
    pub spoiler_text: Option<Seq<char>>,
    pub language: Option<Seq<char>>,
    pub application: Option<Seq<char>>,
}

/// The mathematical value of a status.
pub open spec fn status_view(status: Status) -> StatusView
    decreases status,
{
    StatusView {
        id: status.id@,
        uri: status.uri@,
        url: status.url.deep_view(),
        account: status.account.deep_view(),
        content: status.content@,
        plain_content: status.plain_content.deep_view(),
        created_at: status.created_at,
        edited_at: status.edited_at,
        in_reply_to_id: status.in_reply_to_id.deep_view(),
        reblog: match status.reblog {
            Some(inner) => Some(Box::new(status_view(*inner))),
            None => None,
        },
        media_attachments: status.media_attachments.deep_view(),
        mentions: status.mentions.deep_view(),
        tags: status.tags.deep_view(),
        emojis: status.emojis.deep_view(),
        emoji_reactions: status.emoji_reactions.deep_view(),
        visibility: status.visibility.deep_view(),
        favourites_count: status.favourites_count,
        reblogs_count: status.reblogs_count,
        replies_count: status.replies_count,
        sensitive: status.sensitive,
        spoiler_text: status.spoiler_text.deep_view(),
        language: status.language.deep_view(),
        application: status.application.deep_view(),
    }
}

/// A copy of a status, field by field: it holds what the status holds.
fn copy_of(status: &Status) -> (copy: Status)
    ensures
        copy.deep_view() == status.deep_view(),
    decreases status,
{
    let copy = Status {
        id: status.id.clone(),
        uri: status.uri.clone(),
        url: status.url.clone(),
        account: status.account.clone(),
        content: status.content.clone(),
        plain_content: status.plain_content.clone(),
        created_at: status.created_at,
        edited_at: status.edited_at,
        in_reply_to_id: status.in_reply_to_id.clone(),
        reblog: match &status.reblog {
            Some(inner) => Some(Box::new(copy_of(inner))),
            None => None,
        },
        media_attachments: status.media_attachments.clone(),
        mentions: status.mentions.clone(),
        tags: status.tags.clone(),
        emojis: status.emojis.clone(),
        emoji_reactions: status.emoji_reactions.clone(),
        visibility: status.visibility.clone(),
        favourites_count: status.favourites_count,
        reblogs_count: status.reblogs_count,
        replies_count: status.replies_count,
        sensitive: status.sensitive,
        spoiler_text: status.spoiler_text.clone(),
        language: status.language.clone(),
        application: status.application.clone(),
    };
    assert(copy.media_attachments.deep_view() =~= status.media_attachments.deep_view());
    assert(copy.mentions.deep_view() =~= status.mentions.deep_view());
    assert(copy.tags.deep_view() =~= status.tags.deep_view());
    assert(copy.emojis.deep_view() =~= status.emojis.deep_view());
    assert(copy.emoji_reactions.deep_view() =~= status.emoji_reactions.deep_view());
    copy
}

impl Clone for Status {
    fn clone(&self) -> (copy: Status)
        ensures
            copy.deep_view() == self.deep_view(),
    {
        copy_of(self)
    }
}

impl Clone for Attachment {
    fn clone(&self) -> (copy: Attachment)
        ensures
            copy.deep_view() == self.deep_view(),
    {
        let copy = Attachment {
            id: self.id.clone(),
            media_type: self.media_type.clone(),
            url: self.url.clone(),
            preview_url: self.preview_url.clone(),
            description: self.description.clone(),
        };
        copy
    }
}

impl Clone for Mention {
    fn clone(&self) -> (copy: Mention)
        ensures
            copy.deep_view() == self.deep_view(),
    {
        let copy = Mention {
            id: self.id.clone(),
            username: self.username.clone(),
            url: self.url.clone(),
            acct: self.acct.clone(),
        };
        copy
    }
}

impl Clone for Tag {
    fn clone(&self) -> (copy: Tag)
        ensures
            copy.deep_view() == self.deep_view(),
    {
        let copy = Tag {
            name: self.name.clone(),
            url: self.url.clone(),
        };
        copy
    }
}

impl Clone for Reaction {
    fn clone(&self) -> (copy: Reaction)
        ensures
            copy.deep_view() == self.deep_view(),
    {
        let copy = Reaction {
            name: self.name.clone(),
            count: self.count,
            me: self.me,
        };
        copy
    }
}

impl DeepView for Status {
    type V = StatusView;

    open spec fn deep_view(&self) -> StatusView {
        status_view(*self)
    }
}

impl Status {
    /// A status with the given fields: nothing optional, no reblog, empty
    /// lists, counts of zero, and not sensitive.
    pub fn new(
        id: String,
        uri: String,
        account: Account,
        content: String,
        created_at: Timestamp,
        visibility: StatusVisibility,
    ) -> (status: Status)
        ensures
            status@ == (StatusView {
                id: id@,
                uri: uri@,
                url: None,
                account: account@,
                content: content@,
                plain_content: None,
                created_at,
                edited_at: None,
                in_reply_to_id: None,
                reblog: None,
                media_attachments: Seq::empty(),
                mentions: Seq::empty(),
                tags: Seq::empty(),
                emojis: Seq::empty(),
                emoji_reactions: Seq::empty(),
                visibility: visibility.deep_view(),
                favourites_count: 0,
                reblogs_count: 0,
                replies_count: 0,
                sensitive: false,
                spoiler_text: None,
                language: None,
                application: None,
            }),
    {
        let status = Status {
            id,
            uri,
            url: None,
            account,
            content,
            plain_content: None,
            created_at,
            edited_at: None,
            in_reply_to_id: None,
            reblog: None,
            media_attachments: Vec::new(),
            mentions: Vec::new(),
            tags: Vec::new(),
            emojis: Vec::new(),
            emoji_reactions: Vec::new(),
            visibility,
            favourites_count: 0,
            reblogs_count: 0,
            replies_count: 0,
            sensitive: false,
            spoiler_text: None,
            language: None,
            application: None,
        };
        assert(status.media_attachments.deep_view() =~= Seq::empty());
        assert(status.mentions.deep_view() =~= Seq::empty());
        assert(status.tags.deep_view() =~= Seq::empty());
        assert(status.emojis.deep_view() =~= Seq::empty());
        assert(status.emoji_reactions.deep_view() =~= Seq::empty());
        status
    }
}

impl View for Status {
    type V = StatusView;

    open spec fn view(&self) -> StatusView {
        self.deep_view()
    }
}

} // verus!
