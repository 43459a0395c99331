//! Accounts of the unified model.

use crate::time::Timestamp;
use vstd::prelude::*;

verus! {

/// A custom emoji that a text may use.
#[derive(Debug, PartialEq, Eq)]
pub struct Emoji {
    pub shortcode: String,
    pub url: String,
    pub static_url: String,
    pub visible_in_picker: bool,
}

/// The mathematical value of an [`Emoji`].
pub struct EmojiView {
    pub shortcode: Seq<char>,
    pub url: Seq<char>,
    pub static_url: Seq<char>,
    pub visible_in_picker: bool,
}

impl DeepView for Emoji {
    type V = EmojiView;

    open spec fn deep_view(&self) -> EmojiView {
        EmojiView {
            shortcode: self.shortcode@,
            url: self.url@,
            static_url: self.static_url@,
            visible_in_picker: self.visible_in_picker,
        }
    }
}

impl Clone for Emoji {
    fn clone(&self) -> (copy: Emoji)
        ensures
            copy.deep_view() == self.deep_view(),
    {
        let copy = Emoji {
            shortcode: self.shortcode.clone(),
            url: self.url.clone(),
            static_url: self.static_url.clone(),
            visible_in_picker: self.visible_in_picker,
        };
        copy
    }
}

/// A line of an account's profile table.
#[derive(Debug, PartialEq, Eq)]
pub struct Field {
    pub name: String,
    pub value: String,
    pub verified_at: Option<Timestamp>,
}

/// The mathematical value of a [`Field`].
pub struct FieldView {
    pub name: Seq<char>,
    pub value: Seq<char>,
    pub verified_at: Option<Timestamp>,
}

impl DeepView for Field {
    type V = FieldView;

    open spec fn deep_view(&self) -> FieldView {
        FieldView { name: self.name@, value: self.value@, verified_at: self.verified_at }
    }
}

impl Clone for Field {
    fn clone(&self) -> (copy: Field)
        ensures
            copy.deep_view() == self.deep_view(),
    {
        let copy = Field {
            name: self.name.clone(),
            value: self.value.clone(),
            verified_at: self.verified_at,
        };
        copy
    }
}

/// An account.
#[derive(Debug, PartialEq, Eq)]
pub struct Account {
    pub id: String,
    pub username: String,
    /// The handle, with the domain for accounts of other servers.
    pub acct: String,
    pub display_name: String,
    pub note: String,
    pub avatar: String,
    pub header: String,
    pub url: String,
    pub followers_count: u64,
    pub following_count: u64,
    pub statuses_count: u64,
    pub created_at: Timestamp,
    pub bot: bool,
    pub locked: bool,
    pub fields: Vec<Field>,
    pub emojis: Vec<Emoji>,
}

/// The mathematical value of an [`Account`].
pub struct AccountView {
    pub id: Seq<char>,
    pub username: Seq<char>,
    pub acct: Seq<char>,
    pub display_name: Seq<char>,
    pub note: Seq<char>,
    pub avatar: Seq<char>,
    pub header: Seq<char>,
    pub url: Seq<char>,
    pub followers_count: u64,
    pub following_count: u64,
    pub statuses_count: u64,
    pub created_at: Timestamp,
    pub bot: bool,
    pub locked: bool,
    pub fields: Seq<FieldView>,
    pub emojis: Seq<EmojiView>,
}

impl DeepView for Account {
    type V = AccountView;

    open spec fn deep_view(&self) -> AccountView {
        AccountView {
            id: self.id@,
            username: self.username@,
            acct: self.acct@,
            display_name: self.display_name@,
            note: self.note@,
            avatar: self.avatar@,
            header: self.header@,
            url: self.url@,
            followers_count: self.followers_count,
            following_count: self.following_count,
            statuses_count: self.statuses_count,
            created_at: self.created_at,
            bot: self.bot,
            locked: self.locked,
            fields: self.fields.deep_view(),
            emojis: self.emojis.deep_view(),
        }
    }
}

impl Clone for Account {
    fn clone(&self) -> (copy: Account)
        ensures
            copy.deep_view() == self.deep_view(),
    {
        let copy = Account {
            id: self.id.clone(),
            username: self.username.clone(),
            acct: self.acct.clone(),
            display_name: self.display_name.clone(),
            note: self.note.clone(),
            avatar: self.avatar.clone(),
            header: self.header.clone(),
            url: self.url.clone(),
            followers_count: self.followers_count,
            following_count: self.following_count,
            statuses_count: self.statuses_count,
            created_at: self.created_at,
            bot: self.bot,
            locked: self.locked,
            fields: self.fields.clone(),
            emojis: self.emojis.clone(),
        };
        assert(copy.fields.deep_view() =~= self.fields.deep_view());
        assert(copy.emojis.deep_view() =~= self.emojis.deep_view());
        copy
    }
}

impl Account {
    /// An account with the given fields.
    pub fn new(
        id: String,
        username: String,
        acct: String,
        display_name: String,
        note: String,
        avatar: String,
        header: String,
        url: String,
        followers_count: u64,
        following_count: u64,
        statuses_count: u64,
        created_at: Timestamp,
        bot: bool,
        locked: bool,
        fields: Vec<Field>,
        emojis: Vec<Emoji>,
    ) -> (account: Account)
        ensures
            account@ == (AccountView {
                id: id@,
                username: username@,
                acct: acct@,
                display_name: display_name@,
                note: note@,
                avatar: avatar@,
                header: header@,
                url: url@,
                followers_count,
                following_count,
                statuses_count,
                created_at,
                bot,
                locked,
                fields: fields.deep_view(),
                emojis: emojis.deep_view(),
            }),
    {
        Account {
            id,
            username,
            acct,
            display_name,
            note,
            avatar,
            header,
            url,
            followers_count,
            following_count,
            statuses_count,
            created_at,
            bot,
            locked,
            fields,
            emojis,
        }
    }
}

impl View for Account {
    type V = AccountView;

    open spec fn view(&self) -> AccountView {
        self.deep_view()
    }
}

} // verus!
