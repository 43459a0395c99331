//! The OAuth value objects of the unified model.

use crate::time::Timestamp;
use vstd::prelude::*;

verus! {

/// A registered client application, with the secrets the server gave it.
#[derive(Debug, Clone, PartialEq, Eq)]
pub struct AppData {
    /// The opaque id that the server assigned.
    pub id: String,
    pub name: String,
    pub website: Option<String>,
    pub redirect_uri: Option<String>,
    pub client_id: String,
    pub client_secret: String,
    pub scopes: Vec<String>,
}

/// The mathematical value of an [`AppData`].
pub struct AppDataView {
    pub id: Seq<char>,
    pub name: Seq<char>,
    pub website: Option<Seq<char>>,
    pub redirect_uri: Option<Seq<char>>,
    pub client_id: Seq<char>,
    pub client_secret: Seq<char>,
    pub scopes: Seq<Seq<char>>,
}

impl DeepView for AppData {
    type V = AppDataView;

    open spec fn deep_view(&self) -> AppDataView {
        AppDataView {
            id: self.id@,
            name: self.name@,
            website: self.website.deep_view(),
            redirect_uri: self.redirect_uri.deep_view(),
            client_id: self.client_id@,
            client_secret: self.client_secret@,
            scopes: self.scopes.deep_view(),
        }
    }
}

impl View for AppData {
    type V = AppDataView;

    open spec fn view(&self) -> AppDataView {
        self.deep_view()
    }
}

impl AppData {
    /// An application with the given fields.
    pub fn new(
        id: String,
        name: String,
        website: Option<String>,
        redirect_uri: Option<String>,
        client_id: String,
        client_secret: String,
        scopes: Vec<String>,
    ) -> (app: AppData)
        ensures
            app@ == (AppDataView {
                id: id@,
                name: name@,
                website: website.deep_view(),
                redirect_uri: redirect_uri.deep_view(),
                client_id: client_id@,
                client_secret: client_secret@,
                scopes: scopes.deep_view(),
            }),
    {
        AppData { id, name, website, redirect_uri, client_id, client_secret, scopes }
    }
}

/// An access token, with what the server said of it.
#[derive(Debug, Clone, PartialEq, Eq)]
pub struct TokenData {
    pub access_token: String,
    /// The scheme of the token as a display string: `Bearer`, or the name
    /// of the flavor where the transport is to pick the scheme.
    pub token_type: String,
    pub scope: Option<String>,
    pub created_at: Option<Timestamp>,
    /// The seconds for which the token is good.
    pub expires_in: Option<u64>,
    pub refresh_token: Option<String>,
}

/// The mathematical value of a [`TokenData`].
pub struct TokenDataView {
    pub access_token: Seq<char>,
    pub token_type: Seq<char>,
    pub scope: Option<Seq<char>>,
    pub created_at: Option<Timestamp>,
    pub expires_in: Option<u64>,
    pub refresh_token: Option<Seq<char>>,
}

impl DeepView for TokenData {
    type V = TokenDataView;

    open spec fn deep_view(&self) -> TokenDataView {
        TokenDataView {
            access_token: self.access_token@,
            token_type: self.token_type@,
            scope: self.scope.deep_view(),
            created_at: self.created_at,
            expires_in: self.expires_in,
            refresh_token: self.refresh_token.deep_view(),
        }
    }
}

impl View for TokenData {
    type V = TokenDataView;

    open spec fn view(&self) -> TokenDataView {
        self.deep_view()
    }
}

impl TokenData {
    /// A token with the given fields.
    pub fn new(
        access_token: String,
        token_type: String,
        scope: Option<String>,
        created_at: Option<Timestamp>,
        expires_in: Option<u64>,
        refresh_token: Option<String>,
    ) -> (token: TokenData)
        ensures
            token@ == (TokenDataView {
                access_token: access_token@,
                token_type: token_type@,
                scope: scope.deep_view(),
                created_at,
                expires_in,
                refresh_token: refresh_token.deep_view(),
            }),
    {
        TokenData { access_token, token_type, scope, created_at, expires_in, refresh_token }
    }
}

} // verus!
