//! What a Firefish server answers to an app registration and to a token
//! exchange.

use crate::error::{outcome, Error, ErrorView};
use crate::flavor::Flavor;
use crate::json::{lemma_insert_unknown, lemma_screen_refuses, 
    check_fields, opt_bool_at, opt_text_at, optional_bool, optional_text, required_text,
    required_text_list, screened, text_at, text_list_at, Json, JsonValue,
};
use crate::oauth::{AppData, AppDataView, TokenData, TokenDataView};
use crate::record::FromJson;
use crate::strictness::Strictness;
use vstd::prelude::*;

verus! {

/// The answer to an app registration.
#[derive(Debug, Clone, PartialEq, Eq)]
pub struct AppDataFromServer {
    pub id: String,
    pub name: String,
    pub callback_url: Option<String>,
    pub permission: Vec<String>,
    pub secret: Option<String>,
    pub is_authorized: Option<bool>,
}

/// The mathematical value of an [`AppDataFromServer`].
pub struct AppRecord {
    pub id: Seq<char>,
    pub name: Seq<char>,
    pub callback_url: Option<Seq<char>>,
    pub permission: Seq<Seq<char>>,
    pub secret: Option<Seq<char>>,
    pub is_authorized: Option<bool>,
}

impl DeepView for AppDataFromServer {
    type V = AppRecord;

    open spec fn deep_view(&self) -> AppRecord {
        AppRecord {
            id: self.id@,
            name: self.name@,
            callback_url: self.callback_url.deep_view(),
            permission: self.permission.deep_view(),
            secret: self.secret.deep_view(),
            is_authorized: self.is_authorized,
        }
    }
}

impl View for AppDataFromServer {
    type V = AppRecord;

    open spec fn view(&self) -> AppRecord {
        self.deep_view()
    }
}

impl FromJson for AppDataFromServer {
    open spec fn entity() -> Seq<char> {
        "AppData"@
    }

    open spec fn known_fields() -> Seq<Seq<char>> {
        seq!["id"@, "name"@, "callbackUrl"@, "permission"@, "secret"@, "isAuthorized"@]
    }

    open spec fn readable(fields: Seq<(Seq<char>, Json)>, mode: Strictness) -> bool {
        &&& screened(fields, Self::known_fields(), mode) is Ok
        &&& text_at(fields, "id"@) is Ok
        &&& text_at(fields, "name"@) is Ok
        &&& opt_text_at(fields, "callbackUrl"@) is Ok
        &&& text_list_at(fields, "permission"@) is Ok
        &&& opt_text_at(fields, "secret"@) is Ok
        &&& opt_bool_at(fields, "isAuthorized"@) is Ok
    }

    /// The fields are screened first, then read in the order of
    /// `known_fields`; the first failure is the outcome.
    open spec fn of_json(doc: Json, mode: Strictness) -> Result<AppRecord, ErrorView> {
        match doc {
            Json::Object(fields) => {
                let screen = screened(fields, AppDataFromServer::known_fields(), mode);
                let id = text_at(fields, "id"@);
                let name = text_at(fields, "name"@);
                let callback_url = opt_text_at(fields, "callbackUrl"@);
                let permission = text_list_at(fields, "permission"@);
                let secret = opt_text_at(fields, "secret"@);
                let is_authorized = opt_bool_at(fields, "isAuthorized"@);
                if screen is Err {
                    Err(screen->Err_0)
                } else if id is Err {
                    Err(id->Err_0)
                } else if name is Err {
                    Err(name->Err_0)
                } else if callback_url is Err {
                    Err(callback_url->Err_0)
                } else if permission is Err {
                    Err(permission->Err_0)
                } else if secret is Err {
                    Err(secret->Err_0)
                } else if is_authorized is Err {
                    Err(is_authorized->Err_0)
                } else {
                    Ok(
                        AppRecord {
                            id: id->Ok_0,
                            name: name->Ok_0,
                            callback_url: callback_url->Ok_0,
                            permission: permission->Ok_0,
                            secret: secret->Ok_0,
                            is_authorized: is_authorized->Ok_0,
                        },
                    )
                }
            },
            _ => Err(ErrorView::not_an_object()),
        }
    }

    fn entity_name() -> (name: &'static str) {
        "AppData"
    }

    fn from_json(doc: &JsonValue, mode: Strictness) -> (r: Result<AppDataFromServer, Error>) {
        let entries = match doc.as_object() {
            Some(entries) => entries,
            None => { return Err(Error::not_an_object()); },
        };
        let known = vec!["id", "name", "callbackUrl", "permission", "secret", "isAuthorized"];
        assert(known.deep_view() =~= AppDataFromServer::known_fields());
        check_fields(entries, &known, mode)?;
        let id = required_text(entries, "id")?;
        let name = required_text(entries, "name")?;
        let callback_url = optional_text(entries, "callbackUrl")?;
        let permission = required_text_list(entries, "permission")?;
        let secret = optional_text(entries, "secret")?;
        let is_authorized = optional_bool(entries, "isAuthorized")?;
        Ok(AppDataFromServer { id, name, callback_url, permission, secret, is_authorized })
    }

    proof fn lemma_total(doc: Json, mode: Strictness) {
    }

    proof fn lemma_ignores_unknown(
        fields: Seq<(Seq<char>, Json)>,
        at: int,
        key: Seq<char>,
        value: Json,
    ) {
        lemma_insert_unknown(fields, at, key, value, Self::known_fields(), 0);
        lemma_insert_unknown(fields, at, key, value, Self::known_fields(), 1);
        lemma_insert_unknown(fields, at, key, value, Self::known_fields(), 2);
        lemma_insert_unknown(fields, at, key, value, Self::known_fields(), 3);
        lemma_insert_unknown(fields, at, key, value, Self::known_fields(), 4);
        lemma_insert_unknown(fields, at, key, value, Self::known_fields(), 5);
    }

    proof fn lemma_refuses_unknown(
        fields: Seq<(Seq<char>, Json)>,
        at: int,
        key: Seq<char>,
        value: Json,
    ) {
        lemma_screen_refuses(fields, at, key, value, Self::known_fields());
    }
}

impl AppRecord {
    /// The application of the unified model that the record stands for. The
    /// server's id serves as the client id too; the website is absent. A
    /// record without a secret stands for none: that is a parse failure at
    /// `secret`.
    pub open spec fn app_data(self) -> Result<AppDataView, ErrorView> {
        match self.secret {
            Some(secret) => Ok(
                AppDataView {
                    id: self.id,
                    name: self.name,
                    website: None,
                    redirect_uri: self.callback_url,
                    client_id: self.id,
                    client_secret: secret,
                    scopes: self.permission,
                },
            ),
            None => Err(ErrorView::missing("secret"@)),
        }
    }
}

impl AppDataFromServer {
    /// The application of the unified model that the record stands for.
    pub fn into_app_data(self) -> (r: Result<AppData, Error>)
        ensures
            outcome(r) == self@.app_data(),
    {
        match self.secret {
            Some(secret) => {
                let client_id = self.id.clone();
                Ok(
                    AppData::new(
                        self.id,
                        self.name,
                        None,
                        self.callback_url,
                        client_id,
                        secret,
                        self.permission,
                    ),
                )
            },
            None => Err(Error::missing("secret")),
        }
    }
}

/// The answer to a token exchange.
#[derive(Debug, Clone, PartialEq, Eq)]
pub struct TokenDataFromServer {
    pub access_token: String,
}

/// The mathematical value of a [`TokenDataFromServer`].
pub struct TokenRecord {
    pub access_token: Seq<char>,
}

impl DeepView for TokenDataFromServer {
    type V = TokenRecord;

    open spec fn deep_view(&self) -> TokenRecord {
        TokenRecord {
            access_token: self.access_token@,
        }
    }
}

impl View for TokenDataFromServer {
    type V = TokenRecord;

    open spec fn view(&self) -> TokenRecord {
        self.deep_view()
    }
}

impl FromJson for TokenDataFromServer {
    open spec fn entity() -> Seq<char> {
        "TokenData"@
    }

    open spec fn known_fields() -> Seq<Seq<char>> {
        seq!["accessToken"@]
    }

    open spec fn readable(fields: Seq<(Seq<char>, Json)>, mode: Strictness) -> bool {
        &&& screened(fields, Self::known_fields(), mode) is Ok
        &&& text_at(fields, "accessToken"@) is Ok
    }

    /// The fields are screened first, then read in the order of
    /// `known_fields`; the first failure is the outcome.
    open spec fn of_json(doc: Json, mode: Strictness) -> Result<TokenRecord, ErrorView> {
        match doc {
            Json::Object(fields) => {
                let screen = screened(fields, TokenDataFromServer::known_fields(), mode);
                let access_token = text_at(fields, "accessToken"@);
                if screen is Err {
                    Err(screen->Err_0)
                } else if access_token is Err {
                    Err(access_token->Err_0)
                } else {
                    Ok(
                        TokenRecord {
                            access_token: access_token->Ok_0,
                        },
                    )
                }
            },
            _ => Err(ErrorView::not_an_object()),
        }
    }

    fn entity_name() -> (name: &'static str) {
        "TokenData"
    }

    fn from_json(doc: &JsonValue, mode: Strictness) -> (r: Result<TokenDataFromServer, Error>) {
        let entries = match doc.as_object() {
            Some(entries) => entries,
            None => { return Err(Error::not_an_object()); },
        };
        let known = vec!["accessToken"];
        assert(known.deep_view() =~= TokenDataFromServer::known_fields());
        check_fields(entries, &known, mode)?;
        let access_token = required_text(entries, "accessToken")?;
        Ok(TokenDataFromServer { access_token })
    }

    proof fn lemma_total(doc: Json, mode: Strictness) {
    }

    proof fn lemma_ignores_unknown(
        fields: Seq<(Seq<char>, Json)>,
        at: int,
        key: Seq<char>,
        value: Json,
    ) {
        lemma_insert_unknown(fields, at, key, value, Self::known_fields(), 0);
    }

    proof fn lemma_refuses_unknown(
        fields: Seq<(Seq<char>, Json)>,
        at: int,
        key: Seq<char>,
        value: Json,
    ) {
        lemma_screen_refuses(fields, at, key, value, Self::known_fields());
    }
}

impl TokenRecord {
    /// The token of the unified model that the record stands for: the access
    /// token as it came, the flavor's name as the token type, all else
    /// absent.
    pub open spec fn token_data(self) -> TokenDataView {
        TokenDataView {
            access_token: self.access_token,
            token_type: Flavor::Firefish.display_name(),
            scope: None,
            created_at: None,
            expires_in: None,
            refresh_token: None,
        }
    }
}

impl TokenDataFromServer {
    /// The token of the unified model that the record stands for.
    pub fn into_token_data(self) -> (token: TokenData)
        ensures
            token@ == self@.token_data(),
    {
        TokenData::new(self.access_token, Flavor::Firefish.name(), None, None, None, None)
    }
}

} // verus!
