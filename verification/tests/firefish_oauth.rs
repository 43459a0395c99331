use megalodon::error::Kind;
use megalodon::firefish::decoder::Decoder;
use megalodon::firefish::oauth::{AppDataFromServer, TokenDataFromServer};
use megalodon::record::FromJson;
use megalodon::json::JsonValue;
use megalodon::oauth::{AppData, TokenData};
use megalodon::strictness::Strictness;

const REGISTRATION: &str = r#"{"id":"9abc","name":"ExampleClient","callbackUrl":"https://app.example/cb","permission":["read:account"],"secret":"s3cret","isAuthorized":false}"#;

const REGISTRATION_WITHOUT_SECRET: &str = r#"{"id":"9abc","name":"ExampleClient","callbackUrl":"https://app.example/cb","permission":["read:account"],"isAuthorized":false}"#;

#[test]
fn firefish_app_registration() {
    let app = Decoder::default().app_data(REGISTRATION.as_bytes()).unwrap();
    assert_eq!(
        app,
        AppData {
            id: "9abc".to_string(),
            name: "ExampleClient".to_string(),
            website: None,
            redirect_uri: Some("https://app.example/cb".to_string()),
            client_id: "9abc".to_string(),
            client_secret: "s3cret".to_string(),
            scopes: vec!["read:account".to_string()],
        }
    );
    let strict = Decoder::new(Strictness::Strict).app_data(REGISTRATION.as_bytes()).unwrap();
    assert_eq!(strict, app);
}

#[test]
fn firefish_app_registration_missing_secret() {
    let e = Decoder::default().app_data(REGISTRATION_WITHOUT_SECRET.as_bytes()).unwrap_err();
    assert_eq!(e.kind, Kind::ParseError);
    assert_eq!(e.field, Some("secret".to_string()));
    assert_eq!(e.message, "missing field");
    assert_eq!(e.entity, Some("AppData".to_string()));
    assert_eq!(e.fragment, None);
}

#[test]
fn firefish_app_registration_null_secret_is_missing_too() {
    let body = r#"{"id":"9abc","name":"n","permission":[],"secret":null}"#;
    let record = AppDataFromServer::from_json(&JsonValue::parse(body.as_bytes()).unwrap(), Strictness::Strict).unwrap();
    assert_eq!(record.secret, None);
    assert_eq!(record.callback_url, None);
    assert_eq!(record.is_authorized, None);
    let e = record.into_app_data().unwrap_err();
    assert_eq!(e.kind, Kind::ParseError);
    assert_eq!(e.field, Some("secret".to_string()));
}

#[test]
fn firefish_app_registration_required_fields() {
    let d = Decoder::default();
    let e = d.app_data(br#"{"name":"n","permission":[],"secret":"s"}"#).unwrap_err();
    assert_eq!((e.kind, e.field.as_deref(), e.message.as_str()), (Kind::ParseError, Some("id"), "missing field"));
    let e = d.app_data(br#"{"id":"1","name":null,"permission":[],"secret":"s"}"#).unwrap_err();
    assert_eq!((e.field.as_deref(), e.message.as_str()), (Some("name"), "null in required field"));
    let e = d.app_data(br#"{"id":"1","name":"n","permission":["a", 2],"secret":"s"}"#).unwrap_err();
    assert_eq!((e.field.as_deref(), e.message.as_str()), (Some("permission"), "wrong JSON type"));
    let e = d.app_data(br#"{"id":1,"name":"n","permission":[],"secret":"s"}"#).unwrap_err();
    assert_eq!((e.field.as_deref(), e.message.as_str()), (Some("id"), "wrong JSON type"));
    let e = d.app_data(br#"{"id":"1","name":"n","permission":[],"secret":"s","isAuthorized":"no"}"#).unwrap_err();
    assert_eq!((e.field.as_deref(), e.message.as_str()), (Some("isAuthorized"), "wrong JSON type"));
    let e = d.app_data(br#"["id"]"#).unwrap_err();
    assert_eq!((e.kind, e.field.as_deref(), e.message.as_str()), (Kind::ParseError, None, "expected a JSON object"));
    let e = d.app_data(br#"{"id":"1","#).unwrap_err();
    assert_eq!((e.kind, e.field, e.fragment, e.entity.as_deref()), (Kind::ParseError, None, None, Some("AppData")));
}

#[test]
fn firefish_app_registration_unknown_casing() {
    let body = r#"{"id":"9abc","name":"n","callback_url":"https://app.example/cb","permission":[],"secret":"s"}"#;
    let lenient = Decoder::default().app_data(body.as_bytes()).unwrap();
    assert_eq!(lenient.redirect_uri, None);
    let e = Decoder::new(Strictness::Strict).app_data(body.as_bytes()).unwrap_err();
    assert_eq!(e.kind, Kind::ParseError);
    assert_eq!(e.field, Some("callback_url".to_string()));
    assert_eq!(e.message, "unknown field");
}

#[test]
fn firefish_unknown_field_changes_nothing_in_lenient_mode() {
    let with_extra = r#"{"extra":{"a":[1,2]},"id":"9abc","name":"ExampleClient","callbackUrl":"https://app.example/cb","permission":["read:account"],"secret":"s3cret","isAuthorized":false,"zzz":1}"#;
    let d = Decoder::default();
    assert_eq!(d.app_data(with_extra.as_bytes()), d.app_data(REGISTRATION.as_bytes()));
    assert_eq!(
        d.token_data(br#"{"accessToken":"t","more":true}"#),
        d.token_data(br#"{"accessToken":"t"}"#)
    );
}

#[test]
fn firefish_token_exchange() {
    let token = Decoder::default().token_data(br#"{"accessToken":"aaaa.bbbb.cccc"}"#).unwrap();
    assert_eq!(
        token,
        TokenData {
            access_token: "aaaa.bbbb.cccc".to_string(),
            token_type: "Firefish".to_string(),
            scope: None,
            created_at: None,
            expires_in: None,
            refresh_token: None,
        }
    );
}

#[test]
fn firefish_token_exchange_failures() {
    let d = Decoder::new(Strictness::Strict);
    let e = d.token_data(br#"{"access_token":"t"}"#).unwrap_err();
    assert_eq!((e.field.as_deref(), e.message.as_str(), e.entity.as_deref()), (Some("access_token"), "unknown field", Some("TokenData")));
    let e = Decoder::default().token_data(br#"{"access_token":"t"}"#).unwrap_err();
    assert_eq!((e.field.as_deref(), e.message.as_str()), (Some("accessToken"), "missing field"));
    let record = TokenDataFromServer { access_token: "x".to_string() };
    assert_eq!(record.into_token_data().token_type, "Firefish");
}
