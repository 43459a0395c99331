use megalodon::entities::account::{Account, Emoji, Field};
use megalodon::entities::notification::{Notification, NotificationType};
use megalodon::entities::status::{
    Attachment, MediaType, Mention, Reaction, Status, StatusVisibility, Tag,
};
use megalodon::error::Kind;
use megalodon::json::JsonValue;
use megalodon::pleroma::decoder::Decoder;
use megalodon::pleroma::entities::notification as wire;
use megalodon::record::{FromJson, ToUnified};
use megalodon::strictness::Strictness;
use megalodon::time::Timestamp;
use megalodon::warning::Warning;

const ACCOUNT: &str = r#"{"id":"A1","username":"alice","acct":"alice@example.social","display_name":"Alice \t","note":"<p>hi</p>","avatar":"https://example.social/a.png","header":"https://example.social/h.png","url":"https://example.social/@alice","followers_count":10,"following_count":-3,"statuses_count":42,"created_at":"2023-01-02T03:04:05.000Z","bot":false,"locked":true,"fields":[{"name":"site","value":"https://alice.example","verified_at":"2023-02-03T04:05:06+09:00"},{"name":"pronouns","value":"she","verified_at":null}],"emojis":[{"shortcode":"blob","url":"https://e/b.png","static_url":"https://e/bs.png","visible_in_picker":true}]}"#;

fn status_json(reblog: &str) -> String {
    format!(
        r#"{{"id":"S1","uri":"https://example.social/objects/1","url":null,"account":{ACCOUNT},"content":"<p>hello</p>","created_at":"2024-05-06T07:08:09-08:00","edited_at":null,"in_reply_to_id":"S0","reblog":{reblog},"media_attachments":[{{"id":"M1","type":"image","url":"https://e/m.png","preview_url":null,"description":"a cat"}},{{"id":"M2","type":"model","url":"https://e/m.glb"}}],"mentions":[{{"id":"A2","username":"bob","url":"https://e/@bob","acct":"bob"}}],"tags":[{{"name":"cats","url":"https://e/tags/cats"}}],"emojis":[],"visibility":"unlisted","favourites_count":2,"reblogs_count":0,"replies_count":-1,"sensitive":false,"spoiler_text":"","language":"en","application":{{"name":"Web","website":null}},"pleroma":{{"content":{{"text/plain":"hello"}},"emoji_reactions":[{{"name":"👍","count":3,"me":true}},{{"name":"🎉","count":-2,"me":false}}]}}}}"#
    )
}

fn notification_json(kind: &str) -> String {
    format!(
        r#"{{"id":"N1","type":"{kind}","created_at":"2024-05-06T07:08:09Z","account":{ACCOUNT},"status":{},"emoji":"👍"}}"#,
        status_json("null")
    )
}

fn alice() -> Account {
    Account {
        id: "A1".to_string(),
        username: "alice".to_string(),
        acct: "alice@example.social".to_string(),
        display_name: "Alice".to_string(),
        note: "<p>hi</p>".to_string(),
        avatar: "https://example.social/a.png".to_string(),
        header: "https://example.social/h.png".to_string(),
        url: "https://example.social/@alice".to_string(),
        followers_count: 10,
        following_count: 0,
        statuses_count: 42,
        created_at: Timestamp { secs: 1672628645, nanos: 0 },
        bot: false,
        locked: true,
        fields: vec![
            Field {
                name: "site".to_string(),
                value: "https://alice.example".to_string(),
                verified_at: Some(Timestamp { secs: 1675364706, nanos: 0 }),
            },
            Field { name: "pronouns".to_string(), value: "she".to_string(), verified_at: None },
        ],
        emojis: vec![Emoji {
            shortcode: "blob".to_string(),
            url: "https://e/b.png".to_string(),
            static_url: "https://e/bs.png".to_string(),
            visible_in_picker: true,
        }],
    }
}

fn hello(reblog: Option<Box<Status>>) -> Status {
    Status {
        id: "S1".to_string(),
        uri: "https://example.social/objects/1".to_string(),
        url: None,
        account: alice(),
        content: "<p>hello</p>".to_string(),
        plain_content: Some("hello".to_string()),
        created_at: Timestamp { secs: 1715008089, nanos: 0 },
        edited_at: None,
        in_reply_to_id: Some("S0".to_string()),
        reblog,
        media_attachments: vec![
            Attachment {
                id: "M1".to_string(),
                media_type: MediaType::Image,
                url: "https://e/m.png".to_string(),
                preview_url: None,
                description: Some("a cat".to_string()),
            },
            Attachment {
                id: "M2".to_string(),
                media_type: MediaType::Unknown("model".to_string()),
                url: "https://e/m.glb".to_string(),
                preview_url: None,
                description: None,
            },
        ],
        mentions: vec![Mention {
            id: "A2".to_string(),
            username: "bob".to_string(),
            url: "https://e/@bob".to_string(),
            acct: "bob".to_string(),
        }],
        tags: vec![Tag { name: "cats".to_string(), url: "https://e/tags/cats".to_string() }],
        emojis: vec![],
        emoji_reactions: vec![
            Reaction { name: "👍".to_string(), count: 3, me: true },
            Reaction { name: "🎉".to_string(), count: 0, me: false },
        ],
        visibility: StatusVisibility::Unlisted,
        favourites_count: 2,
        reblogs_count: 0,
        replies_count: 0,
        sensitive: false,
        spoiler_text: Some("".to_string()),
        language: Some("en".to_string()),
        application: Some("Web".to_string()),
    }
}

fn warning(field: &str, value: i64) -> Warning {
    Warning { field: field.to_string(), value }
}

#[test]
fn pleroma_notification_emoji_reaction() {
    let body = notification_json("pleroma:emoji_reaction");
    let n = Decoder::default().notification(body.as_bytes()).unwrap();
    assert_eq!(n.notification_type, NotificationType::EmojiReaction);
    assert_eq!(n.emoji, Some("👍".to_string()));
    assert_eq!(n.status, Some(hello(None)));
    assert_eq!(n.target, None);
    assert_eq!(
        n,
        Notification {
            id: "N1".to_string(),
            created_at: Timestamp { secs: 1714979289, nanos: 0 },
            notification_type: NotificationType::EmojiReaction,
            account: alice(),
            status: Some(hello(None)),
            target: None,
            emoji: Some("👍".to_string()),
        }
    );
}

#[test]
fn pleroma_notification_poll() {
    let body = notification_json("poll").replace(r#""type":"model""#, r#""type":"video""#);
    let n = Decoder::default().notification(body.as_bytes()).unwrap();
    assert_eq!(n.notification_type, NotificationType::PollExpired);
    let strict = Decoder::new(Strictness::Strict).notification(body.as_bytes()).unwrap();
    assert_eq!(strict, n);
}

#[test]
fn unknown_notification_type_lenient() {
    let body = notification_json("admin.sign_up").replace(r#""type":"model""#, r#""type":"gifv""#);
    let n = Decoder::default().notification(body.as_bytes()).unwrap();
    assert_eq!(n.notification_type, NotificationType::Unknown("admin.sign_up".to_string()));
    let e = Decoder::new(Strictness::Strict).notification(body.as_bytes()).unwrap_err();
    assert_eq!(e.kind, Kind::UnknownVariantError);
    assert_eq!(e.fragment, Some("admin.sign_up".to_string()));
    assert_eq!(e.field, Some("type".to_string()));
    assert_eq!(e.entity, Some("Notification".to_string()));
}

#[test]
fn pleroma_notification_warnings_come_in_order() {
    let body = notification_json("mention");
    let mut sink = vec![warning("earlier", -9)];
    let n = Decoder::default().notification_with_warnings(body.as_bytes(), &mut sink).unwrap();
    assert_eq!(n.account.following_count, 0);
    assert_eq!(
        sink,
        vec![
            warning("earlier", -9),
            warning("following_count", -3),
            warning("following_count", -3),
            warning("replies_count", -1),
            warning("count", -2),
        ]
    );
    let quiet = Decoder::default().notification(body.as_bytes()).unwrap();
    assert_eq!(quiet, n);
}

#[test]
fn pleroma_notification_failure_leaves_the_sink() {
    let mut sink = vec![warning("earlier", -9)];
    let e = Decoder::default().notification_with_warnings(b"{\"id\":", &mut sink).unwrap_err();
    assert_eq!((e.kind, e.field, e.entity.as_deref()), (Kind::ParseError, None, Some("Notification")));
    assert_eq!(sink, vec![warning("earlier", -9)]);
    let body = notification_json("mention").replace(r#""id":"N1","#, "");
    let e = Decoder::default().notification_with_warnings(body.as_bytes(), &mut sink).unwrap_err();
    assert_eq!((e.field.as_deref(), e.message.as_str()), (Some("id"), "missing field"));
    assert_eq!(sink, vec![warning("earlier", -9)]);
}

#[test]
fn pleroma_notification_nested_failure_names_the_inner_entity() {
    let body = notification_json("mention").replace(r#""acct":"alice@example.social","#, "");
    let e = Decoder::default().notification(body.as_bytes()).unwrap_err();
    assert_eq!(e.kind, Kind::ParseError);
    assert_eq!(e.field, Some("acct".to_string()));
    assert_eq!(e.entity, Some("Account".to_string()));
    let body = notification_json("mention").replace(r#""me":true"#, r#""me":"yes""#);
    let e = Decoder::default().notification(body.as_bytes()).unwrap_err();
    assert_eq!((e.field.as_deref(), e.entity.as_deref()), (Some("me"), Some("Reaction")));
    assert_eq!(e.message, "wrong JSON type");
}

#[test]
fn pleroma_notification_bad_timestamp() {
    let body = notification_json("mention").replace("2024-05-06T07:08:09Z", "yesterday");
    let e = Decoder::default().notification(body.as_bytes()).unwrap_err();
    assert_eq!(e.kind, Kind::ParseError);
    assert_eq!(e.field, Some("created_at".to_string()));
    assert_eq!(e.fragment, Some("yesterday".to_string()));
    assert_eq!(e.message, "unreadable timestamp");
}

#[test]
fn pleroma_status_with_reblog() {
    let inner = status_json("null");
    let body = status_json(&inner);
    let mut sink = Vec::new();
    let s = Decoder::default().status_with_warnings(body.as_bytes(), &mut sink).unwrap();
    assert_eq!(s, hello(Some(Box::new(hello(None)))));
    assert_eq!(
        sink,
        vec![
            warning("following_count", -3),
            warning("following_count", -3),
            warning("replies_count", -1),
            warning("count", -2),
            warning("replies_count", -1),
            warning("count", -2),
        ]
    );
    assert_eq!(s.clone(), s);
}

#[test]
fn pleroma_status_optional_fields() {
    let body = status_json("null")
        .replace(r#""spoiler_text":"","#, "")
        .replace(r#","pleroma":{"content":{"text/plain":"hello"},"emoji_reactions":[{"name":"👍","count":3,"me":true},{"name":"🎉","count":-2,"me":false}]}"#, "")
        .replace(r#""application":{"name":"Web","website":null}"#, r#""application":null"#);
    let s = Decoder::default().status(body.as_bytes()).unwrap();
    assert_eq!(s.spoiler_text, None);
    assert_eq!(s.plain_content, None);
    assert_eq!(s.emoji_reactions, vec![]);
    assert_eq!(s.application, None);
}

#[test]
fn pleroma_status_strict_mode() {
    let body = status_json("null");
    let e = Decoder::new(Strictness::Strict).status(body.as_bytes()).unwrap_err();
    assert_eq!(e.kind, Kind::UnknownVariantError);
    assert_eq!(e.fragment, Some("model".to_string()));
    assert_eq!((e.field.as_deref(), e.entity.as_deref()), (Some("type"), Some("Attachment")));
    let known = body.replace(r#""type":"model""#, r#""type":"audio""#);
    let s = Decoder::new(Strictness::Strict).status(known.as_bytes()).unwrap();
    assert_eq!(s.media_attachments[1].media_type, MediaType::Audio);
    let extra = known.replace(r#""sensitive":false"#, r#""sensitive":false,"pinned":true"#);
    let e = Decoder::new(Strictness::Strict).status(extra.as_bytes()).unwrap_err();
    assert_eq!((e.kind, e.field.as_deref(), e.message.as_str()), (Kind::ParseError, Some("pinned"), "unknown field"));
    assert_eq!(Decoder::default().status(extra.as_bytes()).unwrap(), Decoder::default().status(known.as_bytes()).unwrap());
    let private = known.replace(r#""visibility":"unlisted""#, r#""visibility":"local""#);
    let e = Decoder::new(Strictness::Strict).status(private.as_bytes()).unwrap_err();
    assert_eq!((e.kind, e.field.as_deref()), (Kind::UnknownVariantError, Some("visibility")));
    let s = Decoder::default().status(private.as_bytes()).unwrap();
    assert_eq!(s.visibility, StatusVisibility::Unknown("local".to_string()));
}

#[test]
fn pleroma_account_alone() {
    let mut sink = Vec::new();
    let a = Decoder::default().account_with_warnings(ACCOUNT.as_bytes(), &mut sink).unwrap();
    assert_eq!(a, alice());
    assert_eq!(sink, vec![warning("following_count", -3)]);
    assert_eq!(Decoder::new(Strictness::Strict).account(ACCOUNT.as_bytes()).unwrap(), alice());
    let e = Decoder::default().account(b"[]").unwrap_err();
    assert_eq!((e.kind, e.message.as_str(), e.entity.as_deref()), (Kind::ParseError, "expected a JSON object", Some("Account")));
    let float = ACCOUNT.replace(r#""statuses_count":42"#, r#""statuses_count":42.5"#);
    let e = Decoder::default().account(float.as_bytes()).unwrap_err();
    assert_eq!((e.field.as_deref(), e.message.as_str()), (Some("statuses_count"), "wrong JSON type"));
}

#[test]
fn pleroma_documents_decode_as_their_texts_do() {
    let d = Decoder::new(Strictness::Lenient);
    let body = notification_json("follow");
    let doc = JsonValue::parse(body.as_bytes()).unwrap();
    let mut from_doc = Vec::new();
    let mut from_text = Vec::new();
    assert_eq!(
        d.notification_from_json(&doc, &mut from_doc),
        d.notification_with_warnings(body.as_bytes(), &mut from_text)
    );
    assert_eq!(from_doc, from_text);
    let status = JsonValue::parse(status_json("null").as_bytes()).unwrap();
    let mut sink = Vec::new();
    assert_eq!(d.status_from_json(&status, &mut sink), Ok(hello(None)));
    assert_eq!(sink.len(), 3);
    let account = JsonValue::parse(ACCOUNT.as_bytes()).unwrap();
    let mut sink = Vec::new();
    assert_eq!(d.account_from_json(&account, &mut sink), Ok(alice()));
    assert_eq!(sink, vec![warning("following_count", -3)]);
    let e = d.account_from_json(&status, &mut sink).unwrap_err();
    assert_eq!((e.field.as_deref(), e.entity.as_deref()), (Some("username"), Some("Account")));
    assert_eq!(sink, vec![warning("following_count", -3)]);
}

#[test]
fn pleroma_wire_record_keeps_what_came() {
    let body = notification_json("pleroma:emoji_reaction");
    let doc = JsonValue::parse(body.as_bytes()).unwrap();
    let record = wire::Notification::from_json(&doc, Strictness::Lenient).unwrap();
    assert_eq!(record.notification_type, wire::NotificationType::PleromaEmojiReaction);
    assert_eq!(record.account.display_name, "Alice \t");
    assert_eq!(record.account.following_count, -3);
    assert_eq!(record.target, None);
    let mut sink = Vec::new();
    let unified = record.to_unified(&mut sink);
    assert_eq!(unified.account.display_name, "Alice");
    assert_eq!(sink.len(), 4);
}
