use megalodon::entities::account::Account;
use megalodon::entities::identity_proof::IdentityProof;
use megalodon::entities::notification::{Notification, NotificationType};
use megalodon::entities::status::{Status, StatusVisibility};
use megalodon::error::Kind;
use megalodon::json::JsonValue;
use megalodon::pleroma::decoder::Decoder;
use megalodon::strictness::Strictness;
use megalodon::time::Timestamp;

const PROOF: &str = r#"{"provider":"keybase","provider_username":"alice","updated_at":"2023-01-02T12:04:05.5+09:00","proof_url":"https://keybase.io/alice/sigchain#1","profile_url":"https://keybase.io/alice"}"#;

fn expected() -> IdentityProof {
    IdentityProof {
        provider: "keybase".to_string(),
        provider_username: "alice".to_string(),
        updated_at: Timestamp { secs: 1672628645, nanos: 500_000_000 },
        proof_url: "https://keybase.io/alice/sigchain#1".to_string(),
        profile_url: "https://keybase.io/alice".to_string(),
    }
}

#[test]
fn identity_proof_is_decoded() {
    assert_eq!(Decoder::default().identity_proof(PROOF.as_bytes()), Ok(expected()));
    assert_eq!(Decoder::new(Strictness::Strict).identity_proof(PROOF.as_bytes()), Ok(expected()));
    let doc = JsonValue::parse(PROOF.as_bytes()).unwrap();
    assert_eq!(Decoder::default().identity_proof_from_json(&doc), Ok(expected()));
}

#[test]
fn identity_proof_failures() {
    let extra = PROOF.replace(r#"{"provider""#, r#"{"verified":true,"provider""#);
    assert_eq!(Decoder::default().identity_proof(extra.as_bytes()), Ok(expected()));
    let e = Decoder::new(Strictness::Strict).identity_proof(extra.as_bytes()).unwrap_err();
    assert_eq!((e.kind, e.field.as_deref(), e.message.as_str()), (Kind::ParseError, Some("verified"), "unknown field"));
    assert_eq!(e.entity, Some("IdentityProof".to_string()));
    let e = Decoder::default().identity_proof(PROOF.replace("2023-01-02T12:04:05.5+09:00", "2023-01-02").as_bytes()).unwrap_err();
    assert_eq!((e.field.as_deref(), e.fragment.as_deref()), (Some("updated_at"), Some("2023-01-02")));
    let e = Decoder::default().identity_proof(b"nonsense").unwrap_err();
    assert_eq!((e.kind, e.field, e.entity.as_deref()), (Kind::ParseError, None, Some("IdentityProof")));
}

#[test]
fn millis_of_an_instant() {
    assert_eq!(expected().updated_at.to_millis(), Some(1672628645500));
    assert_eq!(Timestamp { secs: -1, nanos: 999_999_999 }.to_millis(), Some(-1));
    assert_eq!(Timestamp { secs: 0, nanos: 1_999_999_999 }.to_millis(), Some(1999));
    assert_eq!(Timestamp { secs: i64::MAX, nanos: 0 }.to_millis(), None);
    assert_eq!(Timestamp { secs: i64::MIN, nanos: 0 }.to_millis(), None);
    assert_eq!(Timestamp { secs: 9_223_372_036_854_775, nanos: 807_999_999 }.to_millis(), Some(i64::MAX));
    assert_eq!(Timestamp { secs: 9_223_372_036_854_775, nanos: 808_000_000 }.to_millis(), None);
    assert_eq!(Timestamp { secs: -9_223_372_036_854_776, nanos: 192_000_000 }.to_millis(), Some(i64::MIN));
    assert_eq!(Timestamp { secs: -9_223_372_036_854_776, nanos: 191_999_999 }.to_millis(), None);
    for millis in [0i64, 1, -1, 999, -1000, -1001, 1672628645500, i64::MAX, i64::MIN] {
        assert_eq!(Timestamp::from_millis(millis).to_millis(), Some(millis));
    }
}

fn someone() -> Account {
    Account::new(
        "A1".to_string(),
        "alice".to_string(),
        "alice@example.social".to_string(),
        "Alice".to_string(),
        "".to_string(),
        "https://e/a.png".to_string(),
        "https://e/h.png".to_string(),
        "https://e/@alice".to_string(),
        1,
        2,
        3,
        Timestamp::from_seconds(10),
        true,
        false,
        vec![],
        vec![],
    )
}

#[test]
fn entities_made_by_hand() {
    let a = someone();
    assert_eq!((a.id.as_str(), a.username.as_str(), a.acct.as_str()), ("A1", "alice", "alice@example.social"));
    assert_eq!((a.display_name.as_str(), a.note.as_str(), a.url.as_str()), ("Alice", "", "https://e/@alice"));
    assert_eq!((a.avatar.as_str(), a.header.as_str()), ("https://e/a.png", "https://e/h.png"));
    assert_eq!((a.followers_count, a.following_count, a.statuses_count), (1, 2, 3));
    assert_eq!((a.created_at, a.bot, a.locked), (Timestamp { secs: 10, nanos: 0 }, true, false));
    assert!(a.fields.is_empty() && a.emojis.is_empty());

    let s = Status::new(
        "S1".to_string(),
        "https://e/1".to_string(),
        someone(),
        "<p>x</p>".to_string(),
        Timestamp::from_seconds(11),
        StatusVisibility::Direct,
    );
    assert_eq!((s.id.as_str(), s.uri.as_str(), s.content.as_str()), ("S1", "https://e/1", "<p>x</p>"));
    assert_eq!((s.created_at, &s.visibility, &s.account), (Timestamp { secs: 11, nanos: 0 }, &StatusVisibility::Direct, &someone()));
    assert_eq!((s.url.clone(), s.plain_content.clone(), s.edited_at, s.in_reply_to_id.clone()), (None, None, None, None));
    assert_eq!((s.spoiler_text.clone(), s.language.clone(), s.application.clone(), s.reblog.clone()), (None, None, None, None));
    assert!(s.media_attachments.is_empty() && s.mentions.is_empty() && s.tags.is_empty());
    assert!(s.emojis.is_empty() && s.emoji_reactions.is_empty());
    assert_eq!((s.favourites_count, s.reblogs_count, s.replies_count, s.sensitive), (0, 0, 0, false));

    let n = Notification::new("N1".to_string(), Timestamp::from_seconds(12), NotificationType::Move, someone());
    assert_eq!((n.id.as_str(), n.created_at, &n.notification_type), ("N1", Timestamp { secs: 12, nanos: 0 }, &NotificationType::Move));
    assert_eq!((&n.account, &n.status, &n.target, &n.emoji), (&someone(), &None, &None, &None));
}
