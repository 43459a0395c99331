use megalodon::entities::notification::NotificationType;
use megalodon::error::Kind;
use megalodon::flavor::Flavor;
use megalodon::json::JsonValue;
use megalodon::pleroma::entities::notification as wire;
use megalodon::strictness::Strictness;

fn table(flavor: Flavor) -> Vec<(NotificationType, Option<&'static str>)> {
    match flavor {
        Flavor::Mastodon => vec![
            (NotificationType::Follow, Some("follow")),
            (NotificationType::FollowRequest, Some("follow_request")),
            (NotificationType::Mention, Some("mention")),
            (NotificationType::Reblog, Some("reblog")),
            (NotificationType::Favourite, Some("favourite")),
            (NotificationType::PollVote, Some("poll")),
            (NotificationType::PollExpired, Some("poll")),
            (NotificationType::EmojiReaction, None),
            (NotificationType::Status, Some("status")),
            (NotificationType::Update, Some("update")),
            (NotificationType::Move, Some("move")),
            (NotificationType::AdminSignup, Some("admin.sign_up")),
            (NotificationType::AdminReport, Some("admin.report")),
        ],
        Flavor::Pleroma => vec![
            (NotificationType::Follow, Some("follow")),
            (NotificationType::FollowRequest, Some("follow_request")),
            (NotificationType::Mention, Some("mention")),
            (NotificationType::Reblog, Some("reblog")),
            (NotificationType::Favourite, Some("favourite")),
            (NotificationType::PollVote, None),
            (NotificationType::PollExpired, Some("poll")),
            (NotificationType::EmojiReaction, Some("pleroma:emoji_reaction")),
            (NotificationType::Status, None),
            (NotificationType::Update, Some("update")),
            (NotificationType::Move, Some("move")),
            (NotificationType::AdminSignup, None),
            (NotificationType::AdminReport, None),
        ],
        Flavor::Firefish => vec![
            (NotificationType::Follow, Some("follow")),
            (NotificationType::FollowRequest, Some("receiveFollowRequest")),
            (NotificationType::Mention, Some("mention")),
            (NotificationType::Reblog, Some("renote")),
            (NotificationType::Favourite, Some("favourite")),
            (NotificationType::PollVote, Some("pollVote")),
            (NotificationType::PollExpired, Some("pollEnded")),
            (NotificationType::EmojiReaction, Some("reaction")),
            (NotificationType::Status, None),
            (NotificationType::Update, None),
            (NotificationType::Move, None),
            (NotificationType::AdminSignup, None),
            (NotificationType::AdminReport, None),
        ],
    }
}

#[test]
fn every_type_has_the_spelling_of_the_table() {
    for flavor in [Flavor::Mastodon, Flavor::Pleroma, Flavor::Firefish] {
        for (kind, spelling) in table(flavor) {
            assert_eq!(kind.wire_name(flavor), spelling.map(|s| s.to_string()), "{:?} {:?}", flavor, kind);
        }
    }
}

#[test]
fn reading_a_canonical_spelling_gives_the_type_back() {
    for flavor in [Flavor::Mastodon, Flavor::Pleroma, Flavor::Firefish] {
        for (kind, spelling) in table(flavor) {
            let Some(spelling) = spelling else { continue };
            if flavor == Flavor::Mastodon && kind == NotificationType::PollVote {
                continue;
            }
            for mode in [Strictness::Lenient, Strictness::Strict] {
                assert_eq!(NotificationType::from_wire(flavor, spelling, mode).unwrap(), kind);
            }
        }
    }
}

#[test]
fn mastodon_poll_is_a_poll_that_ended() {
    assert_eq!(
        NotificationType::from_wire(Flavor::Mastodon, "poll", Strictness::Strict).unwrap(),
        NotificationType::PollExpired
    );
}

#[test]
fn firefish_reply_is_a_mention() {
    assert_eq!(
        NotificationType::from_wire(Flavor::Firefish, "reply", Strictness::Strict).unwrap(),
        NotificationType::Mention
    );
    assert_eq!(NotificationType::Mention.wire_name(Flavor::Firefish), Some("mention".to_string()));
}

#[test]
fn a_spelling_of_another_flavor_is_unknown() {
    for (flavor, spelling) in [
        (Flavor::Pleroma, "admin.sign_up"),
        (Flavor::Pleroma, "status"),
        (Flavor::Mastodon, "pleroma:emoji_reaction"),
        (Flavor::Mastodon, "renote"),
        (Flavor::Firefish, "reblog"),
        (Flavor::Firefish, "poll"),
        (Flavor::Firefish, ""),
        (Flavor::Mastodon, "Follow"),
    ] {
        assert_eq!(
            NotificationType::from_wire(flavor, spelling, Strictness::Lenient).unwrap(),
            NotificationType::Unknown(spelling.to_string())
        );
        let e = NotificationType::from_wire(flavor, spelling, Strictness::Strict).unwrap_err();
        assert_eq!(e.kind, Kind::UnknownVariantError);
        assert_eq!(e.fragment, Some(spelling.to_string()));
        assert_eq!(e.message, "unknown variant");
        assert_eq!(e.field, None);
        assert_eq!(e.entity, None);
    }
}

#[test]
fn an_unknown_type_is_spelled_as_it_came() {
    let kind = NotificationType::Unknown("chat_mention".to_string());
    for flavor in [Flavor::Mastodon, Flavor::Pleroma, Flavor::Firefish] {
        assert_eq!(kind.wire_name(flavor), Some("chat_mention".to_string()));
    }
    assert_eq!(kind.clone(), kind);
}

fn pleroma_table() -> Vec<(wire::NotificationType, &'static str, NotificationType)> {
    vec![
        (wire::NotificationType::Follow, "follow", NotificationType::Follow),
        (wire::NotificationType::FollowRequest, "follow_request", NotificationType::FollowRequest),
        (wire::NotificationType::Mention, "mention", NotificationType::Mention),
        (wire::NotificationType::Reblog, "reblog", NotificationType::Reblog),
        (wire::NotificationType::Favourite, "favourite", NotificationType::Favourite),
        (wire::NotificationType::Poll, "poll", NotificationType::PollExpired),
        (
            wire::NotificationType::PleromaEmojiReaction,
            "pleroma:emoji_reaction",
            NotificationType::EmojiReaction,
        ),
        (wire::NotificationType::Update, "update", NotificationType::Update),
        (wire::NotificationType::Move, "move", NotificationType::Move),
    ]
}

#[test]
fn pleroma_type_round_trip() {
    for (kind, spelling, unified) in pleroma_table() {
        assert_eq!(kind.to_string(), spelling);
        assert_eq!(wire::NotificationType::from_str(spelling).unwrap(), kind);
        assert_eq!(wire::NotificationType::decode(spelling, Strictness::Lenient).unwrap(), kind);
        assert_eq!(kind.to_json(), JsonValue::Text(spelling.to_string()));
        assert_eq!(wire::NotificationType::from_json(&kind.to_json(), Strictness::Strict).unwrap(), kind);
        assert_eq!(unified.wire_name(Flavor::Pleroma), Some(spelling.to_string()));
        let projected: NotificationType = kind.into();
        assert_eq!(projected, unified);
    }
}

#[test]
fn pleroma_type_unknown_spelling() {
    let e = wire::NotificationType::from_str("admin.sign_up").unwrap_err();
    assert_eq!(e.kind, Kind::UnknownVariantError);
    assert_eq!(e.fragment, Some("admin.sign_up".to_string()));
    let kept = wire::NotificationType::decode("admin.sign_up", Strictness::Lenient).unwrap();
    assert_eq!(kept, wire::NotificationType::Unknown("admin.sign_up".to_string()));
    assert_eq!(kept.to_string(), "admin.sign_up");
    assert_eq!(kept.clone(), kept);
    let unified: NotificationType = kept.into();
    assert_eq!(unified, NotificationType::Unknown("admin.sign_up".to_string()));
}

#[test]
fn pleroma_type_wants_a_json_string() {
    let e = wire::NotificationType::from_json(&JsonValue::Number(Some(3)), Strictness::Lenient).unwrap_err();
    assert_eq!((e.kind, e.message.as_str()), (Kind::ParseError, "expected a JSON string"));
    let e = wire::NotificationType::from_json(&JsonValue::Null, Strictness::Strict).unwrap_err();
    assert_eq!(e.kind, Kind::ParseError);
}
