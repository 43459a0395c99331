use megalodon::entities::identity_proof::IdentityProof;
use megalodon::error::{Error, Kind};
use megalodon::flavor::Flavor;
use megalodon::json::{
    check_fields, find, optional_bool, optional_text, required_bool, required_int, required_text_list,
    JsonValue,
};
use megalodon::oauth::{AppData, TokenData};
use megalodon::strictness::Strictness;
use megalodon::text::{char_is_space, str_eq, trim_trailing};
use megalodon::time::{optional_instant, required_instant, Timestamp};
use megalodon::warning::{clamp_count, Warning};

#[test]
fn timestamp_from_millis() {
    assert_eq!(Timestamp::from_millis(0), Timestamp { secs: 0, nanos: 0 });
    assert_eq!(Timestamp::from_millis(1_672_628_645_123), Timestamp { secs: 1_672_628_645, nanos: 123_000_000 });
    assert_eq!(Timestamp::from_millis(-1), Timestamp { secs: -1, nanos: 999_000_000 });
    assert_eq!(Timestamp::from_millis(-1000), Timestamp { secs: -1, nanos: 0 });
    assert_eq!(Timestamp::from_millis(-1001), Timestamp { secs: -2, nanos: 999_000_000 });
    assert_eq!(
        Timestamp::from_millis(i64::MAX),
        Timestamp { secs: 9_223_372_036_854_775, nanos: 807_000_000 }
    );
    assert_eq!(
        Timestamp::from_millis(i64::MIN),
        Timestamp { secs: -9_223_372_036_854_776, nanos: 192_000_000 }
    );
    assert_eq!(Timestamp::from_seconds(-5), Timestamp { secs: -5, nanos: 0 });
}

#[test]
fn timestamp_millis_agree_with_chrono() {
    for millis in [0i64, 1, -1, 999, -999, 1000, -1000, 1_714_979_289_456, -62_135_596_800_001] {
        let ours = Timestamp::from_millis(millis);
        let theirs = chrono::DateTime::from_timestamp_millis(millis).unwrap();
        assert_eq!((ours.secs, ours.nanos), (theirs.timestamp(), theirs.timestamp_subsec_nanos()));
    }
}

#[test]
fn timestamp_parse_normalizes_to_utc() {
    let utc = Timestamp::parse("2024-05-06T07:08:09Z").unwrap();
    assert_eq!(utc, Timestamp { secs: 1_714_979_289, nanos: 0 });
    assert_eq!(Timestamp::parse("2024-05-06T09:08:09+02:00"), Some(utc));
    assert_eq!(Timestamp::parse("2024-05-05T23:08:09-08:00"), Some(utc));
    assert_eq!(
        Timestamp::parse("2024-05-06T07:08:09.25Z"),
        Some(Timestamp { secs: 1_714_979_289, nanos: 250_000_000 })
    );
    assert_eq!(Timestamp::parse("1969-12-31T23:59:59Z"), Some(Timestamp { secs: -1, nanos: 0 }));
    assert_eq!(Timestamp::parse("2024-05-06"), None);
    assert_eq!(Timestamp::parse(""), None);
    assert_eq!(Timestamp::parse("1714979289"), None);
}

#[test]
fn timestamp_fields() {
    let doc = JsonValue::parse(br#"{"a":"2024-05-06T07:08:09Z","b":null,"c":17,"d":"soon"}"#).unwrap();
    let entries = doc.as_object().unwrap();
    let t = Timestamp { secs: 1_714_979_289, nanos: 0 };
    assert_eq!(required_instant(entries, "a"), Ok(t));
    assert_eq!(optional_instant(entries, "a"), Ok(Some(t)));
    assert_eq!(optional_instant(entries, "b"), Ok(None));
    assert_eq!(optional_instant(entries, "zz"), Ok(None));
    assert_eq!(required_instant(entries, "b").unwrap_err().message, "null in required field");
    assert_eq!(required_instant(entries, "zz").unwrap_err().message, "missing field");
    assert_eq!(required_instant(entries, "c").unwrap_err().message, "wrong JSON type");
    assert_eq!(optional_instant(entries, "c").unwrap_err().message, "wrong JSON type");
    let e = optional_instant(entries, "d").unwrap_err();
    assert_eq!((e.kind, e.fragment.as_deref(), e.field.as_deref()), (Kind::ParseError, Some("soon"), Some("d")));
}

#[test]
fn trailing_whitespace_is_trimmed() {
    assert_eq!(trim_trailing("Alice  "), "Alice");
    assert_eq!(trim_trailing("  Alice"), "  Alice");
    assert_eq!(trim_trailing("A l\tice\t\n\r "), "A l\tice");
    assert_eq!(trim_trailing("名前\u{3000}\u{2003}\u{a0}"), "名前");
    assert_eq!(trim_trailing(" \u{85}\u{1680}\u{2028}\u{2029}\u{202f}\u{205f}"), "");
    assert_eq!(trim_trailing(""), "");
    assert_eq!(trim_trailing("x\u{200b}"), "x\u{200b}");
}

#[test]
fn whitespace_is_what_std_calls_whitespace() {
    for code in 0u32..0x11000 {
        if let Some(c) = char::from_u32(code) {
            assert_eq!(char_is_space(c), c.is_whitespace(), "U+{:04X}", code);
        }
    }
}

#[test]
fn strings_compare_by_their_characters() {
    assert!(str_eq("", ""));
    assert!(str_eq("pleroma:emoji_reaction", "pleroma:emoji_reaction"));
    assert!(!str_eq("poll", "pol"));
    assert!(!str_eq("pol", "poll"));
    assert!(!str_eq("poll", "pole"));
    assert!(str_eq("👍", "👍"));
    assert!(!str_eq("👍", "👎"));
}

#[test]
fn counts_are_clamped_with_a_warning() {
    let mut sink = Vec::new();
    assert_eq!(clamp_count("followers_count", 7, &mut sink), 7);
    assert_eq!(clamp_count("followers_count", 0, &mut sink), 0);
    assert_eq!(clamp_count("followers_count", i64::MAX, &mut sink), i64::MAX as u64);
    assert!(sink.is_empty());
    assert_eq!(clamp_count("followers_count", -1, &mut sink), 0);
    assert_eq!(clamp_count("statuses_count", i64::MIN, &mut sink), 0);
    assert_eq!(
        sink,
        vec![
            Warning { field: "followers_count".to_string(), value: -1 },
            Warning { field: "statuses_count".to_string(), value: i64::MIN },
        ]
    );
}

#[test]
fn json_numbers_that_are_no_small_integers() {
    let doc = JsonValue::parse(br#"{"a":1.5,"b":18446744073709551615,"c":-9223372036854775808,"d":1e3,"e":7}"#).unwrap();
    let entries = doc.as_object().unwrap();
    assert_eq!(find(entries, "a"), Some(&JsonValue::Number(None)));
    assert_eq!(find(entries, "b"), Some(&JsonValue::Number(None)));
    assert_eq!(required_int(entries, "c"), Ok(i64::MIN));
    assert_eq!(find(entries, "d"), Some(&JsonValue::Number(None)));
    assert_eq!(required_int(entries, "e"), Ok(7));
    assert_eq!(required_int(entries, "a").unwrap_err().message, "wrong JSON type");
    assert_eq!(required_int(entries, "zz").unwrap_err().message, "missing field");
}

#[test]
fn json_plain_readers() {
    let doc = JsonValue::parse(br#"{"t":true,"n":null,"s":"","l":["a","b"],"e":[],"o":{"k":[{}]}}"#).unwrap();
    let entries = doc.as_object().unwrap();
    assert_eq!(required_bool(entries, "t"), Ok(true));
    assert_eq!(optional_bool(entries, "t"), Ok(Some(true)));
    assert_eq!(optional_bool(entries, "n"), Ok(None));
    assert_eq!(optional_bool(entries, "s").unwrap_err().message, "wrong JSON type");
    assert_eq!(required_bool(entries, "n").unwrap_err().message, "null in required field");
    assert_eq!(optional_text(entries, "s"), Ok(Some(String::new())));
    assert_eq!(optional_text(entries, "n"), Ok(None));
    assert_eq!(optional_text(entries, "zz"), Ok(None));
    assert_eq!(required_text_list(entries, "l"), Ok(vec!["a".to_string(), "b".to_string()]));
    assert_eq!(required_text_list(entries, "e"), Ok(vec![]));
    assert_eq!(required_text_list(entries, "n").unwrap_err().message, "null in required field");
    assert_eq!(required_text_list(entries, "o").unwrap_err().message, "wrong JSON type");
    assert!(doc.as_array().is_none());
    let inner = find(entries, "o").unwrap().as_object().unwrap();
    assert_eq!(find(inner, "k").unwrap().as_array().unwrap().len(), 1);
}

#[test]
fn json_first_entry_wins_and_screening() {
    let doc = JsonValue::Object(vec![
        ("a".to_string(), JsonValue::Bool(true)),
        ("b".to_string(), JsonValue::Null),
        ("a".to_string(), JsonValue::Bool(false)),
    ]);
    let entries = doc.as_object().unwrap();
    assert_eq!(find(entries, "a"), Some(&JsonValue::Bool(true)));
    assert_eq!(check_fields(entries, &vec!["a", "b"], Strictness::Strict), Ok(()));
    assert_eq!(check_fields(entries, &vec![], Strictness::Lenient), Ok(()));
    let e = check_fields(entries, &vec!["a"], Strictness::Strict).unwrap_err();
    assert_eq!(e, Error::unknown_field("b"));
    assert_eq!((e.kind, e.field.as_deref()), (Kind::ParseError, Some("b")));
}

#[test]
fn json_duplicate_keys_keep_the_last_value() {
    let doc = JsonValue::parse(br#"{"a":1,"a":2}"#).unwrap();
    assert_eq!(doc, JsonValue::Object(vec![("a".to_string(), JsonValue::Number(Some(2)))]));
}

#[test]
fn errors_are_marked_once() {
    let e = Error::missing("id");
    assert_eq!(e.entity, None);
    let inner = e.within("Account");
    assert_eq!(inner.entity, Some("Account".to_string()));
    let outer = inner.clone().within("Notification");
    assert_eq!(outer, inner);
    let laid = Error::unknown_variant("x").at("type");
    assert_eq!((laid.kind, laid.field.as_deref(), laid.fragment.as_deref()), (Kind::UnknownVariantError, Some("type"), Some("x")));
    let own = Error::new_own("no such thing".to_string(), Kind::OwnError);
    assert_eq!((own.kind, own.message.as_str(), own.field, own.fragment, own.entity), (Kind::OwnError, "no such thing", None, None, None));
    assert_eq!(Error::null("a").message, "null in required field");
    assert_eq!(Error::wrong_type("a").message, "wrong JSON type");
    assert_eq!(Error::not_an_object().message, "expected a JSON object");
    assert_eq!(Error::bad_timestamp("a", "b").fragment, Some("b".to_string()));
}

#[test]
fn flavors_and_defaults() {
    assert_eq!(Flavor::Mastodon.name(), "Mastodon");
    assert_eq!(Flavor::Pleroma.name(), "Pleroma");
    assert_eq!(Flavor::Firefish.name(), "Firefish");
    assert_eq!(Strictness::default(), Strictness::Lenient);
    assert_eq!(megalodon::firefish::decoder::Decoder::default().strictness, Strictness::Lenient);
    assert_eq!(megalodon::pleroma::decoder::Decoder::default().strictness, Strictness::Lenient);
}

#[test]
fn constructors_take_every_field() {
    let app = AppData::new(
        "1".to_string(),
        "n".to_string(),
        Some("https://w".to_string()),
        None,
        "cid".to_string(),
        "sec".to_string(),
        vec!["read".to_string()],
    );
    assert_eq!((app.id.as_str(), app.client_id.as_str(), app.client_secret.as_str()), ("1", "cid", "sec"));
    assert_eq!((app.website.as_deref(), app.redirect_uri, app.scopes.len()), (Some("https://w"), None, 1));
    let token = TokenData::new(
        "t".to_string(),
        "Bearer".to_string(),
        Some("read".to_string()),
        Some(Timestamp::from_seconds(5)),
        Some(3600),
        None,
    );
    assert_eq!((token.scope.as_deref(), token.created_at, token.expires_in, token.refresh_token), (Some("read"), Some(Timestamp { secs: 5, nanos: 0 }), Some(3600), None));
    let proof = IdentityProof::new(
        "keybase".to_string(),
        "alice".to_string(),
        Timestamp::from_millis(1500),
        "https://keybase.io/alice/sigchain".to_string(),
        "https://keybase.io/alice".to_string(),
    );
    assert_eq!(proof.provider, "keybase");
    assert_eq!(proof.provider_username, "alice");
    assert_eq!(proof.updated_at, Timestamp { secs: 1, nanos: 500_000_000 });
    assert_eq!(proof.proof_url, "https://keybase.io/alice/sigchain");
    assert_eq!(proof.profile_url, "https://keybase.io/alice");
}
