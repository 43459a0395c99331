use megalodon::entities::status::{MediaType, StatusVisibility};
use megalodon::error::Kind;
use megalodon::json::JsonValue;
use megalodon::pleroma::entities::status::{
    read_media_type, read_visibility, write_media_type, write_visibility,
};
use megalodon::strictness::Strictness;

#[test]
fn visibility_round_trip() {
    for (visibility, spelling) in [
        (StatusVisibility::Public, "public"),
        (StatusVisibility::Unlisted, "unlisted"),
        (StatusVisibility::Private, "private"),
        (StatusVisibility::Direct, "direct"),
    ] {
        assert_eq!(write_visibility(&visibility), spelling);
        assert_eq!(read_visibility(spelling, Strictness::Strict).unwrap(), visibility);
        assert_eq!(read_visibility(spelling, Strictness::Lenient).unwrap(), visibility);
        assert_eq!(visibility.clone(), visibility);
    }
    let kept = read_visibility("local", Strictness::Lenient).unwrap();
    assert_eq!(kept, StatusVisibility::Unknown("local".to_string()));
    assert_eq!(write_visibility(&kept), "local");
    assert_eq!(kept.clone(), kept);
    let e = read_visibility("local", Strictness::Strict).unwrap_err();
    assert_eq!((e.kind, e.fragment.as_deref()), (Kind::UnknownVariantError, Some("local")));
}

#[test]
fn media_type_round_trip() {
    for (media_type, spelling) in [
        (MediaType::Image, "image"),
        (MediaType::Gifv, "gifv"),
        (MediaType::Video, "video"),
        (MediaType::Audio, "audio"),
    ] {
        assert_eq!(write_media_type(&media_type), spelling);
        assert_eq!(read_media_type(spelling, Strictness::Strict).unwrap(), media_type);
        assert_eq!(read_media_type(spelling, Strictness::Lenient).unwrap(), media_type);
        assert_eq!(media_type.clone(), media_type);
    }
    let kept = read_media_type("unknown", Strictness::Lenient).unwrap();
    assert_eq!(kept, MediaType::Unknown("unknown".to_string()));
    assert_eq!(write_media_type(&kept), "unknown");
    let e = read_media_type("Image", Strictness::Strict).unwrap_err();
    assert_eq!((e.kind, e.fragment.as_deref()), (Kind::UnknownVariantError, Some("Image")));
}

#[test]
fn a_parsed_value_is_taken_as_it_is() {
    let value: serde_json::Value = serde_json::from_str(r#"{"b":[1,{"c":null}],"a":-2.5}"#).unwrap();
    let doc = JsonValue::from_value(&value);
    assert_eq!(Ok(doc), JsonValue::parse(br#"{"a":-2.5,"b":[1,{"c":null}]}"#));
    let scalar = JsonValue::from_value(&serde_json::Value::String("x".to_string()));
    assert_eq!(scalar, JsonValue::Text("x".to_string()));
}
