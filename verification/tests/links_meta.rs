use json_api::codec::{decode_obj_map, encode_smap, JsonCodec};
use json_api::substrate::parse_text;
use json_api::{JsonValue, Link, Links, Meta};

fn text_of(v: &JsonValue) -> String {
    String::from_utf8(v.to_text()).unwrap()
}

#[test]
fn serde_url() {
    let l1 = Link::Url("a".into());
    let s = text_of(&l1.encode());
    assert_eq!(s, "\"a\"");
    let l2 = Link::decode(&parse_text(&s).unwrap()).unwrap();
    assert_eq!(l1, l2);
}

#[test]
fn serde_object() {
    let l1 = Link::Object { href: Some("a".into()), meta: Some(Meta::new()) };
    let s = text_of(&l1.encode());
    assert_eq!(s, "{\"href\":\"a\",\"meta\":{}}");
    let l2 = Link::decode(&parse_text(&s).unwrap()).unwrap();
    assert_eq!(l1, l2);
}

#[test]
fn links_serde() {
    let mut links = Links::new();
    links.insert("a".into(), Link::Url("b".into()));
    links.insert("b".into(), Link::Object { href: Some("c".into()), meta: None });
    links.insert("c".into(), Link::Object { href: None, meta: None });

    let s = text_of(&encode_smap::<Link>(&links));
    assert_eq!(s, "{\"a\":\"b\",\"b\":{\"href\":\"c\"},\"c\":{}}");
    let parsed = parse_text(&s).unwrap();
    let links2 = match &parsed {
        JsonValue::Obj(entries) => decode_obj_map::<Link>(entries).unwrap(),
        _ => panic!("not an object"),
    };
    assert_eq!(links, links2);
}

#[test]
fn meta_serde() {
    let mut meta = Meta::new();
    meta.insert("a".into(), JsonValue::Str("a".into()));
    meta.insert("b".into(), JsonValue::Null);
    let s = text_of(&encode_smap::<JsonValue>(&meta));
    assert_eq!(s, "{\"a\":\"a\",\"b\":null}");
    let parsed = parse_text(&s).unwrap();
    let meta2 = match &parsed {
        JsonValue::Obj(entries) => decode_obj_map::<JsonValue>(entries).unwrap(),
        _ => panic!("not an object"),
    };
    assert_eq!(meta, meta2);
}

#[test]
fn link_new_without_meta_is_bare_url() {
    let l = Link::new("/articles/1".into(), None);
    assert_eq!(l, Link::Url("/articles/1".into()));
    assert_eq!(text_of(&l.encode()), "\"/articles/1\"");
}

#[test]
fn link_new_with_meta_is_object() {
    let l = Link::new("/articles/1".into(), Some(Meta::new()));
    assert_eq!(
        l,
        Link::Object { href: Some("/articles/1".into()), meta: Some(Meta::new()) }
    );
    assert_eq!(text_of(&l.encode()), "{\"href\":\"/articles/1\",\"meta\":{}}");
}

#[test]
fn link_href() {
    assert_eq!(Link::Url("a".into()).href(), Some("a"));
    assert_eq!(Link::Object { href: Some("b".into()), meta: None }.href(), Some("b"));
    assert_eq!(Link::Object { href: None, meta: None }.href(), None);
    let d: Link = Default::default();
    assert_eq!(d, Link::Object { href: None, meta: None });
}

#[test]
fn string_escapes() {
    let l = JsonValue::Str("a\"b\\c\nd".into());
    assert_eq!(text_of(&l), "\"a\\\"b\\\\c\\nd\"");
    let v = parse_text("\"a\\\"b\\\\c\\nd\"").unwrap();
    assert_eq!(v, l);
}

#[test]
fn number_rendering() {
    assert_eq!(text_of(&JsonValue::Int(0)), "0");
    assert_eq!(text_of(&JsonValue::Int(-5)), "-5");
    assert_eq!(text_of(&JsonValue::Int(1234567890)), "1234567890");
    assert_eq!(text_of(&JsonValue::Int(i64::MIN)), "-9223372036854775808");
    assert_eq!(text_of(&JsonValue::Int(i64::MAX)), "9223372036854775807");
    let v = parse_text("-9223372036854775808").unwrap();
    assert_eq!(v, JsonValue::Int(i64::MIN));
}

#[test]
fn non_ascii_rendering() {
    let v = JsonValue::Str("caf\u{e9}".into());
    assert_eq!(text_of(&v), "\"caf\\u00e9\"");
    assert_eq!(parse_text(&text_of(&v)).unwrap(), v);

    let smile = JsonValue::Str("\u{1F600}".into());
    assert_eq!(text_of(&smile), "\"\\ud83d\\ude00\"");
    assert_eq!(parse_text(&text_of(&smile)).unwrap(), smile);

    let ctl = JsonValue::Str("\u{01}".into());
    assert_eq!(text_of(&ctl), "\"\\u0001\"");
    assert_eq!(parse_text(&text_of(&ctl)).unwrap(), ctl);
}
