use json_api::codec::{decode_obj_map, encode_smap, JsonCodec};
use json_api::substrate::parse_text;
use json_api::{
    Document, Error, ErrorSource, Identifier, JsonApi, JsonValue, Links, Meta, OptionalVec,
    Relationship, Relationships,
};

fn text_of(v: &JsonValue) -> String {
    String::from_utf8(v.to_text()).unwrap()
}

#[test]
fn document_serde_empty() {
    let d1: Document = Default::default();
    let s = text_of(&d1.encode());
    assert_eq!(s, "{}");
    let d2 = Document::decode(&parse_text(&s).unwrap()).unwrap();
    assert_eq!(d1, d2);
}

#[test]
fn document_serde_full() {
    let d1 = Document {
        data: OptionalVec::One(None),
        errors: Some(Vec::new()),
        meta: Some(Meta::new()),
        jsonapi: Some(Default::default()),
        links: Some(Links::new()),
        included: Some(Vec::new()),
    };
    let s = text_of(&d1.encode());
    assert_eq!(
        s,
        "{\"data\":null,\"errors\":[],\"meta\":{},\"jsonapi\":{},\"links\":{},\"included\":[]}"
    );
    let d2 = Document::decode(&parse_text(&s).unwrap()).unwrap();
    assert_eq!(d1, d2);
}

#[test]
fn error_serde_empty() {
    let e1: Error = Default::default();
    let s = text_of(&e1.encode());
    assert_eq!(s, "{}");
    let e2 = Error::decode(&parse_text(&s).unwrap()).unwrap();
    assert_eq!(e1, e2);
}

#[test]
fn error_serde_full() {
    let e1 = Error {
        id: Some("a".into()),
        links: Some(Links::new()),
        status: Some("b".into()),
        code: Some("c".into()),
        title: Some("d".into()),
        detail: Some("e".into()),
        source: Some(Default::default()),
        meta: Some(Meta::new()),
    };
    let s = text_of(&e1.encode());
    assert_eq!(
        s,
        "{\"id\":\"a\",\"links\":{},\"status\":\"b\",\"code\":\"c\",\"title\":\"d\",\"detail\":\"e\",\"source\":{},\"meta\":{}}"
    );
    let e2 = Error::decode(&parse_text(&s).unwrap()).unwrap();
    assert_eq!(e1, e2);
}

#[test]
fn error_source_serde_empty() {
    let es1: ErrorSource = Default::default();
    let s = text_of(&es1.encode());
    assert_eq!(s, "{}");
    let es2 = ErrorSource::decode(&parse_text(&s).unwrap()).unwrap();
    assert_eq!(es1, es2);
}

#[test]
fn error_source_serde_full() {
    let es1 = ErrorSource { pointer: Some("a".into()), parameter: Some("b".into()) };
    let s = text_of(&es1.encode());
    assert_eq!(s, "{\"pointer\":\"a\",\"parameter\":\"b\"}");
    let es2 = ErrorSource::decode(&parse_text(&s).unwrap()).unwrap();
    assert_eq!(es1, es2);
}

#[test]
fn error_from_message() {
    let e = Error::from_message("boom".into());
    assert_eq!(e.detail, Some("boom".to_owned()));
    assert_eq!(e.id, None);
    assert_eq!(e.links, None);
    assert_eq!(e.status, None);
    assert_eq!(e.code, None);
    assert_eq!(e.title, None);
    assert_eq!(e.source, None);
    assert_eq!(e.meta, None);
}

#[test]
fn jsonapi_serde_empty() {
    let j1: JsonApi = Default::default();
    let s = text_of(&j1.encode());
    assert_eq!(s, "{}");
    let j2 = JsonApi::decode(&parse_text(&s).unwrap()).unwrap();
    assert_eq!(j1, j2);
}

#[test]
fn jsonapi_serde_full() {
    let j1 = JsonApi { version: Some("a".into()), meta: Some(Meta::new()) };
    let s = text_of(&j1.encode());
    assert_eq!(s, "{\"version\":\"a\",\"meta\":{}}");
    let j2 = JsonApi::decode(&parse_text(&s).unwrap()).unwrap();
    assert_eq!(j1, j2);
}

#[test]
fn relationships_serde_empty() {
    let r1 = Relationship { links: None, data: OptionalVec::NotPresent, meta: None };
    let s = text_of(&r1.encode());
    assert_eq!(s, "{}");
    let r2 = Relationship::decode(&parse_text(&s).unwrap()).unwrap();
    assert_eq!(r1, r2);
}

#[test]
fn relationships_serde_full() {
    let r1 = Relationship {
        links: Some(Links::new()),
        data: OptionalVec::Many(vec![]),
        meta: Some(Meta::new()),
    };
    let s = text_of(&r1.encode());
    assert_eq!(s, "{\"links\":{},\"data\":[],\"meta\":{}}");
    let r2 = Relationship::decode(&parse_text(&s).unwrap()).unwrap();
    assert_eq!(r1, r2);
}

#[test]
fn relationship_data_and_meta_only() {
    let r1 = Relationship {
        links: None,
        data: OptionalVec::Many(vec![]),
        meta: Some(Meta::new()),
    };
    let s = text_of(&r1.encode());
    assert_eq!(s, "{\"data\":[],\"meta\":{}}");
    let r2 = Relationship::decode(&parse_text(&s).unwrap()).unwrap();
    assert_eq!(r1, r2);
}

#[test]
fn relationships_serde() {
    let mut rs1 = Relationships::new();
    let r1 = Relationship { links: None, data: OptionalVec::NotPresent, meta: None };
    rs1.insert("a".into(), r1);
    let r2 = Relationship {
        links: Some(Links::new()),
        data: OptionalVec::Many(vec![]),
        meta: Some(Meta::new()),
    };
    rs1.insert("b".into(), r2);
    let s = text_of(&encode_smap::<Relationship>(&rs1));
    assert_eq!(s, "{\"a\":{},\"b\":{\"links\":{},\"data\":[],\"meta\":{}}}");
    let parsed = parse_text(&s).unwrap();
    let rs2 = match &parsed {
        JsonValue::Obj(entries) => decode_obj_map::<Relationship>(entries).unwrap(),
        _ => panic!("not an object"),
    };
    assert_eq!(rs1, rs2);
}

#[test]
fn relationship_to_one_data() {
    let r1 = Relationship {
        links: None,
        data: OptionalVec::One(Some(Identifier::new("9".into(), "people".into()))),
        meta: None,
    };
    let s = text_of(&r1.encode());
    assert_eq!(s, "{\"data\":{\"id\":\"9\",\"type\":\"people\"}}");
    let r2 = Relationship::decode(&parse_text(&s).unwrap()).unwrap();
    assert_eq!(r1, r2);
}

#[test]
fn parse_rejects_bad_text() {
    assert!(matches!(
        parse_text("{\"a\":"),
        Err(json_api::substrate::ParseError::Syntax(_))
    ));
    assert!(matches!(
        parse_text("1.5"),
        Err(json_api::substrate::ParseError::UnsupportedNumber)
    ));
}

#[test]
fn parse_rejects_deep_nesting() {
    let mut text = String::new();
    for _ in 0..600 {
        text.push('[');
    }
    text.push('1');
    for _ in 0..600 {
        text.push(']');
    }
    assert!(matches!(
        parse_text(&text),
        Err(json_api::substrate::ParseError::TooDeep) | Err(json_api::substrate::ParseError::Syntax(_))
    ));
}

#[test]
fn parse_orders_object_keys() {
    let v = parse_text("{\"b\":1,\"a\":2}").unwrap();
    assert_eq!(String::from_utf8(v.to_text()).unwrap(), "{\"a\":2,\"b\":1}");
}
