use json_api::codec::obj_get;
use json_api::substrate::parse_text;
use json_api::{JsonValue, OptionalVec};

fn encode_ts(ov: &OptionalVec<i64>) -> String {
    let mut entries: Vec<(String, JsonValue)> = Vec::new();
    if let Some(w) = ov.encode_field() {
        entries.push(("inner".to_owned(), w));
    }
    String::from_utf8(JsonValue::Obj(entries).to_text()).unwrap()
}

fn decode_ts(s: &str) -> Option<OptionalVec<i64>> {
    let v = parse_text(s).unwrap();
    match &v {
        JsonValue::Obj(entries) => match obj_get(entries, "inner") {
            None => Some(OptionalVec::NotPresent),
            Some(w) => OptionalVec::<i64>::decode_field(w),
        },
        _ => None,
    }
}

#[test]
fn serde_not_present() {
    let ts1: OptionalVec<i64> = OptionalVec::NotPresent;
    let s = encode_ts(&ts1);
    assert_eq!(s, "{}");
    let ts2 = decode_ts(&s).unwrap();
    assert_eq!(ts1, ts2);
}

#[test]
fn serde_empty_to_one() {
    let ts1: OptionalVec<i64> = OptionalVec::One(None);
    let s = encode_ts(&ts1);
    assert_eq!(s, "{\"inner\":null}");
    let ts2 = decode_ts(&s).unwrap();
    assert_eq!(ts1, ts2);
}

#[test]
fn serde_to_one() {
    let ts1: OptionalVec<i64> = OptionalVec::One(Some(1));
    let s = encode_ts(&ts1);
    assert_eq!(s, "{\"inner\":1}");
    let ts2 = decode_ts(&s).unwrap();
    assert_eq!(ts1, ts2);
}

#[test]
fn serde_to_many() {
    let ts1: OptionalVec<i64> = OptionalVec::Many(vec![1, 2]);
    let s = encode_ts(&ts1);
    assert_eq!(s, "{\"inner\":[1,2]}");
    let ts2 = decode_ts(&s).unwrap();
    assert_eq!(ts1, ts2);
}

#[test]
#[should_panic]
fn failed_deserialize() {
    let _: OptionalVec<i64> = decode_ts("{\"inner\":\"oops i'm a string\"}").unwrap();
}

#[test]
fn is() {
    let ov: OptionalVec<usize> = OptionalVec::NotPresent;
    assert!(ov.is_not_present());
    assert!(!ov.is_one());
    assert!(!ov.is_many());

    let ov: OptionalVec<usize> = OptionalVec::One(None);
    assert!(!ov.is_not_present());
    assert!(ov.is_one());
    assert!(!ov.is_many());

    let ov: OptionalVec<usize> = OptionalVec::Many(vec![]);
    assert!(!ov.is_not_present());
    assert!(!ov.is_one());
    assert!(ov.is_many());
}

#[test]
fn decode_precedence() {
    let one = OptionalVec::<i64>::decode_field(&JsonValue::Int(7)).unwrap();
    assert_eq!(one, OptionalVec::One(Some(7)));

    let nulled = OptionalVec::<i64>::decode_field(&JsonValue::Null).unwrap();
    assert_eq!(nulled, OptionalVec::One(None));

    let empty = OptionalVec::<i64>::decode_field(&JsonValue::Arr(vec![])).unwrap();
    assert_eq!(empty, OptionalVec::Many(vec![]));

    let many = OptionalVec::<i64>::decode_field(&JsonValue::Arr(vec![
        JsonValue::Int(3),
        JsonValue::Int(4),
    ]))
    .unwrap();
    assert_eq!(many, OptionalVec::Many(vec![3, 4]));

    assert!(OptionalVec::<i64>::decode_field(&JsonValue::Bool(true)).is_none());
}
