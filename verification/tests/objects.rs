use json_api::codec::{DeepClone, JsonCodec};
use json_api::substrate::parse_text;
use json_api::{
    Attributes, AttributesError, GenericObject, Identifier, JsonValue, Links, Meta,
    ResourceObject, Relationships, StringMap,
};

#[derive(Debug, PartialEq, Clone)]
struct Attr {
    kitty: bool,
}

impl Attributes for Attr {
    fn kind() -> String {
        "b".into()
    }

    fn links(_id: &str) -> Option<Links> {
        None
    }

    fn to_map(&self) -> StringMap<JsonValue> {
        let mut m = StringMap::new();
        m.insert("kitty".to_owned(), JsonValue::Bool(self.kitty));
        m
    }

    fn from_map(m: &StringMap<JsonValue>) -> Result<Attr, AttributesError> {
        match m.get("kitty") {
            Some(JsonValue::Bool(b)) => Ok(Attr { kitty: *b }),
            _ => Err(AttributesError { message: "missing field `kitty`".to_owned() }),
        }
    }
}

#[derive(Debug, PartialEq, Clone)]
struct UnitAttr;

impl Attributes for UnitAttr {
    fn kind() -> String {
        "b".into()
    }

    fn links(_id: &str) -> Option<Links> {
        None
    }

    fn to_map(&self) -> StringMap<JsonValue> {
        StringMap::new()
    }

    fn from_map(_m: &StringMap<JsonValue>) -> Result<UnitAttr, AttributesError> {
        Ok(UnitAttr)
    }
}

fn kitty_attributes(b: bool) -> StringMap<JsonValue> {
    let mut attr = StringMap::new();
    attr.insert("kitty".to_owned(), JsonValue::Bool(b));
    attr
}

#[test]
fn identifier_serde() {
    let id1 = Identifier { id: "a".into(), kind: "b".into(), meta: None };
    let s = String::from_utf8(id1.encode().to_text()).unwrap();
    assert_eq!(s, "{\"id\":\"a\",\"type\":\"b\"}");
    let id2 = Identifier::decode(&parse_text(&s).unwrap()).unwrap();
    assert_eq!(id1, id2);
}

#[test]
fn from_go() {
    let mut meta = Meta::new();
    meta.insert("c".into(), JsonValue::Str("d".into()));
    let go = GenericObject {
        id: "a".into(),
        kind: "b".into(),
        attributes: None,
        relationships: None,
        links: None,
        meta: Some(meta.deep_clone()),
    };

    let id = Identifier::from_generic_ref(&go);
    assert_eq!(
        Identifier { id: "a".into(), kind: "b".into(), meta: Some(meta.deep_clone()) },
        id
    );

    let id = Identifier::from_generic(go);
    assert_eq!(Identifier { id: "a".into(), kind: "b".into(), meta: Some(meta) }, id);
}

#[test]
fn identifier_from_ro() {
    let mut meta = Meta::new();
    meta.insert("c".into(), JsonValue::Str("d".into()));
    let ro: ResourceObject<UnitAttr> = ResourceObject {
        id: "a".into(),
        attributes: None,
        relationships: None,
        links: None,
        meta: Some(meta.deep_clone()),
    };

    let id = Identifier::from_resource_ref(&ro);
    assert_eq!(
        Identifier { id: "a".into(), kind: "b".into(), meta: Some(meta.deep_clone()) },
        id
    );

    let id = Identifier::from_resource(ro);
    assert_eq!(Identifier { id: "a".into(), kind: "b".into(), meta: Some(meta) }, id);
}

#[test]
fn generic_serde_empty() {
    let g1 = GenericObject {
        id: "a".into(),
        kind: "b".into(),
        attributes: None,
        relationships: None,
        links: None,
        meta: None,
    };
    let s = String::from_utf8(g1.encode().to_text()).unwrap();
    assert_eq!(s, "{\"id\":\"a\",\"type\":\"b\"}");
    let g2 = GenericObject::decode(&parse_text(&s).unwrap()).unwrap();
    assert_eq!(g1, g2);
}

#[test]
fn generic_serde_full() {
    let g1 = GenericObject {
        id: "a".into(),
        kind: "b".into(),
        attributes: Some(StringMap::new()),
        relationships: Some(Relationships::new()),
        links: Some(Links::new()),
        meta: Some(Meta::new()),
    };
    let s = String::from_utf8(g1.encode().to_text()).unwrap();
    assert_eq!(
        s,
        "{\"id\":\"a\",\"type\":\"b\",\"attributes\":{},\"relationships\":{},\"links\":{},\"meta\":{}}"
    );
    let g2 = GenericObject::decode(&parse_text(&s).unwrap()).unwrap();
    assert_eq!(g1, g2);
}

#[test]
fn generic_from_ro() {
    let ro = ResourceObject::<Attr>::new("a".into(), None);
    let go = GenericObject::from_resource_ref(&ro);
    assert_eq!(
        GenericObject {
            id: "a".into(),
            kind: "b".into(),
            attributes: None,
            relationships: None,
            links: None,
            meta: None,
        },
        go
    );

    let mut ro = ro;
    let go = GenericObject::from_resource(ResourceObject::<Attr> {
        id: ro.id.clone(),
        attributes: None,
        relationships: None,
        links: None,
        meta: None,
    });
    assert_eq!(
        GenericObject {
            id: "a".into(),
            kind: "b".into(),
            attributes: None,
            relationships: None,
            links: None,
            meta: None,
        },
        go
    );

    ro.attributes = Some(Attr { kitty: true });
    ro.relationships = Some(Relationships::new());
    ro.links = Some(Links::new());
    ro.meta = Some(Meta::new());

    let go = GenericObject::from_resource_ref(&ro);
    assert_eq!(
        GenericObject {
            id: "a".into(),
            kind: "b".into(),
            attributes: Some(kitty_attributes(true)),
            relationships: Some(Relationships::new()),
            links: Some(Links::new()),
            meta: Some(Meta::new()),
        },
        go
    );

    let go = GenericObject::from_resource(ro);
    assert_eq!(
        GenericObject {
            id: "a".into(),
            kind: "b".into(),
            attributes: Some(kitty_attributes(true)),
            relationships: Some(Relationships::new()),
            links: Some(Links::new()),
            meta: Some(Meta::new()),
        },
        go
    );
}

#[test]
fn generic_from_id() {
    let id = Identifier { id: "a".into(), kind: "b".into(), meta: Some(Meta::new()) };

    let go = GenericObject::from_identifier_ref(&id);
    assert_eq!(
        GenericObject {
            id: "a".into(),
            kind: "b".into(),
            attributes: None,
            relationships: None,
            links: None,
            meta: Some(Meta::new()),
        },
        go
    );

    let go = GenericObject::from_identifier(id);
    assert_eq!(
        GenericObject {
            id: "a".into(),
            kind: "b".into(),
            attributes: None,
            relationships: None,
            links: None,
            meta: Some(Meta::new()),
        },
        go
    );
}

#[test]
fn from_go_success() {
    let go = GenericObject {
        id: "a".into(),
        kind: "b".into(),
        attributes: Some(kitty_attributes(true)),
        relationships: Some(Relationships::new()),
        links: Some(Links::new()),
        meta: Some(Meta::new()),
    };

    let ro: ResourceObject<Attr> = ResourceObject::try_from_generic_ref(&go).unwrap();
    assert_eq!(
        ResourceObject {
            id: "a".into(),
            attributes: Some(Attr { kitty: true }),
            relationships: Some(Relationships::new()),
            links: Some(Links::new()),
            meta: Some(Meta::new()),
        },
        ro
    );

    let ro: ResourceObject<Attr> = ResourceObject::try_from_generic(go).unwrap();
    assert_eq!(
        ResourceObject {
            id: "a".into(),
            attributes: Some(Attr { kitty: true }),
            relationships: Some(Relationships::new()),
            links: Some(Links::new()),
            meta: Some(Meta::new()),
        },
        ro
    );
}

#[test]
fn from_go_fail_type() {
    let go = GenericObject {
        id: "a".into(),
        kind: "c".into(),
        attributes: Some(kitty_attributes(true)),
        relationships: Some(Relationships::new()),
        links: Some(Links::new()),
        meta: Some(Meta::new()),
    };

    let err = ResourceObject::<Attr>::try_from_generic_ref(&go).unwrap_err();
    assert_eq!(
        err,
        json_api::ObjectConversionError::ImproperType { expected: "b".into(), got: "c".into() }
    );
    assert!(ResourceObject::<Attr>::try_from_generic(go).is_err());
}

#[test]
fn from_go_fail_attributes() {
    let go = GenericObject {
        id: "a".into(),
        kind: "b".into(),
        attributes: Some(StringMap::new()),
        relationships: None,
        links: None,
        meta: None,
    };

    let err = ResourceObject::<Attr>::try_from_generic_ref(&go).unwrap_err();
    assert!(matches!(err, json_api::ObjectConversionError::FailedDeserialization(_)));
    assert!(ResourceObject::<Attr>::try_from_generic(go).is_err());
}

#[test]
fn resource_from_id() {
    let id = Identifier { id: "a".into(), kind: "b".into(), meta: Some(Meta::new()) };

    let ro: ResourceObject<Attr> = ResourceObject::try_from_identifier_ref(&id).unwrap();
    assert_eq!(
        ResourceObject {
            id: "a".into(),
            attributes: None,
            relationships: None,
            links: None,
            meta: Some(Meta::new()),
        },
        ro
    );

    let ro: ResourceObject<Attr> = ResourceObject::try_from_identifier(id).unwrap();
    assert_eq!(
        ResourceObject {
            id: "a".into(),
            attributes: None,
            relationships: None,
            links: None,
            meta: Some(Meta::new()),
        },
        ro
    );
}

#[test]
fn from_id_fail() {
    let id = Identifier { id: "a".into(), kind: "c".into(), meta: None };

    assert!(ResourceObject::<Attr>::try_from_identifier_ref(&id).is_err());
    assert!(ResourceObject::<Attr>::try_from_identifier(id).is_err());
}

#[test]
fn conversion_error_describe() {
    let e = json_api::ObjectConversionError::ImproperType {
        expected: "b".into(),
        got: "c".into(),
    };
    assert_eq!(
        e.describe(),
        "Object Conversion Error: Improper type (expected b, got c)"
    );
    let f = json_api::ObjectConversionError::FailedDeserialization(json_api::AttributesError {
        message: "boom".into(),
    });
    assert_eq!(
        f.describe(),
        "Object Conversion Error: Failed to Deserialize Attributes (boom)"
    );
}
