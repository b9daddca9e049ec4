//! The untyped resource object: the wire-ambivalent representation whose
//! attributes are a flat map of dynamic values.

use vstd::prelude::*;
use crate::links::{Link, LinkV, Links};
use crate::meta::Meta;
use crate::relationships::{Relationship, RelationshipV, Relationships};
use crate::object::identifier::{Identifier, IdentifierV};
use crate::object::resource::{Attributes, ResourceObject};
use crate::string_map::{StringMap, entries_get};
use crate::value::{JsonValue, ValueV, EntriesV, obj_entries_view, lemma_view_obj};
use crate::codec::{
    JsonCodec, DeepClone, opt_entry, opt_view, dec_opt_obj, dec_opt_map, obj_get, encode_smap,
    decode_obj_map, smap_enc, lemma_opt_entry_get, lemma_entries_get_concat,
    lemma_smap_dec_value_identity, lemma_smap_codec_roundtrip,
};

verus! {

/// A generic resource object of some unknown type: id, type tag, and the
/// optional attribute map, relationships, links and metadata.
#[derive(Debug, PartialEq)]
pub struct GenericObject {
    pub id: String,
    pub kind: String,
    pub attributes: Option<StringMap<JsonValue>>,
    pub relationships: Option<Relationships>,
    pub links: Option<Links>,
    pub meta: Option<Meta>,
}

/// The specification-level value of a generic resource object.
pub struct GenericObjectV {
    pub id: Seq<char>,
    pub kind: Seq<char>,
    pub attributes: Option<EntriesV>,
    pub relationships: Option<Seq<(Seq<char>, RelationshipV)>>,
    pub links: Option<Seq<(Seq<char>, LinkV)>>,
    pub meta: Option<EntriesV>,
}

impl View for GenericObject {
    type V = GenericObjectV;

    open spec fn view(&self) -> GenericObjectV {
        GenericObjectV {
            id: self.id@,
            kind: self.kind@,
            attributes: opt_view(self.attributes),
            relationships: opt_view(self.relationships),
            links: opt_view(self.links),
            meta: opt_view(self.meta),
        }
    }
}

impl GenericObject {
    /// Returns the type of the object, stored under the name `kind` because
    /// `type` is reserved vocabulary.
    pub fn kind<'a>(&'a self) -> (r: &'a str)
        ensures
            r@ == self@.kind,
    {
        self.kind.as_str()
    }
}

impl DeepClone for GenericObject {
    fn deep_clone(&self) -> (r: Self) {
        GenericObject {
            id: self.id.clone(),
            kind: self.kind.clone(),
            attributes: match &self.attributes {
                Option::Some(a) => Some(a.deep_clone()),
                Option::None => None,
            },
            relationships: match &self.relationships {
                Option::Some(x) => Some(x.deep_clone()),
                Option::None => None,
            },
            links: match &self.links {
                Option::Some(x) => Some(x.deep_clone()),
                Option::None => None,
            },
            meta: match &self.meta {
                Option::Some(m) => Some(m.deep_clone()),
                Option::None => None,
            },
        }
    }
}

/// The wire payload of the attribute map, when present.
pub open spec fn spec_attributes_field(v: GenericObjectV) -> Option<ValueV> {
    match v.attributes {
        Option::Some(es) => Some(ValueV::Obj(es)),
        Option::None => None,
    }
}

/// The wire payload of the relationship map, when present.
pub open spec fn spec_relationships_field(v: GenericObjectV) -> Option<ValueV> {
    match v.relationships {
        Option::Some(rs) => Some(ValueV::Obj(smap_enc::<Relationship>(rs))),
        Option::None => None,
    }
}

/// The wire payload of the link map, when present.
pub open spec fn spec_links_field(v: GenericObjectV) -> Option<ValueV> {
    match v.links {
        Option::Some(ls) => Some(ValueV::Obj(smap_enc::<Link>(ls))),
        Option::None => None,
    }
}

/// The wire payload of the metadata, when present.
pub open spec fn spec_meta_field(v: GenericObjectV) -> Option<ValueV> {
    match v.meta {
        Option::Some(es) => Some(ValueV::Obj(es)),
        Option::None => None,
    }
}

impl JsonCodec for GenericObject {
    open spec fn spec_enc(v: GenericObjectV) -> ValueV {
        ValueV::Obj(
            seq![("id"@, ValueV::Str(v.id)), ("type"@, ValueV::Str(v.kind))] + opt_entry(
                "attributes"@,
                spec_attributes_field(v),
            ) + opt_entry("relationships"@, spec_relationships_field(v)) + opt_entry(
                "links"@,
                spec_links_field(v),
            ) + opt_entry("meta"@, spec_meta_field(v)),
        )
    }

    open spec fn spec_dec(w: ValueV) -> Option<GenericObjectV> {
        match w {
            ValueV::Obj(es) => match (entries_get(es, "id"@), entries_get(es, "type"@)) {
                (Option::Some(ValueV::Str(id)), Option::Some(ValueV::Str(kind))) => match (
                    dec_opt_obj(entries_get(es, "attributes"@)),
                    dec_opt_map::<Relationship>(entries_get(es, "relationships"@)),
                    dec_opt_map::<Link>(entries_get(es, "links"@)),
                    dec_opt_obj(entries_get(es, "meta"@)),
                ) {
                    (
                        Option::Some(attributes),
                        Option::Some(relationships),
                        Option::Some(links),
                        Option::Some(meta),
                    ) => Some(
                        GenericObjectV { id, kind, attributes, relationships, links, meta },
                    ),
                    _ => None,
                },
                _ => None,
            },
            _ => None,
        }
    }

    fn encode(&self) -> (r: JsonValue) {
        let mut out: Vec<(String, JsonValue)> = Vec::new();
        out.push(("id".to_owned(), JsonValue::Str(self.id.clone())));
        out.push(("type".to_owned(), JsonValue::Str(self.kind.clone())));
        if let Some(a) = &self.attributes {
            let enc = encode_smap::<JsonValue>(a);
            proof {
                assert(smap_enc::<JsonValue>(a@) =~= a@);
            }
            out.push(("attributes".to_owned(), enc));
        }
        if let Some(rs) = &self.relationships {
            out.push(("relationships".to_owned(), encode_smap::<Relationship>(rs)));
        }
        if let Some(ls) = &self.links {
            out.push(("links".to_owned(), encode_smap::<Link>(ls)));
        }
        if let Some(m) = &self.meta {
            let enc = encode_smap::<JsonValue>(m);
            proof {
                assert(smap_enc::<JsonValue>(m@) =~= m@);
            }
            out.push(("meta".to_owned(), enc));
        }
        proof {
            lemma_view_obj(out);
            assert(obj_entries_view(out@) =~= Self::spec_enc(self@)->Obj_0);
        }
        JsonValue::Obj(out)
    }

    fn decode(v: &JsonValue) -> (r: Option<GenericObject>) {
        match v {
            JsonValue::Obj(entries) => {
                proof {
                    lemma_view_obj(*entries);
                }
                let id = match obj_get(entries, "id") {
                    Option::Some(JsonValue::Str(s)) => s.clone(),
                    _ => {
                        return None;
                    },
                };
                let kind = match obj_get(entries, "type") {
                    Option::Some(JsonValue::Str(s)) => s.clone(),
                    _ => {
                        return None;
                    },
                };
                let attributes: Option<StringMap<JsonValue>> = match obj_get(
                    entries,
                    "attributes",
                ) {
                    Option::None => None,
                    Option::Some(JsonValue::Obj(aes)) => {
                        proof {
                            lemma_view_obj(*aes);
                            lemma_smap_dec_value_identity(obj_entries_view(aes@));
                        }
                        match decode_obj_map::<JsonValue>(aes) {
                            Option::Some(a) => Some(a),
                            Option::None => {
                                return None;
                            },
                        }
                    },
                    Option::Some(_) => {
                        return None;
                    },
                };
                let relationships: Option<Relationships> = match obj_get(
                    entries,
                    "relationships",
                ) {
                    Option::None => None,
                    Option::Some(JsonValue::Obj(res)) => {
                        proof {
                            lemma_view_obj(*res);
                        }
                        match decode_obj_map::<Relationship>(res) {
                            Option::Some(rs) => Some(rs),
                            Option::None => {
                                return None;
                            },
                        }
                    },
                    Option::Some(_) => {
                        return None;
                    },
                };
                let links: Option<Links> = match obj_get(entries, "links") {
                    Option::None => None,
                    Option::Some(JsonValue::Obj(les)) => {
                        proof {
                            lemma_view_obj(*les);
                        }
                        match decode_obj_map::<Link>(les) {
                            Option::Some(ls) => Some(ls),
                            Option::None => {
                                return None;
                            },
                        }
                    },
                    Option::Some(_) => {
                        return None;
                    },
                };
                let meta: Option<Meta> = match obj_get(entries, "meta") {
                    Option::None => None,
                    Option::Some(JsonValue::Obj(mes)) => {
                        proof {
                            lemma_view_obj(*mes);
                            lemma_smap_dec_value_identity(obj_entries_view(mes@));
                        }
                        match decode_obj_map::<JsonValue>(mes) {
                            Option::Some(m) => Some(m),
                            Option::None => {
                                return None;
                            },
                        }
                    },
                    Option::Some(_) => {
                        return None;
                    },
                };
                Some(GenericObject { id, kind, attributes, relationships, links, meta })
            },
            _ => None,
        }
    }

    proof fn lemma_codec_roundtrip(v: GenericObjectV) {
        reveal_strlit("id");
        reveal_strlit("type");
        reveal_strlit("attributes");
        reveal_strlit("relationships");
        reveal_strlit("links");
        reveal_strlit("meta");
        assert("id"@[0] == 'i' && "type"@[0] == 't' && "attributes"@[0] == 'a' && "relationships"@[0]
            == 'r' && "links"@[0] == 'l' && "meta"@[0] == 'm');
        let base = seq![("id"@, ValueV::Str(v.id)), ("type"@, ValueV::Str(v.kind))];
        let e3 = opt_entry("attributes"@, spec_attributes_field(v));
        let e4 = opt_entry("relationships"@, spec_relationships_field(v));
        let e5 = opt_entry("links"@, spec_links_field(v));
        let e6 = opt_entry("meta"@, spec_meta_field(v));
        let es = Self::spec_enc(v)->Obj_0;
        assert(es == base + e3 + e4 + e5 + e6);
        lemma_entries_get_concat(base + e3 + e4 + e5, e6, "id"@);
        lemma_entries_get_concat(base + e3 + e4, e5, "id"@);
        lemma_entries_get_concat(base + e3, e4, "id"@);
        lemma_entries_get_concat(base, e3, "id"@);
        lemma_entries_get_concat(base + e3 + e4 + e5, e6, "type"@);
        lemma_entries_get_concat(base + e3 + e4, e5, "type"@);
        lemma_entries_get_concat(base + e3, e4, "type"@);
        lemma_entries_get_concat(base, e3, "type"@);
        lemma_entries_get_concat(base + e3 + e4 + e5, e6, "attributes"@);
        lemma_entries_get_concat(base + e3 + e4, e5, "attributes"@);
        lemma_entries_get_concat(base + e3, e4, "attributes"@);
        lemma_entries_get_concat(base, e3, "attributes"@);
        lemma_entries_get_concat(base + e3 + e4 + e5, e6, "relationships"@);
        lemma_entries_get_concat(base + e3 + e4, e5, "relationships"@);
        lemma_entries_get_concat(base + e3, e4, "relationships"@);
        lemma_entries_get_concat(base, e3, "relationships"@);
        lemma_entries_get_concat(base + e3 + e4 + e5, e6, "links"@);
        lemma_entries_get_concat(base + e3 + e4, e5, "links"@);
        lemma_entries_get_concat(base + e3, e4, "links"@);
        lemma_entries_get_concat(base, e3, "links"@);
        lemma_entries_get_concat(base + e3 + e4 + e5, e6, "meta"@);
        lemma_entries_get_concat(base + e3 + e4, e5, "meta"@);
        lemma_entries_get_concat(base + e3, e4, "meta"@);
        lemma_entries_get_concat(base, e3, "meta"@);
        assert(entries_get(base, "id"@) == Some(ValueV::Str(v.id)));
        assert(entries_get(base.skip(1), "type"@) == Some(ValueV::Str(v.kind)));
        assert(entries_get(base, "type"@) == Some(ValueV::Str(v.kind)));
        assert(entries_get(base.skip(1).skip(1), "attributes"@) is None);
        assert(entries_get(base.skip(1), "attributes"@) is None);
        assert(entries_get(base, "attributes"@) is None);
        assert(entries_get(base.skip(1).skip(1), "relationships"@) is None);
        assert(entries_get(base.skip(1), "relationships"@) is None);
        assert(entries_get(base, "relationships"@) is None);
        assert(entries_get(base.skip(1).skip(1), "links"@) is None);
        assert(entries_get(base.skip(1), "links"@) is None);
        assert(entries_get(base, "links"@) is None);
        assert(entries_get(base.skip(1).skip(1), "meta"@) is None);
        assert(entries_get(base.skip(1), "meta"@) is None);
        assert(entries_get(base, "meta"@) is None);
        lemma_opt_entry_get("attributes"@, spec_attributes_field(v), "id"@);
        lemma_opt_entry_get("attributes"@, spec_attributes_field(v), "type"@);
        lemma_opt_entry_get("attributes"@, spec_attributes_field(v), "attributes"@);
        lemma_opt_entry_get("attributes"@, spec_attributes_field(v), "relationships"@);
        lemma_opt_entry_get("attributes"@, spec_attributes_field(v), "links"@);
        lemma_opt_entry_get("attributes"@, spec_attributes_field(v), "meta"@);
        lemma_opt_entry_get("relationships"@, spec_relationships_field(v), "id"@);
        lemma_opt_entry_get("relationships"@, spec_relationships_field(v), "type"@);
        lemma_opt_entry_get("relationships"@, spec_relationships_field(v), "attributes"@);
        lemma_opt_entry_get("relationships"@, spec_relationships_field(v), "relationships"@);
        lemma_opt_entry_get("relationships"@, spec_relationships_field(v), "links"@);
        lemma_opt_entry_get("relationships"@, spec_relationships_field(v), "meta"@);
        lemma_opt_entry_get("links"@, spec_links_field(v), "id"@);
        lemma_opt_entry_get("links"@, spec_links_field(v), "type"@);
        lemma_opt_entry_get("links"@, spec_links_field(v), "attributes"@);
        lemma_opt_entry_get("links"@, spec_links_field(v), "relationships"@);
        lemma_opt_entry_get("links"@, spec_links_field(v), "links"@);
        lemma_opt_entry_get("links"@, spec_links_field(v), "meta"@);
        lemma_opt_entry_get("meta"@, spec_meta_field(v), "id"@);
        lemma_opt_entry_get("meta"@, spec_meta_field(v), "type"@);
        lemma_opt_entry_get("meta"@, spec_meta_field(v), "attributes"@);
        lemma_opt_entry_get("meta"@, spec_meta_field(v), "relationships"@);
        lemma_opt_entry_get("meta"@, spec_meta_field(v), "links"@);
        lemma_opt_entry_get("meta"@, spec_meta_field(v), "meta"@);
        match v.relationships {
            Option::Some(rs) => {
                lemma_smap_codec_roundtrip::<Relationship>(rs);
            },
            Option::None => {},
        }
        match v.links {
            Option::Some(ls) => {
                lemma_smap_codec_roundtrip::<Link>(ls);
            },
            Option::None => {},
        }
    }
}

/// The generic object an identifier widens to: no attributes, relationships
/// or links.
pub open spec fn spec_generic_of_identifier(v: IdentifierV) -> GenericObjectV {
    GenericObjectV {
        id: v.id,
        kind: v.kind,
        attributes: None,
        relationships: None,
        links: None,
        meta: v.meta,
    }
}

impl GenericObject {
    /// Downgrades a typed resource, consuming it; this cannot fail: the
    /// attribute value is flattened to a mapping standing for the same
    /// data, the attribute type's tag is stored, and every other field
    /// moves across unchanged.
    pub fn from_resource<A: Attributes>(ro: ResourceObject<A>) -> (r: Self)
        ensures
            crate::object::resource::downgrade_rel::<A>(ro@, r@),
    {
        GenericObject {
            id: ro.id,
            kind: A::kind(),
            attributes: match ro.attributes {
                Option::Some(a) => Some(a.to_map()),
                Option::None => None,
            },
            relationships: ro.relationships,
            links: ro.links,
            meta: ro.meta,
        }
    }

    /// Downgrades a typed resource, copying it; this cannot fail.
    pub fn from_resource_ref<A: Attributes>(ro: &ResourceObject<A>) -> (r: Self)
        ensures
            crate::object::resource::downgrade_rel::<A>(ro@, r@),
    {
        GenericObject {
            id: ro.id.clone(),
            kind: A::kind(),
            attributes: match &ro.attributes {
                Option::Some(a) => Some(a.to_map()),
                Option::None => None,
            },
            relationships: match &ro.relationships {
                Option::Some(x) => Some(x.deep_clone()),
                Option::None => None,
            },
            links: match &ro.links {
                Option::Some(x) => Some(x.deep_clone()),
                Option::None => None,
            },
            meta: match &ro.meta {
                Option::Some(m) => Some(m.deep_clone()),
                Option::None => None,
            },
        }
    }

    /// Widens an identifier, consuming it; this cannot fail.
    pub fn from_identifier(idf: Identifier) -> (r: Self)
        ensures
            r@ == spec_generic_of_identifier(idf@),
    {
        GenericObject {
            id: idf.id,
            kind: idf.kind,
            attributes: None,
            relationships: None,
            links: None,
            meta: idf.meta,
        }
    }

    /// Widens an identifier, copying it; this cannot fail.
    pub fn from_identifier_ref(idf: &Identifier) -> (r: Self)
        ensures
            r@ == spec_generic_of_identifier(idf@),
    {
        Self::from_identifier(idf.deep_clone())
    }
}

/// A generic object never encodes to `null`: its wire form is always an
/// object.
pub proof fn lemma_generic_enc_not_null(x: GenericObjectV)
    ensures
        GenericObject::spec_enc(x) != ValueV::Null,
        GenericObject::spec_enc(x) is Obj,
{
}

/// A generic object never decodes from an array.
pub proof fn lemma_generic_dec_no_arr(ws: Seq<ValueV>)
    ensures
        GenericObject::spec_dec(ValueV::Arr(ws)) is None,
{
}

} // verus!
