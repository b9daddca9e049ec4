//! The minimal identity of a resource: its id, its type tag, and optional
//! metadata.

use vstd::prelude::*;
use crate::meta::Meta;
use crate::string_map::entries_get;
use crate::value::{JsonValue, ValueV, obj_entries_view, lemma_view_obj};
use crate::codec::{
    JsonCodec, DeepClone, opt_entry, opt_view, dec_opt_obj, obj_get, encode_smap, smap_enc,
    decode_obj_map, lemma_smap_dec_value_identity,
};

verus! {

/// The (id, type-tag, metadata) triple that addresses a resource without
/// carrying its attributes.
#[derive(Debug, PartialEq)]
pub struct Identifier {
    pub id: String,
    pub kind: String,
    pub meta: Option<Meta>,
}

/// The specification-level value of an identifier.
pub struct IdentifierV {
    pub id: Seq<char>,
    pub kind: Seq<char>,
    pub meta: Option<crate::value::EntriesV>,
}

impl View for Identifier {
    type V = IdentifierV;

    open spec fn view(&self) -> IdentifierV {
        IdentifierV { id: self.id@, kind: self.kind@, meta: opt_view(self.meta) }
    }
}

impl Identifier {
    /// An identifier with the given id and type tag and no metadata.
    pub fn new(id: String, kind: String) -> (r: Self)
        ensures
            r@ == (IdentifierV { id: id@, kind: kind@, meta: None }),
    {
        Identifier { id, kind, meta: None }
    }
}

impl DeepClone for Identifier {
    fn deep_clone(&self) -> (r: Self) {
        Identifier {
            id: self.id.clone(),
            kind: self.kind.clone(),
            meta: match &self.meta {
                Option::Some(m) => Some(m.deep_clone()),
                Option::None => None,
            },
        }
    }
}

impl JsonCodec for Identifier {
    open spec fn spec_enc(v: IdentifierV) -> ValueV {
        ValueV::Obj(
            seq![("id"@, ValueV::Str(v.id)), ("type"@, ValueV::Str(v.kind))] + opt_entry(
                "meta"@,
                match v.meta {
                    Option::Some(es) => Some(ValueV::Obj(es)),
                    Option::None => None,
                },
            ),
        )
    }

    open spec fn spec_dec(w: ValueV) -> Option<IdentifierV> {
        match w {
            ValueV::Obj(es) => match (entries_get(es, "id"@), entries_get(es, "type"@)) {
                (Option::Some(ValueV::Str(id)), Option::Some(ValueV::Str(kind))) => match dec_opt_obj(
                    entries_get(es, "meta"@),
                ) {
                    Option::Some(meta) => Some(IdentifierV { id, kind, meta }),
                    Option::None => None,
                },
                _ => None,
            },
            _ => None,
        }
    }

    fn encode(&self) -> (r: JsonValue) {
        let mut out: Vec<(String, JsonValue)> = Vec::new();
        out.push(("id".to_owned(), JsonValue::Str(self.id.clone())));
        out.push(("type".to_owned(), JsonValue::Str(self.kind.clone())));
        if let Some(m) = &self.meta {
            let enc = encode_smap::<JsonValue>(m);
            proof {
                assert(smap_enc::<JsonValue>(m@) =~= m@);
            }
            out.push(("meta".to_owned(), enc));
        }
        proof {
            lemma_view_obj(out);
            assert(obj_entries_view(out@) =~= Self::spec_enc(self@)->Obj_0);
        }
        JsonValue::Obj(out)
    }

    fn decode(v: &JsonValue) -> (r: Option<Identifier>) {
        match v {
            JsonValue::Obj(entries) => {
                proof {
                    lemma_view_obj(*entries);
                }
                let id = match obj_get(entries, "id") {
                    Option::Some(JsonValue::Str(s)) => s.clone(),
                    _ => {
                        return None;
                    },
                };
                let kind = match obj_get(entries, "type") {
                    Option::Some(JsonValue::Str(s)) => s.clone(),
                    _ => {
                        return None;
                    },
                };
                let meta: Option<Meta> = match obj_get(entries, "meta") {
                    Option::None => None,
                    Option::Some(JsonValue::Obj(mes)) => {
                        proof {
                            lemma_view_obj(*mes);
                            lemma_smap_dec_value_identity(obj_entries_view(mes@));
                        }
                        match decode_obj_map::<JsonValue>(mes) {
                            Option::Some(m) => Some(m),
                            Option::None => {
                                return None;
                            },
                        }
                    },
                    Option::Some(_) => {
                        return None;
                    },
                };
                Some(Identifier { id, kind, meta })
            },
            _ => None,
        }
    }

    proof fn lemma_codec_roundtrip(v: IdentifierV) {
        reveal_strlit("id");
        reveal_strlit("type");
        reveal_strlit("meta");
        assert("id"@[0] == 'i' && "type"@[0] == 't' && "meta"@[0] == 'm');
        assert("id"@ != "type"@ && "id"@ != "meta"@ && "type"@ != "meta"@);
        let es = Self::spec_enc(v)->Obj_0;
        assert(entries_get(es, "id"@) == Some(ValueV::Str(v.id)));
        assert(entries_get(es.skip(1), "type"@) == Some(ValueV::Str(v.kind)));
        assert(entries_get(es, "type"@) == Some(ValueV::Str(v.kind)));
        match v.meta {
            Option::Some(m) => {
                assert(es =~= seq![
                    ("id"@, ValueV::Str(v.id)),
                    ("type"@, ValueV::Str(v.kind)),
                    ("meta"@, ValueV::Obj(m)),
                ]);
                assert(entries_get(es.skip(1).skip(1), "meta"@) == Some(ValueV::Obj(m)));
                assert(entries_get(es.skip(1), "meta"@) == Some(ValueV::Obj(m)));
                assert(entries_get(es, "meta"@) == Some(ValueV::Obj(m)));
            },
            Option::None => {
                assert(es =~= seq![("id"@, ValueV::Str(v.id)), ("type"@, ValueV::Str(v.kind))]);
                assert(entries_get(es.skip(1).skip(1), "meta"@) is None);
                assert(entries_get(es.skip(1), "meta"@) is None);
                assert(entries_get(es, "meta"@) is None);
            },
        }
    }
}

/// The identity a generic object shrinks to: attributes, relationships and
/// links are discarded.
pub open spec fn spec_identifier_of_generic(g: crate::object::generic::GenericObjectV) -> IdentifierV {
    IdentifierV { id: g.id, kind: g.kind, meta: g.meta }
}

/// The identity a typed resource shrinks to: the tag is the attribute
/// type's.
pub open spec fn spec_identifier_of_resource<A: crate::object::resource::Attributes>(
    r: crate::object::resource::ResourceObjectV<A>,
) -> IdentifierV {
    IdentifierV { id: r.id, kind: A::spec_kind(), meta: r.meta }
}

impl Identifier {
    /// Shrinks a generic object to its identity, consuming it.
    pub fn from_generic(go: crate::object::generic::GenericObject) -> (r: Self)
        ensures
            r@ == spec_identifier_of_generic(go@),
    {
        Identifier { id: go.id, kind: go.kind, meta: go.meta }
    }

    /// Shrinks a generic object to its identity, copying it.
    pub fn from_generic_ref(go: &crate::object::generic::GenericObject) -> (r: Self)
        ensures
            r@ == spec_identifier_of_generic(go@),
    {
        Identifier {
            id: go.id.clone(),
            kind: go.kind.clone(),
            meta: match &go.meta {
                Option::Some(m) => Some(m.deep_clone()),
                Option::None => None,
            },
        }
    }

    /// Shrinks a typed resource to its identity, consuming it.
    pub fn from_resource<A: crate::object::resource::Attributes>(
        ro: crate::object::resource::ResourceObject<A>,
    ) -> (r: Self)
        ensures
            r@ == spec_identifier_of_resource::<A>(ro@),
    {
        Identifier { id: ro.id, kind: A::kind(), meta: ro.meta }
    }

    /// Shrinks a typed resource to its identity, copying it.
    pub fn from_resource_ref<A: crate::object::resource::Attributes>(
        ro: &crate::object::resource::ResourceObject<A>,
    ) -> (r: Self)
        ensures
            r@ == spec_identifier_of_resource::<A>(ro@),
    {
        Identifier {
            id: ro.id.clone(),
            kind: A::kind(),
            meta: match &ro.meta {
                Option::Some(m) => Some(m.deep_clone()),
                Option::None => None,
            },
        }
    }
}

/// An identifier never encodes to `null`: its wire form is always an object.
pub proof fn lemma_identifier_enc_not_null(x: IdentifierV)
    ensures
        Identifier::spec_enc(x) != ValueV::Null,
        Identifier::spec_enc(x) is Obj,
{
}

/// An identifier never decodes from an array.
pub proof fn lemma_identifier_dec_no_arr(ws: Seq<ValueV>)
    ensures
        Identifier::spec_dec(ValueV::Arr(ws)) is None,
{
}

} // verus!
