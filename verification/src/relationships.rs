//! Relationship objects: the links, data and metadata a resource uses to
//! point at other resources.

use vstd::prelude::*;
use crate::links::{Link, LinkV, Links};
use crate::meta::Meta;
use crate::object::identifier::{
    Identifier, IdentifierV, lemma_identifier_enc_not_null, lemma_identifier_dec_no_arr,
};
use crate::optional_vec::{
    OptionalVec, OptionalVecV, spec_enc_field, dec_card_field, lemma_field_roundtrip,
};
use crate::string_map::{StringMap, entries_get};
use crate::value::{JsonValue, ValueV, EntriesV, obj_entries_view, lemma_view_obj};
use crate::codec::{
    JsonCodec, DeepClone, opt_entry, opt_view, dec_opt_obj, dec_opt_map, obj_get, encode_smap,
    decode_obj_map, smap_enc, lemma_opt_entry_get, lemma_entries_get_concat,
    lemma_smap_dec_value_identity, lemma_smap_codec_roundtrip,
};

verus! {

/// A set of relationships, keyed by relationship name.
pub type Relationships = StringMap<Relationship>;

/// A relationship: links, the identifiers of the related resources, and
/// metadata.
#[derive(Debug, PartialEq)]
pub struct Relationship {
    /// Links about the relationship itself.
    pub links: Option<Links>,
    /// The objects this relationship links to.
    pub data: OptionalVec<Identifier>,
    /// Non-standard meta information.
    pub meta: Option<Meta>,
}

/// The specification-level value of a relationship.
pub struct RelationshipV {
    pub links: Option<Seq<(Seq<char>, LinkV)>>,
    pub data: OptionalVecV<IdentifierV>,
    pub meta: Option<EntriesV>,
}

impl View for Relationship {
    type V = RelationshipV;

    open spec fn view(&self) -> RelationshipV {
        RelationshipV {
            links: opt_view(self.links),
            data: self.data@,
            meta: opt_view(self.meta),
        }
    }
}

/// Defaults to the relationship with every field absent.
impl Default for Relationship {
    fn default() -> (r: Self)
        ensures
            r@ == (RelationshipV {
                links: None,
                data: OptionalVecV::NotPresent,
                meta: None,
            }),
    {
        Relationship { links: None, data: OptionalVec::NotPresent, meta: None }
    }
}

impl DeepClone for Relationship {
    fn deep_clone(&self) -> (r: Self) {
        Relationship {
            links: match &self.links {
                Option::Some(l) => Some(l.deep_clone()),
                Option::None => None,
            },
            data: self.data.deep_clone(),
            meta: match &self.meta {
                Option::Some(m) => Some(m.deep_clone()),
                Option::None => None,
            },
        }
    }
}

impl JsonCodec for Relationship {
    open spec fn spec_enc(v: RelationshipV) -> ValueV {
        ValueV::Obj(
            opt_entry("links"@, spec_links_field(v)) + opt_entry(
                "data"@,
                spec_enc_field::<Identifier>(v.data),
            ) + opt_entry("meta"@, spec_meta_field(v)),
        )
    }

    open spec fn spec_dec(w: ValueV) -> Option<RelationshipV> {
        match w {
            ValueV::Obj(es) => match (
                dec_opt_map::<Link>(entries_get(es, "links"@)),
                dec_card_field::<Identifier>(entries_get(es, "data"@)),
                dec_opt_obj(entries_get(es, "meta"@)),
            ) {
                (Option::Some(links), Option::Some(data), Option::Some(meta)) => Some(
                    RelationshipV { links, data, meta },
                ),
                _ => None,
            },
            _ => None,
        }
    }

    fn encode(&self) -> (r: JsonValue) {
        let mut out: Vec<(String, JsonValue)> = Vec::new();
        if let Some(ls) = &self.links {
            out.push(("links".to_owned(), encode_smap::<Link>(ls)));
        }
        match self.data.encode_field() {
            Option::Some(w) => {
                out.push(("data".to_owned(), w));
            },
            Option::None => {},
        }
        if let Some(m) = &self.meta {
            let enc = encode_smap::<JsonValue>(m);
            proof {
                assert(smap_enc::<JsonValue>(m@) =~= m@);
            }
            out.push(("meta".to_owned(), enc));
        }
        proof {
            lemma_view_obj(out);
            assert(obj_entries_view(out@) =~= Self::spec_enc(self@)->Obj_0);
        }
        JsonValue::Obj(out)
    }

    fn decode(v: &JsonValue) -> (r: Option<Relationship>) {
        match v {
            JsonValue::Obj(entries) => {
                proof {
                    lemma_view_obj(*entries);
                }
                let links: Option<Links> = match obj_get(entries, "links") {
                    Option::None => None,
                    Option::Some(JsonValue::Obj(les)) => {
                        proof {
                            lemma_view_obj(*les);
                        }
                        match decode_obj_map::<Link>(les) {
                            Option::Some(ls) => Some(ls),
                            Option::None => {
                                return None;
                            },
                        }
                    },
                    Option::Some(_) => {
                        return None;
                    },
                };
                let data: OptionalVec<Identifier> = match obj_get(entries, "data") {
                    Option::None => OptionalVec::NotPresent,
                    Option::Some(w) => match OptionalVec::<Identifier>::decode_field(w) {
                        Option::Some(d) => d,
                        Option::None => {
                            return None;
                        },
                    },
                };
                let meta: Option<Meta> = match obj_get(entries, "meta") {
                    Option::None => None,
                    Option::Some(JsonValue::Obj(mes)) => {
                        proof {
                            lemma_view_obj(*mes);
                            lemma_smap_dec_value_identity(obj_entries_view(mes@));
                        }
                        match decode_obj_map::<JsonValue>(mes) {
                            Option::Some(m) => Some(m),
                            Option::None => {
                                return None;
                            },
                        }
                    },
                    Option::Some(_) => {
                        return None;
                    },
                };
                Some(Relationship { links, data, meta })
            },
            _ => None,
        }
    }

    proof fn lemma_codec_roundtrip(v: RelationshipV) {
        reveal_strlit("links");
        reveal_strlit("data");
        reveal_strlit("meta");
        assert("links"@[0] == 'l' && "data"@[0] == 'd' && "meta"@[0] == 'm');
        assert("links"@ != "data"@ && "links"@ != "meta"@ && "data"@ != "meta"@);
        let e1 = opt_entry("links"@, spec_links_field(v));
        let e2 = opt_entry("data"@, spec_enc_field::<Identifier>(v.data));
        let e3 = opt_entry("meta"@, spec_meta_field(v));
        let es = Self::spec_enc(v)->Obj_0;
        assert(es == e1 + e2 + e3);
        lemma_entries_get_concat(e1 + e2, e3, "links"@);
        lemma_entries_get_concat(e1, e2, "links"@);
        lemma_opt_entry_get("links"@, spec_links_field(v), "links"@);
        lemma_opt_entry_get("data"@, spec_enc_field::<Identifier>(v.data), "links"@);
        lemma_opt_entry_get("meta"@, spec_meta_field(v), "links"@);
        lemma_entries_get_concat(e1 + e2, e3, "data"@);
        lemma_entries_get_concat(e1, e2, "data"@);
        lemma_opt_entry_get("links"@, spec_links_field(v), "data"@);
        lemma_opt_entry_get("data"@, spec_enc_field::<Identifier>(v.data), "data"@);
        lemma_opt_entry_get("meta"@, spec_meta_field(v), "data"@);
        lemma_entries_get_concat(e1 + e2, e3, "meta"@);
        lemma_entries_get_concat(e1, e2, "meta"@);
        lemma_opt_entry_get("links"@, spec_links_field(v), "meta"@);
        lemma_opt_entry_get("data"@, spec_enc_field::<Identifier>(v.data), "meta"@);
        lemma_opt_entry_get("meta"@, spec_meta_field(v), "meta"@);
        match v.links {
            Option::Some(ls) => {
                lemma_smap_codec_roundtrip::<Link>(ls);
            },
            Option::None => {},
        }
        assert forall|x: IdentifierV| Identifier::spec_enc(x) != ValueV::Null by {
            lemma_identifier_enc_not_null(x);
        }
        assert forall|ws: Seq<ValueV>| Identifier::spec_dec(ValueV::Arr(ws)) is None by {
            lemma_identifier_dec_no_arr(ws);
        }
        lemma_field_roundtrip::<Identifier>(v.data);
    }
}

/// Law: a relationship with every field absent encodes to the empty
/// object, whose text is exactly the two bytes `{}`.
pub proof fn lemma_empty_relationship_encodes_empty()
    ensures
        Relationship::spec_enc(
            RelationshipV { links: None, data: OptionalVecV::NotPresent, meta: None },
        ) == ValueV::Obj(Seq::empty()),
        crate::text::text_of(
            Relationship::spec_enc(
                RelationshipV { links: None, data: OptionalVecV::NotPresent, meta: None },
            ),
        ) == seq![0x7b as u8, 0x7d as u8],
{
    let v = RelationshipV { links: None, data: OptionalVecV::NotPresent, meta: None };
    assert(Relationship::spec_enc(v)->Obj_0 =~= Seq::<(Seq<char>, ValueV)>::empty());
}

/// The wire payload of a relationship's `links` field.
pub open spec fn spec_links_field(v: RelationshipV) -> Option<ValueV> {
    match v.links {
        Option::Some(ls) => Some(ValueV::Obj(smap_enc::<Link>(ls))),
        Option::None => None,
    }
}

/// The wire payload of a relationship's `meta` field.
pub open spec fn spec_meta_field(v: RelationshipV) -> Option<ValueV> {
    match v.meta {
        Option::Some(es) => Some(ValueV::Obj(es)),
        Option::None => None,
    }
}

} // verus!
