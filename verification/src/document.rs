//! The object at the root of every message: primary data, errors, metadata,
//! version information, links, and included resources.

use vstd::prelude::*;
use crate::error::{Error, ErrorV};
use crate::jsonapi::{JsonApi, JsonApiV};
use crate::links::{Link, LinkV, Links};
use crate::meta::Meta;
use crate::object::generic::{
    GenericObject, GenericObjectV, lemma_generic_enc_not_null, lemma_generic_dec_no_arr,
};
use crate::optional_vec::{
    OptionalVec, OptionalVecV, spec_enc_field, dec_card_field, lemma_field_roundtrip,
};
use crate::string_map::entries_get;
use crate::value::{JsonValue, ValueV, EntriesV, elems_view, obj_entries_view, lemma_view_arr,
    lemma_view_obj};
use crate::codec::{
    JsonCodec, DeepClone, opt_entry, opt_view, dec_opt_obj, dec_opt_map, dec_opt_codec,
    dec_opt_arr, obj_get, encode_smap, decode_obj_map, encode_vec, decode_vec, smap_enc, seq_enc,
    views_of, lemma_opt_entry_get, lemma_entries_get_concat, lemma_smap_dec_value_identity,
    lemma_smap_codec_roundtrip, lemma_seq_codec_roundtrip,
};

verus! {

/// The top-level document: for validity it must contain at least one of
/// `data`, `errors`, or `meta`; this container only stores them.
#[derive(Debug, PartialEq)]
pub struct Document {
    /// The document's primary data.
    pub data: OptionalVec<GenericObject>,
    /// Any errors that were encountered.
    pub errors: Option<Vec<Error>>,
    /// Non-standard meta information.
    pub meta: Option<Meta>,
    /// Information about the version of the format being used.
    pub jsonapi: Option<JsonApi>,
    /// Links related to the primary data.
    pub links: Option<Links>,
    /// Included resources related to the primary data or each other.
    pub included: Option<Vec<GenericObject>>,
}

/// The specification-level value of a document.
pub struct DocumentV {
    pub data: OptionalVecV<GenericObjectV>,
    pub errors: Option<Seq<ErrorV>>,
    pub meta: Option<EntriesV>,
    pub jsonapi: Option<JsonApiV>,
    pub links: Option<Seq<(Seq<char>, LinkV)>>,
    pub included: Option<Seq<GenericObjectV>>,
}

impl View for Document {
    type V = DocumentV;

    open spec fn view(&self) -> DocumentV {
        DocumentV {
            data: self.data@,
            errors: match self.errors {
                Option::Some(ref es) => Some(views_of(es@)),
                Option::None => None,
            },
            meta: opt_view(self.meta),
            jsonapi: opt_view(self.jsonapi),
            links: opt_view(self.links),
            included: match self.included {
                Option::Some(ref gs) => Some(views_of(gs@)),
                Option::None => None,
            },
        }
    }
}

/// The document value with every field absent.
pub open spec fn spec_document_empty() -> DocumentV {
    DocumentV {
        data: OptionalVecV::NotPresent,
        errors: None,
        meta: None,
        jsonapi: None,
        links: None,
        included: None,
    }
}

/// Defaults to the document with every field absent.
impl Default for Document {
    fn default() -> (r: Self)
        ensures
            r@ == spec_document_empty(),
    {
        Document {
            data: OptionalVec::NotPresent,
            errors: None,
            meta: None,
            jsonapi: None,
            links: None,
            included: None,
        }
    }
}

/// The wire payload of a document's `errors` field.
pub open spec fn spec_errors_field(v: DocumentV) -> Option<ValueV> {
    match v.errors {
        Option::Some(es) => Some(ValueV::Arr(seq_enc::<Error>(es))),
        Option::None => None,
    }
}

/// The wire payload of a document's `meta` field.
pub open spec fn spec_doc_meta_field(v: DocumentV) -> Option<ValueV> {
    match v.meta {
        Option::Some(es) => Some(ValueV::Obj(es)),
        Option::None => None,
    }
}

/// The wire payload of a document's `jsonapi` field.
pub open spec fn spec_jsonapi_field(v: DocumentV) -> Option<ValueV> {
    match v.jsonapi {
        Option::Some(j) => Some(JsonApi::spec_enc(j)),
        Option::None => None,
    }
}

/// The wire payload of a document's `links` field.
pub open spec fn spec_doc_links_field(v: DocumentV) -> Option<ValueV> {
    match v.links {
        Option::Some(ls) => Some(ValueV::Obj(smap_enc::<Link>(ls))),
        Option::None => None,
    }
}

/// The wire payload of a document's `included` field.
pub open spec fn spec_included_field(v: DocumentV) -> Option<ValueV> {
    match v.included {
        Option::Some(gs) => Some(ValueV::Arr(seq_enc::<GenericObject>(gs))),
        Option::None => None,
    }
}

impl JsonCodec for Document {
    open spec fn spec_enc(v: DocumentV) -> ValueV {
        ValueV::Obj(
            opt_entry("data"@, spec_enc_field::<GenericObject>(v.data)) + opt_entry(
                "errors"@,
                spec_errors_field(v),
            ) + opt_entry("meta"@, spec_doc_meta_field(v)) + opt_entry(
                "jsonapi"@,
                spec_jsonapi_field(v),
            ) + opt_entry("links"@, spec_doc_links_field(v)) + opt_entry(
                "included"@,
                spec_included_field(v),
            ),
        )
    }

    open spec fn spec_dec(w: ValueV) -> Option<DocumentV> {
        match w {
            ValueV::Obj(es) => match (
                dec_card_field::<GenericObject>(entries_get(es, "data"@)),
                dec_opt_arr::<Error>(entries_get(es, "errors"@)),
                dec_opt_obj(entries_get(es, "meta"@)),
                dec_opt_codec::<JsonApi>(entries_get(es, "jsonapi"@)),
                dec_opt_map::<Link>(entries_get(es, "links"@)),
                dec_opt_arr::<GenericObject>(entries_get(es, "included"@)),
            ) {
                (
                    Option::Some(data),
                    Option::Some(errors),
                    Option::Some(meta),
                    Option::Some(jsonapi),
                    Option::Some(links),
                    Option::Some(included),
                ) => Some(DocumentV { data, errors, meta, jsonapi, links, included }),
                _ => None,
            },
            _ => None,
        }
    }

    #[verifier::rlimit(80)]
    fn encode(&self) -> (r: JsonValue) {
        let mut out: Vec<(String, JsonValue)> = Vec::new();
        match self.data.encode_field() {
            Option::Some(w) => {
                out.push(("data".to_owned(), w));
            },
            Option::None => {},
        }
        if let Some(es) = &self.errors {
            let items = encode_vec::<Error>(es);
            proof {
                lemma_view_arr(items);
            }
            out.push(("errors".to_owned(), JsonValue::Arr(items)));
        }
        if let Some(m) = &self.meta {
            let enc = encode_smap::<JsonValue>(m);
            proof {
                assert(smap_enc::<JsonValue>(m@) =~= m@);
            }
            out.push(("meta".to_owned(), enc));
        }
        if let Some(j) = &self.jsonapi {
            out.push(("jsonapi".to_owned(), j.encode()));
        }
        if let Some(ls) = &self.links {
            out.push(("links".to_owned(), encode_smap::<Link>(ls)));
        }
        if let Some(gs) = &self.included {
            let items = encode_vec::<GenericObject>(gs);
            proof {
                lemma_view_arr(items);
            }
            out.push(("included".to_owned(), JsonValue::Arr(items)));
        }
        proof {
            lemma_view_obj(out);
            assert(obj_entries_view(out@) =~= Self::spec_enc(self@)->Obj_0);
        }
        JsonValue::Obj(out)
    }

    fn decode(v: &JsonValue) -> (r: Option<Document>) {
        match v {
            JsonValue::Obj(entries) => {
                proof {
                    lemma_view_obj(*entries);
                }
                let data: OptionalVec<GenericObject> = match obj_get(entries, "data") {
                    Option::None => OptionalVec::NotPresent,
                    Option::Some(w) => match OptionalVec::<GenericObject>::decode_field(w) {
                        Option::Some(d) => d,
                        Option::None => {
                            return None;
                        },
                    },
                };
                let errors: Option<Vec<Error>> = match obj_get(entries, "errors") {
                    Option::None => None,
                    Option::Some(JsonValue::Arr(ws)) => {
                        proof {
                            lemma_view_arr(*ws);
                        }
                        match decode_vec::<Error>(ws) {
                            Option::Some(es) => Some(es),
                            Option::None => {
                                return None;
                            },
                        }
                    },
                    Option::Some(_) => {
                        return None;
                    },
                };
                let meta: Option<Meta> = match obj_get(entries, "meta") {
                    Option::None => None,
                    Option::Some(JsonValue::Obj(mes)) => {
                        proof {
                            lemma_view_obj(*mes);
                            lemma_smap_dec_value_identity(obj_entries_view(mes@));
                        }
                        match decode_obj_map::<JsonValue>(mes) {
                            Option::Some(m) => Some(m),
                            Option::None => {
                                return None;
                            },
                        }
                    },
                    Option::Some(_) => {
                        return None;
                    },
                };
                let jsonapi: Option<JsonApi> = match obj_get(entries, "jsonapi") {
                    Option::None => None,
                    Option::Some(w) => match JsonApi::decode(w) {
                        Option::Some(j) => Some(j),
                        Option::None => {
                            return None;
                        },
                    },
                };
                let links: Option<Links> = match obj_get(entries, "links") {
                    Option::None => None,
                    Option::Some(JsonValue::Obj(les)) => {
                        proof {
                            lemma_view_obj(*les);
                        }
                        match decode_obj_map::<Link>(les) {
                            Option::Some(ls) => Some(ls),
                            Option::None => {
                                return None;
                            },
                        }
                    },
                    Option::Some(_) => {
                        return None;
                    },
                };
                let included: Option<Vec<GenericObject>> = match obj_get(entries, "included") {
                    Option::None => None,
                    Option::Some(JsonValue::Arr(ws)) => {
                        proof {
                            lemma_view_arr(*ws);
                        }
                        match decode_vec::<GenericObject>(ws) {
                            Option::Some(gs) => Some(gs),
                            Option::None => {
                                return None;
                            },
                        }
                    },
                    Option::Some(_) => {
                        return None;
                    },
                };
                Some(Document { data, errors, meta, jsonapi, links, included })
            },
            _ => None,
        }
    }

    #[verifier::rlimit(80)]
    proof fn lemma_codec_roundtrip(v: DocumentV) {
        reveal_strlit("data");
        reveal_strlit("errors");
        reveal_strlit("meta");
        reveal_strlit("jsonapi");
        reveal_strlit("links");
        reveal_strlit("included");
        assert("data"@[0] == 'd' && "errors"@[0] == 'e' && "meta"@[0] == 'm' && "jsonapi"@[0]
            == 'j' && "links"@[0] == 'l' && "included"@[0] == 'i');
        let e1 = opt_entry("data"@, spec_enc_field::<GenericObject>(v.data));
        let e2 = opt_entry("errors"@, spec_errors_field(v));
        let e3 = opt_entry("meta"@, spec_doc_meta_field(v));
        let e4 = opt_entry("jsonapi"@, spec_jsonapi_field(v));
        let e5 = opt_entry("links"@, spec_doc_links_field(v));
        let e6 = opt_entry("included"@, spec_included_field(v));
        let es = Self::spec_enc(v)->Obj_0;
        assert(es == e1 + e2 + e3 + e4 + e5 + e6);
        lemma_entries_get_concat(e1 + e2 + e3 + e4 + e5, e6, "data"@);
        lemma_entries_get_concat(e1 + e2 + e3 + e4, e5, "data"@);
        lemma_entries_get_concat(e1 + e2 + e3, e4, "data"@);
        lemma_entries_get_concat(e1 + e2, e3, "data"@);
        lemma_entries_get_concat(e1, e2, "data"@);
        lemma_entries_get_concat(e1 + e2 + e3 + e4 + e5, e6, "errors"@);
        lemma_entries_get_concat(e1 + e2 + e3 + e4, e5, "errors"@);
        lemma_entries_get_concat(e1 + e2 + e3, e4, "errors"@);
        lemma_entries_get_concat(e1 + e2, e3, "errors"@);
        lemma_entries_get_concat(e1, e2, "errors"@);
        lemma_entries_get_concat(e1 + e2 + e3 + e4 + e5, e6, "meta"@);
        lemma_entries_get_concat(e1 + e2 + e3 + e4, e5, "meta"@);
        lemma_entries_get_concat(e1 + e2 + e3, e4, "meta"@);
        lemma_entries_get_concat(e1 + e2, e3, "meta"@);
        lemma_entries_get_concat(e1, e2, "meta"@);
        lemma_entries_get_concat(e1 + e2 + e3 + e4 + e5, e6, "jsonapi"@);
        lemma_entries_get_concat(e1 + e2 + e3 + e4, e5, "jsonapi"@);
        lemma_entries_get_concat(e1 + e2 + e3, e4, "jsonapi"@);
        lemma_entries_get_concat(e1 + e2, e3, "jsonapi"@);
        lemma_entries_get_concat(e1, e2, "jsonapi"@);
        lemma_entries_get_concat(e1 + e2 + e3 + e4 + e5, e6, "links"@);
        lemma_entries_get_concat(e1 + e2 + e3 + e4, e5, "links"@);
        lemma_entries_get_concat(e1 + e2 + e3, e4, "links"@);
        lemma_entries_get_concat(e1 + e2, e3, "links"@);
        lemma_entries_get_concat(e1, e2, "links"@);
        lemma_entries_get_concat(e1 + e2 + e3 + e4 + e5, e6, "included"@);
        lemma_entries_get_concat(e1 + e2 + e3 + e4, e5, "included"@);
        lemma_entries_get_concat(e1 + e2 + e3, e4, "included"@);
        lemma_entries_get_concat(e1 + e2, e3, "included"@);
        lemma_entries_get_concat(e1, e2, "included"@);
        lemma_opt_entry_get("data"@, spec_enc_field::<GenericObject>(v.data), "data"@);
        lemma_opt_entry_get("data"@, spec_enc_field::<GenericObject>(v.data), "errors"@);
        lemma_opt_entry_get("data"@, spec_enc_field::<GenericObject>(v.data), "meta"@);
        lemma_opt_entry_get("data"@, spec_enc_field::<GenericObject>(v.data), "jsonapi"@);
        lemma_opt_entry_get("data"@, spec_enc_field::<GenericObject>(v.data), "links"@);
        lemma_opt_entry_get("data"@, spec_enc_field::<GenericObject>(v.data), "included"@);
        lemma_opt_entry_get("errors"@, spec_errors_field(v), "data"@);
        lemma_opt_entry_get("errors"@, spec_errors_field(v), "errors"@);
        lemma_opt_entry_get("errors"@, spec_errors_field(v), "meta"@);
        lemma_opt_entry_get("errors"@, spec_errors_field(v), "jsonapi"@);
        lemma_opt_entry_get("errors"@, spec_errors_field(v), "links"@);
        lemma_opt_entry_get("errors"@, spec_errors_field(v), "included"@);
        lemma_opt_entry_get("meta"@, spec_doc_meta_field(v), "data"@);
        lemma_opt_entry_get("meta"@, spec_doc_meta_field(v), "errors"@);
        lemma_opt_entry_get("meta"@, spec_doc_meta_field(v), "meta"@);
        lemma_opt_entry_get("meta"@, spec_doc_meta_field(v), "jsonapi"@);
        lemma_opt_entry_get("meta"@, spec_doc_meta_field(v), "links"@);
        lemma_opt_entry_get("meta"@, spec_doc_meta_field(v), "included"@);
        lemma_opt_entry_get("jsonapi"@, spec_jsonapi_field(v), "data"@);
        lemma_opt_entry_get("jsonapi"@, spec_jsonapi_field(v), "errors"@);
        lemma_opt_entry_get("jsonapi"@, spec_jsonapi_field(v), "meta"@);
        lemma_opt_entry_get("jsonapi"@, spec_jsonapi_field(v), "jsonapi"@);
        lemma_opt_entry_get("jsonapi"@, spec_jsonapi_field(v), "links"@);
        lemma_opt_entry_get("jsonapi"@, spec_jsonapi_field(v), "included"@);
        lemma_opt_entry_get("links"@, spec_doc_links_field(v), "data"@);
        lemma_opt_entry_get("links"@, spec_doc_links_field(v), "errors"@);
        lemma_opt_entry_get("links"@, spec_doc_links_field(v), "meta"@);
        lemma_opt_entry_get("links"@, spec_doc_links_field(v), "jsonapi"@);
        lemma_opt_entry_get("links"@, spec_doc_links_field(v), "links"@);
        lemma_opt_entry_get("links"@, spec_doc_links_field(v), "included"@);
        lemma_opt_entry_get("included"@, spec_included_field(v), "data"@);
        lemma_opt_entry_get("included"@, spec_included_field(v), "errors"@);
        lemma_opt_entry_get("included"@, spec_included_field(v), "meta"@);
        lemma_opt_entry_get("included"@, spec_included_field(v), "jsonapi"@);
        lemma_opt_entry_get("included"@, spec_included_field(v), "links"@);
        lemma_opt_entry_get("included"@, spec_included_field(v), "included"@);
        assert forall|x: GenericObjectV| GenericObject::spec_enc(x) != ValueV::Null by {
            lemma_generic_enc_not_null(x);
        }
        assert forall|ws: Seq<ValueV>| GenericObject::spec_dec(ValueV::Arr(ws)) is None by {
            lemma_generic_dec_no_arr(ws);
        }
        lemma_field_roundtrip::<GenericObject>(v.data);
        match v.errors {
            Option::Some(es) => {
                lemma_seq_codec_roundtrip::<Error>(es);
            },
            Option::None => {},
        }
        match v.jsonapi {
            Option::Some(j) => {
                JsonApi::lemma_codec_roundtrip(j);
            },
            Option::None => {},
        }
        match v.links {
            Option::Some(ls) => {
                lemma_smap_codec_roundtrip::<Link>(ls);
            },
            Option::None => {},
        }
        match v.included {
            Option::Some(gs) => {
                lemma_seq_codec_roundtrip::<GenericObject>(gs);
            },
            Option::None => {},
        }
    }
}

/// Law: a document with every field absent encodes to the empty object,
/// whose text is exactly the two bytes `{}`.
pub proof fn lemma_empty_document_encodes_empty()
    ensures
        Document::spec_enc(spec_document_empty()) == ValueV::Obj(Seq::empty()),
        crate::text::text_of(Document::spec_enc(spec_document_empty())) == seq![
            0x7b as u8,
            0x7d as u8,
        ],
{
    assert(Document::spec_enc(spec_document_empty())->Obj_0 =~= Seq::<(Seq<char>, ValueV)>::empty());
}

} // verus!
