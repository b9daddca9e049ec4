//! Information about the implementation of the format in use.

use vstd::prelude::*;
use crate::meta::Meta;
use crate::string_map::entries_get;
use crate::value::{JsonValue, ValueV, EntriesV, obj_entries_view, lemma_view_obj};
use crate::codec::{
    JsonCodec, DeepClone, opt_entry, opt_view, dec_opt_str, dec_opt_obj, obj_get, encode_smap,
    decode_obj_map, smap_enc, lemma_opt_entry_get, lemma_entries_get_concat,
    lemma_smap_dec_value_identity,
};

verus! {

/// The highest version of the format supported, and free-form metadata.
#[derive(Debug, PartialEq)]
pub struct JsonApi {
    /// The highest version supported.
    pub version: Option<String>,
    /// Non-standard meta information.
    pub meta: Option<Meta>,
}

/// The specification-level value of the version object.
pub struct JsonApiV {
    pub version: Option<Seq<char>>,
    pub meta: Option<EntriesV>,
}

impl View for JsonApi {
    type V = JsonApiV;

    open spec fn view(&self) -> JsonApiV {
        JsonApiV {
            version: match self.version {
                Option::Some(ref v) => Some(v@),
                Option::None => None,
            },
            meta: opt_view(self.meta),
        }
    }
}

/// Defaults to the version object with every field absent.
impl Default for JsonApi {
    fn default() -> (r: Self)
        ensures
            r@ == (JsonApiV { version: None, meta: None }),
    {
        JsonApi { version: None, meta: None }
    }
}

impl DeepClone for JsonApi {
    fn deep_clone(&self) -> (r: Self) {
        JsonApi {
            version: match &self.version {
                Option::Some(v) => Some(v.clone()),
                Option::None => None,
            },
            meta: match &self.meta {
                Option::Some(m) => Some(m.deep_clone()),
                Option::None => None,
            },
        }
    }
}

/// The wire payload of the version, when present.
pub open spec fn spec_version_field(v: JsonApiV) -> Option<ValueV> {
    match v.version {
        Option::Some(s) => Some(ValueV::Str(s)),
        Option::None => None,
    }
}

/// The wire payload of the metadata, when present.
pub open spec fn spec_meta_field(v: JsonApiV) -> Option<ValueV> {
    match v.meta {
        Option::Some(es) => Some(ValueV::Obj(es)),
        Option::None => None,
    }
}

impl JsonCodec for JsonApi {
    open spec fn spec_enc(v: JsonApiV) -> ValueV {
        ValueV::Obj(
            opt_entry("version"@, spec_version_field(v)) + opt_entry("meta"@, spec_meta_field(v)),
        )
    }

    open spec fn spec_dec(w: ValueV) -> Option<JsonApiV> {
        match w {
            ValueV::Obj(es) => match (
                dec_opt_str(entries_get(es, "version"@)),
                dec_opt_obj(entries_get(es, "meta"@)),
            ) {
                (Option::Some(version), Option::Some(meta)) => Some(JsonApiV { version, meta }),
                _ => None,
            },
            _ => None,
        }
    }

    fn encode(&self) -> (r: JsonValue) {
        let mut out: Vec<(String, JsonValue)> = Vec::new();
        if let Some(v) = &self.version {
            out.push(("version".to_owned(), JsonValue::Str(v.clone())));
        }
        if let Some(m) = &self.meta {
            let enc = encode_smap::<JsonValue>(m);
            proof {
                assert(smap_enc::<JsonValue>(m@) =~= m@);
            }
            out.push(("meta".to_owned(), enc));
        }
        proof {
            lemma_view_obj(out);
            assert(obj_entries_view(out@) =~= Self::spec_enc(self@)->Obj_0);
        }
        JsonValue::Obj(out)
    }

    fn decode(v: &JsonValue) -> (r: Option<JsonApi>) {
        match v {
            JsonValue::Obj(entries) => {
                proof {
                    lemma_view_obj(*entries);
                }
                let version: Option<String> = match obj_get(entries, "version") {
                    Option::None => None,
                    Option::Some(JsonValue::Str(s)) => Some(s.clone()),
                    Option::Some(_) => {
                        return None;
                    },
                };
                let meta: Option<Meta> = match obj_get(entries, "meta") {
                    Option::None => None,
                    Option::Some(JsonValue::Obj(mes)) => {
                        proof {
                            lemma_view_obj(*mes);
                            lemma_smap_dec_value_identity(obj_entries_view(mes@));
                        }
                        match decode_obj_map::<JsonValue>(mes) {
                            Option::Some(m) => Some(m),
                            Option::None => {
                                return None;
                            },
                        }
                    },
                    Option::Some(_) => {
                        return None;
                    },
                };
                Some(JsonApi { version, meta })
            },
            _ => None,
        }
    }

    proof fn lemma_codec_roundtrip(v: JsonApiV) {
        reveal_strlit("version");
        reveal_strlit("meta");
        assert("version"@[0] == 'v' && "meta"@[0] == 'm');
        assert("version"@ != "meta"@);
        let e1 = opt_entry("version"@, spec_version_field(v));
        let e2 = opt_entry("meta"@, spec_meta_field(v));
        let es = Self::spec_enc(v)->Obj_0;
        assert(es == e1 + e2);
        lemma_entries_get_concat(e1, e2, "version"@);
        lemma_entries_get_concat(e1, e2, "meta"@);
        lemma_opt_entry_get("version"@, spec_version_field(v), "version"@);
        lemma_opt_entry_get("version"@, spec_version_field(v), "meta"@);
        lemma_opt_entry_get("meta"@, spec_meta_field(v), "version"@);
        lemma_opt_entry_get("meta"@, spec_meta_field(v), "meta"@);
    }
}

} // verus!
