//! Error objects: additional information about problems encountered while
//! processing a request.

use vstd::prelude::*;
use crate::links::{Link, LinkV, Links};
use crate::meta::Meta;
use crate::string_map::entries_get;
use crate::value::{JsonValue, ValueV, EntriesV, obj_entries_view, lemma_view_obj};
use crate::codec::{
    JsonCodec, DeepClone, opt_entry, opt_view, dec_opt_str, dec_opt_obj, dec_opt_map,
    dec_opt_codec, obj_get, encode_smap, decode_obj_map, smap_enc, lemma_opt_entry_get,
    lemma_entries_get_concat, lemma_smap_dec_value_identity, lemma_smap_codec_roundtrip,
};

verus! {

/// Information about the source of an error.
#[derive(Debug, PartialEq)]
pub struct ErrorSource {
    /// A JSON pointer to the associated entity in the request document.
    pub pointer: Option<String>,
    /// Which URI parameter caused the error.
    pub parameter: Option<String>,
}

/// The specification-level value of an error source.
pub struct ErrorSourceV {
    pub pointer: Option<Seq<char>>,
    pub parameter: Option<Seq<char>>,
}

impl View for ErrorSource {
    type V = ErrorSourceV;

    open spec fn view(&self) -> ErrorSourceV {
        ErrorSourceV {
            pointer: match self.pointer {
                Option::Some(ref s) => Some(s@),
                Option::None => None,
            },
            parameter: match self.parameter {
                Option::Some(ref s) => Some(s@),
                Option::None => None,
            },
        }
    }
}

/// Defaults to the error source with every field absent.
impl Default for ErrorSource {
    fn default() -> (r: Self)
        ensures
            r@ == (ErrorSourceV { pointer: None, parameter: None }),
    {
        ErrorSource { pointer: None, parameter: None }
    }
}

impl DeepClone for ErrorSource {
    fn deep_clone(&self) -> (r: Self) {
        ErrorSource {
            pointer: match &self.pointer {
                Option::Some(s) => Some(s.clone()),
                Option::None => None,
            },
            parameter: match &self.parameter {
                Option::Some(s) => Some(s.clone()),
                Option::None => None,
            },
        }
    }
}

/// The wire payload of an optional string field.
pub open spec fn opt_str_field(v: Option<Seq<char>>) -> Option<ValueV> {
    match v {
        Option::Some(s) => Some(ValueV::Str(s)),
        Option::None => None,
    }
}

impl JsonCodec for ErrorSource {
    open spec fn spec_enc(v: ErrorSourceV) -> ValueV {
        ValueV::Obj(
            opt_entry("pointer"@, opt_str_field(v.pointer)) + opt_entry(
                "parameter"@,
                opt_str_field(v.parameter),
            ),
        )
    }

    open spec fn spec_dec(w: ValueV) -> Option<ErrorSourceV> {
        match w {
            ValueV::Obj(es) => match (
                dec_opt_str(entries_get(es, "pointer"@)),
                dec_opt_str(entries_get(es, "parameter"@)),
            ) {
                (Option::Some(pointer), Option::Some(parameter)) => Some(
                    ErrorSourceV { pointer, parameter },
                ),
                _ => None,
            },
            _ => None,
        }
    }

    fn encode(&self) -> (r: JsonValue) {
        let mut out: Vec<(String, JsonValue)> = Vec::new();
        if let Some(s) = &self.pointer {
            out.push(("pointer".to_owned(), JsonValue::Str(s.clone())));
        }
        if let Some(s) = &self.parameter {
            out.push(("parameter".to_owned(), JsonValue::Str(s.clone())));
        }
        proof {
            lemma_view_obj(out);
            assert(obj_entries_view(out@) =~= Self::spec_enc(self@)->Obj_0);
        }
        JsonValue::Obj(out)
    }

    fn decode(v: &JsonValue) -> (r: Option<ErrorSource>) {
        match v {
            JsonValue::Obj(entries) => {
                proof {
                    lemma_view_obj(*entries);
                }
                let pointer: Option<String> = match obj_get(entries, "pointer") {
                    Option::None => None,
                    Option::Some(JsonValue::Str(s)) => Some(s.clone()),
                    Option::Some(_) => {
                        return None;
                    },
                };
                let parameter: Option<String> = match obj_get(entries, "parameter") {
                    Option::None => None,
                    Option::Some(JsonValue::Str(s)) => Some(s.clone()),
                    Option::Some(_) => {
                        return None;
                    },
                };
                Some(ErrorSource { pointer, parameter })
            },
            _ => None,
        }
    }

    proof fn lemma_codec_roundtrip(v: ErrorSourceV) {
        reveal_strlit("pointer");
        reveal_strlit("parameter");
        assert("pointer"@[1] == 'o' && "parameter"@[1] == 'a');
        assert("pointer"@ != "parameter"@);
        let e1 = opt_entry("pointer"@, opt_str_field(v.pointer));
        let e2 = opt_entry("parameter"@, opt_str_field(v.parameter));
        let es = Self::spec_enc(v)->Obj_0;
        assert(es == e1 + e2);
        lemma_entries_get_concat(e1, e2, "pointer"@);
        lemma_entries_get_concat(e1, e2, "parameter"@);
        lemma_opt_entry_get("pointer"@, opt_str_field(v.pointer), "pointer"@);
        lemma_opt_entry_get("pointer"@, opt_str_field(v.pointer), "parameter"@);
        lemma_opt_entry_get("parameter"@, opt_str_field(v.parameter), "pointer"@);
        lemma_opt_entry_get("parameter"@, opt_str_field(v.parameter), "parameter"@);
    }
}

/// Additional information about a problem encountered while processing a
/// request.
#[derive(Debug, PartialEq)]
pub struct Error {
    /// A unique identifier for this particular occurrence of the problem.
    pub id: Option<String>,
    /// Should contain an `about` link leading to further details.
    pub links: Option<Links>,
    /// The HTTP status code applicable to this problem.
    pub status: Option<String>,
    /// An application-specific error code.
    pub code: Option<String>,
    /// A short summary that should not change between occurrences.
    pub title: Option<String>,
    /// An explanation specific to this occurrence.
    pub detail: Option<String>,
    /// Information about the source of the error.
    pub source: Option<ErrorSource>,
    /// Non-standard meta information.
    pub meta: Option<Meta>,
}

/// The specification-level value of an error object.
pub struct ErrorV {
    pub id: Option<Seq<char>>,
    pub links: Option<Seq<(Seq<char>, LinkV)>>,
    pub status: Option<Seq<char>>,
    pub code: Option<Seq<char>>,
    pub title: Option<Seq<char>>,
    pub detail: Option<Seq<char>>,
    pub source: Option<ErrorSourceV>,
    pub meta: Option<EntriesV>,
}

impl View for Error {
    type V = ErrorV;

    open spec fn view(&self) -> ErrorV {
        ErrorV {
            id: match self.id {
                Option::Some(ref s) => Some(s@),
                Option::None => None,
            },
            links: opt_view(self.links),
            status: match self.status {
                Option::Some(ref s) => Some(s@),
                Option::None => None,
            },
            code: match self.code {
                Option::Some(ref s) => Some(s@),
                Option::None => None,
            },
            title: match self.title {
                Option::Some(ref s) => Some(s@),
                Option::None => None,
            },
            detail: match self.detail {
                Option::Some(ref s) => Some(s@),
                Option::None => None,
            },
            source: opt_view(self.source),
            meta: opt_view(self.meta),
        }
    }
}

/// The error value with every field absent.
pub open spec fn spec_error_empty() -> ErrorV {
    ErrorV {
        id: None,
        links: None,
        status: None,
        code: None,
        title: None,
        detail: None,
        source: None,
        meta: None,
    }
}

/// Defaults to the error with every field absent.
impl Default for Error {
    fn default() -> (r: Self)
        ensures
            r@ == spec_error_empty(),
    {
        Error {
            id: None,
            links: None,
            status: None,
            code: None,
            title: None,
            detail: None,
            source: None,
            meta: None,
        }
    }
}

impl Error {
    /// Lifts an externally raised error into the error-object shape: its
    /// human-readable message fills the `detail` field and every other
    /// field is absent.
    pub fn from_message(message: String) -> (r: Self)
        ensures
            r@ == (ErrorV { detail: Some(message@), ..spec_error_empty() }),
    {
        Error {
            id: None,
            links: None,
            status: None,
            code: None,
            title: None,
            detail: Some(message),
            source: None,
            meta: None,
        }
    }
}

impl DeepClone for Error {
    fn deep_clone(&self) -> (r: Self) {
        Error {
            id: match &self.id {
                Option::Some(s) => Some(s.clone()),
                Option::None => None,
            },
            links: match &self.links {
                Option::Some(l) => Some(l.deep_clone()),
                Option::None => None,
            },
            status: match &self.status {
                Option::Some(s) => Some(s.clone()),
                Option::None => None,
            },
            code: match &self.code {
                Option::Some(s) => Some(s.clone()),
                Option::None => None,
            },
            title: match &self.title {
                Option::Some(s) => Some(s.clone()),
                Option::None => None,
            },
            detail: match &self.detail {
                Option::Some(s) => Some(s.clone()),
                Option::None => None,
            },
            source: match &self.source {
                Option::Some(s) => Some(s.deep_clone()),
                Option::None => None,
            },
            meta: match &self.meta {
                Option::Some(m) => Some(m.deep_clone()),
                Option::None => None,
            },
        }
    }
}

/// The wire payload of an error's `links` field.
pub open spec fn spec_error_links_field(v: ErrorV) -> Option<ValueV> {
    match v.links {
        Option::Some(ls) => Some(ValueV::Obj(smap_enc::<Link>(ls))),
        Option::None => None,
    }
}

/// The wire payload of an error's `source` field.
pub open spec fn spec_error_source_field(v: ErrorV) -> Option<ValueV> {
    match v.source {
        Option::Some(s) => Some(ErrorSource::spec_enc(s)),
        Option::None => None,
    }
}

/// The wire payload of an error's `meta` field.
pub open spec fn spec_error_meta_field(v: ErrorV) -> Option<ValueV> {
    match v.meta {
        Option::Some(es) => Some(ValueV::Obj(es)),
        Option::None => None,
    }
}

impl JsonCodec for Error {
    open spec fn spec_enc(v: ErrorV) -> ValueV {
        ValueV::Obj(
            opt_entry("id"@, opt_str_field(v.id)) + opt_entry(
                "links"@,
                spec_error_links_field(v),
            ) + opt_entry("status"@, opt_str_field(v.status)) + opt_entry(
                "code"@,
                opt_str_field(v.code),
            ) + opt_entry("title"@, opt_str_field(v.title)) + opt_entry(
                "detail"@,
                opt_str_field(v.detail),
            ) + opt_entry("source"@, spec_error_source_field(v)) + opt_entry(
                "meta"@,
                spec_error_meta_field(v),
            ),
        )
    }

    open spec fn spec_dec(w: ValueV) -> Option<ErrorV> {
        match w {
            ValueV::Obj(es) => match (
                dec_opt_str(entries_get(es, "id"@)),
                dec_opt_map::<Link>(entries_get(es, "links"@)),
                dec_opt_str(entries_get(es, "status"@)),
                dec_opt_str(entries_get(es, "code"@)),
                dec_opt_str(entries_get(es, "title"@)),
                dec_opt_str(entries_get(es, "detail"@)),
                dec_opt_codec::<ErrorSource>(entries_get(es, "source"@)),
                dec_opt_obj(entries_get(es, "meta"@)),
            ) {
                (
                    Option::Some(id),
                    Option::Some(links),
                    Option::Some(status),
                    Option::Some(code),
                    Option::Some(title),
                    Option::Some(detail),
                    Option::Some(source),
                    Option::Some(meta),
                ) => Some(ErrorV { id, links, status, code, title, detail, source, meta }),
                _ => None,
            },
            _ => None,
        }
    }

    #[verifier::rlimit(80)]
    fn encode(&self) -> (r: JsonValue) {
        let mut out: Vec<(String, JsonValue)> = Vec::new();
        if let Some(s) = &self.id {
            out.push(("id".to_owned(), JsonValue::Str(s.clone())));
        }
        if let Some(ls) = &self.links {
            out.push(("links".to_owned(), encode_smap::<Link>(ls)));
        }
        if let Some(s) = &self.status {
            out.push(("status".to_owned(), JsonValue::Str(s.clone())));
        }
        if let Some(s) = &self.code {
            out.push(("code".to_owned(), JsonValue::Str(s.clone())));
        }
        if let Some(s) = &self.title {
            out.push(("title".to_owned(), JsonValue::Str(s.clone())));
        }
        if let Some(s) = &self.detail {
            out.push(("detail".to_owned(), JsonValue::Str(s.clone())));
        }
        if let Some(s) = &self.source {
            out.push(("source".to_owned(), s.encode()));
        }
        if let Some(m) = &self.meta {
            let enc = encode_smap::<JsonValue>(m);
            proof {
                assert(smap_enc::<JsonValue>(m@) =~= m@);
            }
            out.push(("meta".to_owned(), enc));
        }
        proof {
            lemma_view_obj(out);
            assert(obj_entries_view(out@) =~= Self::spec_enc(self@)->Obj_0);
        }
        JsonValue::Obj(out)
    }

    fn decode(v: &JsonValue) -> (r: Option<Error>) {
        match v {
            JsonValue::Obj(entries) => {
                proof {
                    lemma_view_obj(*entries);
                }
                let id: Option<String> = match obj_get(entries, "id") {
                    Option::None => None,
                    Option::Some(JsonValue::Str(s)) => Some(s.clone()),
                    Option::Some(_) => {
                        return None;
                    },
                };
                let links: Option<Links> = match obj_get(entries, "links") {
                    Option::None => None,
                    Option::Some(JsonValue::Obj(les)) => {
                        proof {
                            lemma_view_obj(*les);
                        }
                        match decode_obj_map::<Link>(les) {
                            Option::Some(ls) => Some(ls),
                            Option::None => {
                                return None;
                            },
                        }
                    },
                    Option::Some(_) => {
                        return None;
                    },
                };
                let status: Option<String> = match obj_get(entries, "status") {
                    Option::None => None,
                    Option::Some(JsonValue::Str(s)) => Some(s.clone()),
                    Option::Some(_) => {
                        return None;
                    },
                };
                let code: Option<String> = match obj_get(entries, "code") {
                    Option::None => None,
                    Option::Some(JsonValue::Str(s)) => Some(s.clone()),
                    Option::Some(_) => {
                        return None;
                    },
                };
                let title: Option<String> = match obj_get(entries, "title") {
                    Option::None => None,
                    Option::Some(JsonValue::Str(s)) => Some(s.clone()),
                    Option::Some(_) => {
                        return None;
                    },
                };
                let detail: Option<String> = match obj_get(entries, "detail") {
                    Option::None => None,
                    Option::Some(JsonValue::Str(s)) => Some(s.clone()),
                    Option::Some(_) => {
                        return None;
                    },
                };
                let source: Option<ErrorSource> = match obj_get(entries, "source") {
                    Option::None => None,
                    Option::Some(w) => match ErrorSource::decode(w) {
                        Option::Some(s) => Some(s),
                        Option::None => {
                            return None;
                        },
                    },
                };
                let meta: Option<Meta> = match obj_get(entries, "meta") {
                    Option::None => None,
                    Option::Some(JsonValue::Obj(mes)) => {
                        proof {
                            lemma_view_obj(*mes);
                            lemma_smap_dec_value_identity(obj_entries_view(mes@));
                        }
                        match decode_obj_map::<JsonValue>(mes) {
                            Option::Some(m) => Some(m),
                            Option::None => {
                                return None;
                            },
                        }
                    },
                    Option::Some(_) => {
                        return None;
                    },
                };
                Some(Error { id, links, status, code, title, detail, source, meta })
            },
            _ => None,
        }
    }

    #[verifier::rlimit(80)]
    proof fn lemma_codec_roundtrip(v: ErrorV) {
        reveal_strlit("id");
        reveal_strlit("links");
        reveal_strlit("status");
        reveal_strlit("code");
        reveal_strlit("title");
        reveal_strlit("detail");
        reveal_strlit("source");
        reveal_strlit("meta");
        assert("id"@[0] == 'i' && "links"@[0] == 'l' && "status"@[0] == 's' && "code"@[0] == 'c'
            && "title"@[0] == 't' && "detail"@[0] == 'd' && "source"@[0] == 's' && "meta"@[0]
            == 'm');
        assert("status"@[1] == 't' && "source"@[1] == 'o');
        let e1 = opt_entry("id"@, opt_str_field(v.id));
        let e2 = opt_entry("links"@, spec_error_links_field(v));
        let e3 = opt_entry("status"@, opt_str_field(v.status));
        let e4 = opt_entry("code"@, opt_str_field(v.code));
        let e5 = opt_entry("title"@, opt_str_field(v.title));
        let e6 = opt_entry("detail"@, opt_str_field(v.detail));
        let e7 = opt_entry("source"@, spec_error_source_field(v));
        let e8 = opt_entry("meta"@, spec_error_meta_field(v));
        let es = Self::spec_enc(v)->Obj_0;
        assert(es == e1 + e2 + e3 + e4 + e5 + e6 + e7 + e8);
        lemma_entries_get_concat(e1 + e2 + e3 + e4 + e5 + e6 + e7, e8, "id"@);
        lemma_entries_get_concat(e1 + e2 + e3 + e4 + e5 + e6, e7, "id"@);
        lemma_entries_get_concat(e1 + e2 + e3 + e4 + e5, e6, "id"@);
        lemma_entries_get_concat(e1 + e2 + e3 + e4, e5, "id"@);
        lemma_entries_get_concat(e1 + e2 + e3, e4, "id"@);
        lemma_entries_get_concat(e1 + e2, e3, "id"@);
        lemma_entries_get_concat(e1, e2, "id"@);
        lemma_opt_entry_get("id"@, opt_str_field(v.id), "id"@);
        lemma_opt_entry_get("links"@, spec_error_links_field(v), "id"@);
        lemma_opt_entry_get("status"@, opt_str_field(v.status), "id"@);
        lemma_opt_entry_get("code"@, opt_str_field(v.code), "id"@);
        lemma_opt_entry_get("title"@, opt_str_field(v.title), "id"@);
        lemma_opt_entry_get("detail"@, opt_str_field(v.detail), "id"@);
        lemma_opt_entry_get("source"@, spec_error_source_field(v), "id"@);
        lemma_opt_entry_get("meta"@, spec_error_meta_field(v), "id"@);
        lemma_entries_get_concat(e1 + e2 + e3 + e4 + e5 + e6 + e7, e8, "links"@);
        lemma_entries_get_concat(e1 + e2 + e3 + e4 + e5 + e6, e7, "links"@);
        lemma_entries_get_concat(e1 + e2 + e3 + e4 + e5, e6, "links"@);
        lemma_entries_get_concat(e1 + e2 + e3 + e4, e5, "links"@);
        lemma_entries_get_concat(e1 + e2 + e3, e4, "links"@);
        lemma_entries_get_concat(e1 + e2, e3, "links"@);
        lemma_entries_get_concat(e1, e2, "links"@);
        lemma_opt_entry_get("id"@, opt_str_field(v.id), "links"@);
        lemma_opt_entry_get("links"@, spec_error_links_field(v), "links"@);
        lemma_opt_entry_get("status"@, opt_str_field(v.status), "links"@);
        lemma_opt_entry_get("code"@, opt_str_field(v.code), "links"@);
        lemma_opt_entry_get("title"@, opt_str_field(v.title), "links"@);
        lemma_opt_entry_get("detail"@, opt_str_field(v.detail), "links"@);
        lemma_opt_entry_get("source"@, spec_error_source_field(v), "links"@);
        lemma_opt_entry_get("meta"@, spec_error_meta_field(v), "links"@);
        lemma_entries_get_concat(e1 + e2 + e3 + e4 + e5 + e6 + e7, e8, "status"@);
        lemma_entries_get_concat(e1 + e2 + e3 + e4 + e5 + e6, e7, "status"@);
        lemma_entries_get_concat(e1 + e2 + e3 + e4 + e5, e6, "status"@);
        lemma_entries_get_concat(e1 + e2 + e3 + e4, e5, "status"@);
        lemma_entries_get_concat(e1 + e2 + e3, e4, "status"@);
        lemma_entries_get_concat(e1 + e2, e3, "status"@);
        lemma_entries_get_concat(e1, e2, "status"@);
        lemma_opt_entry_get("id"@, opt_str_field(v.id), "status"@);
        lemma_opt_entry_get("links"@, spec_error_links_field(v), "status"@);
        lemma_opt_entry_get("status"@, opt_str_field(v.status), "status"@);
        lemma_opt_entry_get("code"@, opt_str_field(v.code), "status"@);
        lemma_opt_entry_get("title"@, opt_str_field(v.title), "status"@);
        lemma_opt_entry_get("detail"@, opt_str_field(v.detail), "status"@);
        lemma_opt_entry_get("source"@, spec_error_source_field(v), "status"@);
        lemma_opt_entry_get("meta"@, spec_error_meta_field(v), "status"@);
        lemma_entries_get_concat(e1 + e2 + e3 + e4 + e5 + e6 + e7, e8, "code"@);
        lemma_entries_get_concat(e1 + e2 + e3 + e4 + e5 + e6, e7, "code"@);
        lemma_entries_get_concat(e1 + e2 + e3 + e4 + e5, e6, "code"@);
        lemma_entries_get_concat(e1 + e2 + e3 + e4, e5, "code"@);
        lemma_entries_get_concat(e1 + e2 + e3, e4, "code"@);
        lemma_entries_get_concat(e1 + e2, e3, "code"@);
        lemma_entries_get_concat(e1, e2, "code"@);
        lemma_opt_entry_get("id"@, opt_str_field(v.id), "code"@);
        lemma_opt_entry_get("links"@, spec_error_links_field(v), "code"@);
        lemma_opt_entry_get("status"@, opt_str_field(v.status), "code"@);
        lemma_opt_entry_get("code"@, opt_str_field(v.code), "code"@);
        lemma_opt_entry_get("title"@, opt_str_field(v.title), "code"@);
        lemma_opt_entry_get("detail"@, opt_str_field(v.detail), "code"@);
        lemma_opt_entry_get("source"@, spec_error_source_field(v), "code"@);
        lemma_opt_entry_get("meta"@, spec_error_meta_field(v), "code"@);
        lemma_entries_get_concat(e1 + e2 + e3 + e4 + e5 + e6 + e7, e8, "title"@);
        lemma_entries_get_concat(e1 + e2 + e3 + e4 + e5 + e6, e7, "title"@);
        lemma_entries_get_concat(e1 + e2 + e3 + e4 + e5, e6, "title"@);
        lemma_entries_get_concat(e1 + e2 + e3 + e4, e5, "title"@);
        lemma_entries_get_concat(e1 + e2 + e3, e4, "title"@);
        lemma_entries_get_concat(e1 + e2, e3, "title"@);
        lemma_entries_get_concat(e1, e2, "title"@);
        lemma_opt_entry_get("id"@, opt_str_field(v.id), "title"@);
        lemma_opt_entry_get("links"@, spec_error_links_field(v), "title"@);
        lemma_opt_entry_get("status"@, opt_str_field(v.status), "title"@);
        lemma_opt_entry_get("code"@, opt_str_field(v.code), "title"@);
        lemma_opt_entry_get("title"@, opt_str_field(v.title), "title"@);
        lemma_opt_entry_get("detail"@, opt_str_field(v.detail), "title"@);
        lemma_opt_entry_get("source"@, spec_error_source_field(v), "title"@);
        lemma_opt_entry_get("meta"@, spec_error_meta_field(v), "title"@);
        lemma_entries_get_concat(e1 + e2 + e3 + e4 + e5 + e6 + e7, e8, "detail"@);
        lemma_entries_get_concat(e1 + e2 + e3 + e4 + e5 + e6, e7, "detail"@);
        lemma_entries_get_concat(e1 + e2 + e3 + e4 + e5, e6, "detail"@);
        lemma_entries_get_concat(e1 + e2 + e3 + e4, e5, "detail"@);
        lemma_entries_get_concat(e1 + e2 + e3, e4, "detail"@);
        lemma_entries_get_concat(e1 + e2, e3, "detail"@);
        lemma_entries_get_concat(e1, e2, "detail"@);
        lemma_opt_entry_get("id"@, opt_str_field(v.id), "detail"@);
        lemma_opt_entry_get("links"@, spec_error_links_field(v), "detail"@);
        lemma_opt_entry_get("status"@, opt_str_field(v.status), "detail"@);
        lemma_opt_entry_get("code"@, opt_str_field(v.code), "detail"@);
        lemma_opt_entry_get("title"@, opt_str_field(v.title), "detail"@);
        lemma_opt_entry_get("detail"@, opt_str_field(v.detail), "detail"@);
        lemma_opt_entry_get("source"@, spec_error_source_field(v), "detail"@);
        lemma_opt_entry_get("meta"@, spec_error_meta_field(v), "detail"@);
        lemma_entries_get_concat(e1 + e2 + e3 + e4 + e5 + e6 + e7, e8, "source"@);
        lemma_entries_get_concat(e1 + e2 + e3 + e4 + e5 + e6, e7, "source"@);
        lemma_entries_get_concat(e1 + e2 + e3 + e4 + e5, e6, "source"@);
        lemma_entries_get_concat(e1 + e2 + e3 + e4, e5, "source"@);
        lemma_entries_get_concat(e1 + e2 + e3, e4, "source"@);
        lemma_entries_get_concat(e1 + e2, e3, "source"@);
        lemma_entries_get_concat(e1, e2, "source"@);
        lemma_opt_entry_get("id"@, opt_str_field(v.id), "source"@);
        lemma_opt_entry_get("links"@, spec_error_links_field(v), "source"@);
        lemma_opt_entry_get("status"@, opt_str_field(v.status), "source"@);
        lemma_opt_entry_get("code"@, opt_str_field(v.code), "source"@);
        lemma_opt_entry_get("title"@, opt_str_field(v.title), "source"@);
        lemma_opt_entry_get("detail"@, opt_str_field(v.detail), "source"@);
        lemma_opt_entry_get("source"@, spec_error_source_field(v), "source"@);
        lemma_opt_entry_get("meta"@, spec_error_meta_field(v), "source"@);
        lemma_entries_get_concat(e1 + e2 + e3 + e4 + e5 + e6 + e7, e8, "meta"@);
        lemma_entries_get_concat(e1 + e2 + e3 + e4 + e5 + e6, e7, "meta"@);
        lemma_entries_get_concat(e1 + e2 + e3 + e4 + e5, e6, "meta"@);
        lemma_entries_get_concat(e1 + e2 + e3 + e4, e5, "meta"@);
        lemma_entries_get_concat(e1 + e2 + e3, e4, "meta"@);
        lemma_entries_get_concat(e1 + e2, e3, "meta"@);
        lemma_entries_get_concat(e1, e2, "meta"@);
        lemma_opt_entry_get("id"@, opt_str_field(v.id), "meta"@);
        lemma_opt_entry_get("links"@, spec_error_links_field(v), "meta"@);
        lemma_opt_entry_get("status"@, opt_str_field(v.status), "meta"@);
        lemma_opt_entry_get("code"@, opt_str_field(v.code), "meta"@);
        lemma_opt_entry_get("title"@, opt_str_field(v.title), "meta"@);
        lemma_opt_entry_get("detail"@, opt_str_field(v.detail), "meta"@);
        lemma_opt_entry_get("source"@, spec_error_source_field(v), "meta"@);
        lemma_opt_entry_get("meta"@, spec_error_meta_field(v), "meta"@);
        match v.links {
            Option::Some(ls) => {
                lemma_smap_codec_roundtrip::<Link>(ls);
            },
            Option::None => {},
        }
        match v.source {
            Option::Some(s) => {
                ErrorSource::lemma_codec_roundtrip(s);
            },
            Option::None => {},
        }
    }
}

} // verus!
