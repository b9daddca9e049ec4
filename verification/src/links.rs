//! Link objects: either a bare URL string or an object carrying an optional
//! `href` and optional metadata.

use vstd::prelude::*;
use crate::meta::Meta;
use crate::string_map::{StringMap, entries_get};
use crate::value::{JsonValue, ValueV, EntriesV, obj_entries_view, lemma_view_obj};
use crate::codec::{
    JsonCodec, DeepClone, opt_entry, opt_view, dec_opt_str, dec_opt_obj, obj_get, encode_smap,
    decode_obj_map, smap_enc, lemma_entries_get_concat, lemma_smap_dec_value_identity,
};

verus! {

/// A collection of links, keyed by link name.
pub type Links = StringMap<Link>;

/// A link: either a bare URL or an object with an optional `href` and
/// optional metadata.
#[derive(Debug, PartialEq)]
pub enum Link {
    Url(String),
    Object { href: Option<String>, meta: Option<Meta> },
}

/// The specification-level value of a link.
pub enum LinkV {
    Url(Seq<char>),
    Object { href: Option<Seq<char>>, meta: Option<EntriesV> },
}

impl View for Link {
    type V = LinkV;

    open spec fn view(&self) -> LinkV {
        match self {
            Link::Url(h) => LinkV::Url(h@),
            Link::Object { href, meta } => LinkV::Object {
                href: match href {
                    Option::Some(h) => Some(h@),
                    Option::None => None,
                },
                meta: opt_view(*meta),
            },
        }
    }
}

/// The URL a link points at, whichever variant carries it.
pub open spec fn spec_href(v: LinkV) -> Option<Seq<char>> {
    match v {
        LinkV::Url(h) => Some(h),
        LinkV::Object { href: Option::Some(h), meta: _ } => Some(h),
        LinkV::Object { href: Option::None, meta: _ } => None,
    }
}

impl Link {
    /// Grabs the url of the link regardless of its variant.
    pub fn href<'a>(&'a self) -> (r: Option<&'a str>)
        ensures
            match r {
                Some(h) => spec_href(self@) == Some(h@),
                None => spec_href(self@) is None,
            },
    {
        match self {
            Link::Url(h) => Some(h.as_str()),
            Link::Object { href: Option::Some(h), meta: _ } => Some(h.as_str()),
            _ => None,
        }
    }

    /// If `meta` is `None` this constructs the bare URL form, never the
    /// object form with only an `href`.
    pub fn new(url: String, meta: Option<Meta>) -> (r: Self)
        ensures
            r@ == (match meta {
                Option::Some(m) => LinkV::Object { href: Some(url@), meta: Some(m@) },
                Option::None => LinkV::Url(url@),
            }),
    {
        if let Some(m) = meta {
            Link::Object { href: Some(url), meta: Some(m) }
        } else {
            Link::Url(url)
        }
    }
}

/// Law: a link built from a URL without metadata is the bare URL variant,
/// whose wire form is the bare string — never the object form with only an
/// `href`.
pub proof fn lemma_bare_link_serializes_bare(url: Seq<char>)
    ensures
        Link::spec_enc(LinkV::Url(url)) == ValueV::Str(url),
{
}

/// Defaults to the object form with all fields absent.
impl Default for Link {
    fn default() -> (r: Self)
        ensures
            r@ == (LinkV::Object { href: None, meta: None }),
    {
        Link::Object { href: None, meta: None }
    }
}

impl DeepClone for Link {
    fn deep_clone(&self) -> (r: Self) {
        match self {
            Link::Url(h) => Link::Url(h.clone()),
            Link::Object { href, meta } => Link::Object {
                href: match href {
                    Option::Some(h) => Some(h.clone()),
                    Option::None => None,
                },
                meta: match meta {
                    Option::Some(m) => Some(m.deep_clone()),
                    Option::None => None,
                },
            },
        }
    }
}

impl JsonCodec for Link {
    open spec fn spec_enc(v: LinkV) -> ValueV {
        match v {
            LinkV::Url(h) => ValueV::Str(h),
            LinkV::Object { href, meta } => ValueV::Obj(
                opt_entry(
                    "href"@,
                    match href {
                        Option::Some(h) => Some(ValueV::Str(h)),
                        Option::None => None,
                    },
                ) + opt_entry(
                    "meta"@,
                    match meta {
                        Option::Some(es) => Some(ValueV::Obj(es)),
                        Option::None => None,
                    },
                ),
            ),
        }
    }

    open spec fn spec_dec(w: ValueV) -> Option<LinkV> {
        match w {
            ValueV::Str(h) => Some(LinkV::Url(h)),
            ValueV::Obj(es) => match (
                dec_opt_str(entries_get(es, "href"@)),
                dec_opt_obj(entries_get(es, "meta"@)),
            ) {
                (Option::Some(href), Option::Some(meta)) => Some(LinkV::Object { href, meta }),
                _ => None,
            },
            _ => None,
        }
    }

    fn encode(&self) -> (r: JsonValue) {
        match self {
            Link::Url(h) => JsonValue::Str(h.clone()),
            Link::Object { href, meta } => {
                let mut out: Vec<(String, JsonValue)> = Vec::new();
                if let Some(h) = href {
                    out.push(("href".to_owned(), JsonValue::Str(h.clone())));
                }
                if let Some(m) = meta {
                    let enc = encode_smap::<JsonValue>(m);
                    proof {
                        assert(smap_enc::<JsonValue>(m@) =~= m@);
                    }
                    out.push(("meta".to_owned(), enc));
                }
                proof {
                    lemma_view_obj(out);
                    assert(obj_entries_view(out@) =~= Self::spec_enc(self@)->Obj_0);
                }
                JsonValue::Obj(out)
            },
        }
    }

    fn decode(v: &JsonValue) -> (r: Option<Link>) {
        match v {
            JsonValue::Str(h) => Some(Link::Url(h.clone())),
            JsonValue::Obj(entries) => {
                proof {
                    lemma_view_obj(*entries);
                }
                let href: Option<String> = match obj_get(entries, "href") {
                    Option::None => None,
                    Option::Some(JsonValue::Str(s)) => Some(s.clone()),
                    Option::Some(_) => {
                        return None;
                    },
                };
                let meta: Option<Meta> = match obj_get(entries, "meta") {
                    Option::None => None,
                    Option::Some(JsonValue::Obj(mes)) => {
                        proof {
                            lemma_view_obj(*mes);
                            lemma_smap_dec_value_identity(obj_entries_view(mes@));
                        }
                        match decode_obj_map::<JsonValue>(mes) {
                            Option::Some(m) => Some(m),
                            Option::None => {
                                return None;
                            },
                        }
                    },
                    Option::Some(_) => {
                        return None;
                    },
                };
                Some(Link::Object { href, meta })
            },
            _ => None,
        }
    }

    proof fn lemma_codec_roundtrip(v: LinkV) {
        reveal_strlit("href");
        reveal_strlit("meta");
        match v {
            LinkV::Url(_) => {},
            LinkV::Object { href, meta } => {
                assert("href"@[0] == 'h');
                assert("meta"@[0] == 'm');
                assert("href"@ != "meta"@);
                let es = Self::spec_enc(v)->Obj_0;
                match (href, meta) {
                    (Option::None, Option::None) => {
                        assert(es =~= Seq::<(Seq<char>, ValueV)>::empty());
                    },
                    (Option::Some(h), Option::None) => {
                        assert(es =~= seq![("href"@, ValueV::Str(h))]);
                        assert(entries_get(es, "href"@) == Some(ValueV::Str(h)));
                        assert(entries_get(es, "meta"@) is None);
                    },
                    (Option::None, Option::Some(m)) => {
                        assert(es =~= seq![("meta"@, ValueV::Obj(m))]);
                        assert(entries_get(es.skip(1), "href"@) is None);
                        assert(entries_get(es, "href"@) is None);
                        assert(entries_get(es, "meta"@) == Some(ValueV::Obj(m)));
                    },
                    (Option::Some(h), Option::Some(m)) => {
                        assert(es =~= seq![("href"@, ValueV::Str(h)), ("meta"@, ValueV::Obj(m))]);
                        assert(entries_get(es, "href"@) == Some(ValueV::Str(h)));
                        assert(entries_get(es.skip(1), "meta"@) == Some(ValueV::Obj(m)));
                        assert(entries_get(es, "meta"@) == Some(ValueV::Obj(m)));
                    },
                }
            },
        }
    }
}

} // verus!
