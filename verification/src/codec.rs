//! Encoding to and decoding from the dynamic value substrate, together with
//! view-preserving copying.

use vstd::prelude::*;
use crate::value::{JsonValue, ValueV, EntriesV, elems_view, obj_entries_view, lemma_view_obj};
use crate::string_map::{StringMap, entries_get};

verus! {

/// Structural copying that preserves the specification-level view.
pub trait DeepClone: View + Sized {
    /// A copy whose view is the view of the original.
    fn deep_clone(&self) -> (r: Self)
        ensures
            r@ == self@,
    ;
}

impl DeepClone for String {
    fn deep_clone(&self) -> (r: Self) {
        self.clone()
    }
}

impl DeepClone for JsonValue {
    fn deep_clone(&self) -> (r: Self) {
        self.clone_value()
    }
}

/// A type with a wire form on the dynamic value substrate.
///
/// Encoding is total; decoding is exact: it succeeds precisely on the wire
/// values that `spec_dec` accepts, and decoding an encoded value gives the
/// original back.
pub trait JsonCodec: View + Sized {
    /// The wire form of an abstract value.
    spec fn spec_enc(v: Self::V) -> ValueV;

    /// The abstract value a wire value stands for, if any.
    spec fn spec_dec(w: ValueV) -> Option<Self::V>;

    fn encode(&self) -> (r: JsonValue)
        ensures
            r@ == Self::spec_enc(self@),
    ;

    fn decode(v: &JsonValue) -> (r: Option<Self>)
        ensures
            match r {
                Some(x) => Self::spec_dec(v@) == Some(x@),
                None => Self::spec_dec(v@) is None,
            },
    ;

    /// Law: decoding is a left inverse of encoding.
    proof fn lemma_codec_roundtrip(v: Self::V)
        ensures
            Self::spec_dec(Self::spec_enc(v)) == Some(v),
    ;
}

impl JsonCodec for i64 {
    open spec fn spec_enc(v: i64) -> ValueV {
        ValueV::Int(v as int)
    }

    open spec fn spec_dec(w: ValueV) -> Option<i64> {
        match w {
            ValueV::Int(i) => if i64::MIN <= i <= i64::MAX {
                Some(i as i64)
            } else {
                None
            },
            _ => None,
        }
    }

    fn encode(&self) -> (r: JsonValue) {
        JsonValue::Int(*self)
    }

    fn decode(v: &JsonValue) -> (r: Option<i64>) {
        match v {
            JsonValue::Int(i) => Some(*i),
            _ => None,
        }
    }

    proof fn lemma_codec_roundtrip(v: i64) {
    }
}

/// The views of the elements of a sequence of viewable values.
pub open spec fn views_of<T: View>(xs: Seq<T>) -> Seq<T::V> {
    Seq::new(xs.len(), |i: int| xs[i]@)
}

/// The elementwise wire form of a sequence of abstract values.
pub open spec fn seq_enc<T: JsonCodec>(xs: Seq<T::V>) -> Seq<ValueV> {
    Seq::new(xs.len(), |i: int| T::spec_enc(xs[i]))
}

/// The elementwise decoding of a sequence of wire values: all must decode.
pub open spec fn seq_dec<T: JsonCodec>(ws: Seq<ValueV>) -> Option<Seq<T::V>>
    decreases ws.len(),
{
    if ws.len() == 0 {
        Some(Seq::empty())
    } else {
        match T::spec_dec(ws[0]) {
            Option::None => None,
            Option::Some(x) => match seq_dec::<T>(ws.skip(1)) {
                Option::None => None,
                Option::Some(t) => Some(seq![x] + t),
            },
        }
    }
}

/// Law: elementwise decoding is a left inverse of elementwise encoding.
pub proof fn lemma_seq_codec_roundtrip<T: JsonCodec>(xs: Seq<T::V>)
    ensures
        seq_dec::<T>(seq_enc::<T>(xs)) == Some(xs),
    decreases xs.len(),
{
    if xs.len() == 0 {
        assert(seq_enc::<T>(xs).len() == 0);
        assert(Seq::<T::V>::empty() =~= xs);
    } else {
        T::lemma_codec_roundtrip(xs[0]);
        lemma_seq_codec_roundtrip::<T>(xs.skip(1));
        assert(seq_enc::<T>(xs).skip(1) =~= seq_enc::<T>(xs.skip(1)));
        assert(seq![xs[0]] + xs.skip(1) =~= xs);
    }
}

/// Where every prefix element decodes and the one after does not, the whole
/// sequence does not decode.
pub proof fn lemma_seq_dec_stops<T: JsonCodec>(ws: Seq<ValueV>, i: int)
    requires
        0 <= i < ws.len(),
        forall|j: int| 0 <= j < i ==> T::spec_dec(ws[j]) is Some,
        T::spec_dec(ws[i]) is None,
    ensures
        seq_dec::<T>(ws) is None,
    decreases i,
{
    if i > 0 {
        assert(forall|j: int| 0 <= j < i - 1 ==> ws.skip(1)[j] == ws[j + 1]);
        assert(ws.skip(1)[i - 1] == ws[i]);
        lemma_seq_dec_stops::<T>(ws.skip(1), i - 1);
    }
}

/// Where every element decodes, the whole sequence decodes elementwise.
pub proof fn lemma_seq_dec_all<T: JsonCodec>(ws: Seq<ValueV>, xs: Seq<T::V>)
    requires
        ws.len() == xs.len(),
        forall|j: int| 0 <= j < ws.len() ==> T::spec_dec(ws[j]) == Some(xs[j]),
    ensures
        seq_dec::<T>(ws) == Some(xs),
    decreases ws.len(),
{
    if ws.len() == 0 {
        assert(xs =~= Seq::<T::V>::empty());
    } else {
        assert(forall|j: int| 0 <= j < ws.len() - 1 ==> ws.skip(1)[j] == ws[j + 1]
            && xs.skip(1)[j] == xs[j + 1]);
        lemma_seq_dec_all::<T>(ws.skip(1), xs.skip(1));
        assert(seq![xs[0]] + xs.skip(1) =~= xs);
    }
}

impl JsonCodec for JsonValue {
    open spec fn spec_enc(v: ValueV) -> ValueV {
        v
    }

    open spec fn spec_dec(w: ValueV) -> Option<ValueV> {
        Some(w)
    }

    fn encode(&self) -> (r: JsonValue) {
        self.clone_value()
    }

    fn decode(v: &JsonValue) -> (r: Option<JsonValue>) {
        Some(v.clone_value())
    }

    proof fn lemma_codec_roundtrip(v: ValueV) {
    }
}

/// The views of an optional viewable value.
pub open spec fn opt_view<T: View>(o: Option<T>) -> Option<T::V> {
    match o {
        Option::Some(x) => Some(x@),
        Option::None => None,
    }
}

/// The view of an optional wire value.
pub open spec fn opt_value_view(o: Option<JsonValue>) -> Option<ValueV> {
    match o {
        Option::Some(x) => Some(x@),
        Option::None => None,
    }
}

/// An optional field that, when present, must hold a string.
pub open spec fn dec_opt_str(f: Option<ValueV>) -> Option<Option<Seq<char>>> {
    match f {
        Option::None => Some(None),
        Option::Some(ValueV::Str(s)) => Some(Some(s)),
        Option::Some(_) => None,
    }
}

/// An optional field that, when present, must hold an object.
pub open spec fn dec_opt_obj(f: Option<ValueV>) -> Option<Option<EntriesV>> {
    match f {
        Option::None => Some(None),
        Option::Some(ValueV::Obj(es)) => Some(Some(es)),
        Option::Some(_) => None,
    }
}

/// Decoding object entries with the identity value codec keeps them as they
/// are.
pub proof fn lemma_smap_dec_value_identity(es: EntriesV)
    ensures
        smap_dec::<JsonValue>(es) == Some(es),
    decreases es.len(),
{
    if es.len() > 0 {
        lemma_smap_dec_value_identity(es.skip(1));
        assert(seq![(es[0].0, es[0].1)] + es.skip(1) =~= es);
    } else {
        assert(Seq::<(Seq<char>, ValueV)>::empty() =~= es);
    }
}

/// The entry carried by a present optional field, or no entry at all.
pub open spec fn opt_entry(k: Seq<char>, w: Option<ValueV>) -> EntriesV {
    match w {
        Option::Some(x) => seq![(k, x)],
        Option::None => Seq::empty(),
    }
}

/// An optional field that, when present, must hold an object whose values
/// all decode.
pub open spec fn dec_opt_map<T: JsonCodec>(f: Option<ValueV>) -> Option<
    Option<Seq<(Seq<char>, T::V)>>,
> {
    match f {
        Option::None => Some(None),
        Option::Some(ValueV::Obj(es)) => match smap_dec::<T>(es) {
            Option::Some(m) => Some(Some(m)),
            Option::None => None,
        },
        Option::Some(_) => None,
    }
}

/// An optional field that, when present, must decode as a `T`.
pub open spec fn dec_opt_codec<T: JsonCodec>(f: Option<ValueV>) -> Option<Option<T::V>> {
    match f {
        Option::None => Some(None),
        Option::Some(w) => match T::spec_dec(w) {
            Option::Some(x) => Some(Some(x)),
            Option::None => None,
        },
    }
}

/// An optional field that, when present, must hold an array whose elements
/// all decode as `T`s.
pub open spec fn dec_opt_arr<T: JsonCodec>(f: Option<ValueV>) -> Option<Option<Seq<T::V>>> {
    match f {
        Option::None => Some(None),
        Option::Some(ValueV::Arr(ws)) => match seq_dec::<T>(ws) {
            Option::Some(xs) => Some(Some(xs)),
            Option::None => None,
        },
        Option::Some(_) => None,
    }
}

/// Lookup in the entries of one optional field.
pub proof fn lemma_opt_entry_get(k: Seq<char>, w: Option<ValueV>, k2: Seq<char>)
    ensures
        k2 == k ==> entries_get(opt_entry(k, w), k2) == w,
        k2 != k ==> entries_get(opt_entry(k, w), k2) is None,
{
    match w {
        Option::Some(x) => {
            assert(entries_get(opt_entry(k, w).skip(1), k2) is None);
        },
        Option::None => {},
    }
}

/// Lookup in a concatenation: the left entries take precedence.
pub proof fn lemma_entries_get_concat<T>(s1: Seq<(Seq<char>, T)>, s2: Seq<(Seq<char>, T)>, k: Seq<char>)
    ensures
        entries_get(s1 + s2, k) == (match entries_get(s1, k) {
            Option::Some(v) => Some(v),
            Option::None => entries_get(s2, k),
        }),
    decreases s1.len(),
{
    if s1.len() == 0 {
        assert(s1 + s2 =~= s2);
    } else {
        assert((s1 + s2)[0] == s1[0]);
        if s1[0].0 == k {
        } else {
            assert((s1 + s2).skip(1) =~= s1.skip(1) + s2);
            lemma_entries_get_concat(s1.skip(1), s2, k);
        }
    }
}

/// Looks a key up among the entries of an object value.
pub fn obj_get<'a>(entries: &'a Vec<(String, JsonValue)>, key: &str) -> (r: Option<
    &'a JsonValue,
>)
    ensures
        match r {
            Some(v) => entries_get(obj_entries_view(entries@), key@) == Some(v@),
            None => entries_get(obj_entries_view(entries@), key@) is None,
        },
{
    let ghost s = obj_entries_view(entries@);
    let n = entries.len();
    let mut i: usize = 0;
    proof {
        assert(s.skip(0) =~= s);
    }
    while i < n
        invariant
            i <= n,
            n == entries@.len(),
            s == obj_entries_view(entries@),
            entries_get(s, key@) == entries_get(s.skip(i as int), key@),
        decreases n - i,
    {
        proof {
            assert(s.skip(i as int)[0] == s[i as int]);
            assert(s.skip(i as int).skip(1) =~= s.skip(i as int + 1));
        }
        if crate::value::str_eq(entries[i].0.as_str(), key) {
            return Some(&entries[i].1);
        }
        i = i + 1;
    }
    proof {
        assert(s.skip(n as int).len() == 0);
    }
    None
}

/// The wire form of a string-keyed map: each value encoded, keys and order
/// kept.
pub open spec fn smap_enc<T: JsonCodec>(es: Seq<(Seq<char>, T::V)>) -> EntriesV {
    Seq::new(es.len(), |i: int| (es[i].0, T::spec_enc(es[i].1)))
}

/// The decoding of object entries into a string-keyed map: each value must
/// decode; keys and order are kept.
pub open spec fn smap_dec<T: JsonCodec>(es: EntriesV) -> Option<Seq<(Seq<char>, T::V)>>
    decreases es.len(),
{
    if es.len() == 0 {
        Some(Seq::empty())
    } else {
        match T::spec_dec(es[0].1) {
            Option::None => None,
            Option::Some(x) => match smap_dec::<T>(es.skip(1)) {
                Option::None => None,
                Option::Some(t) => Some(seq![(es[0].0, x)] + t),
            },
        }
    }
}

/// Law: decoding an encoded map gives the map back.
pub proof fn lemma_smap_codec_roundtrip<T: JsonCodec>(es: Seq<(Seq<char>, T::V)>)
    ensures
        smap_dec::<T>(smap_enc::<T>(es)) == Some(es),
    decreases es.len(),
{
    if es.len() == 0 {
        assert(smap_enc::<T>(es).len() == 0);
        assert(Seq::<(Seq<char>, T::V)>::empty() =~= es);
    } else {
        T::lemma_codec_roundtrip(es[0].1);
        lemma_smap_codec_roundtrip::<T>(es.skip(1));
        assert(smap_enc::<T>(es).skip(1) =~= smap_enc::<T>(es.skip(1)));
        assert(seq![es[0]] + es.skip(1) =~= es);
    }
}

/// Where every prefix value decodes and the one after does not, the whole
/// entry list does not decode.
proof fn lemma_smap_dec_stops<T: JsonCodec>(es: EntriesV, i: int)
    requires
        0 <= i < es.len(),
        forall|j: int| 0 <= j < i ==> T::spec_dec(es[j].1) is Some,
        T::spec_dec(es[i].1) is None,
    ensures
        smap_dec::<T>(es) is None,
    decreases i,
{
    if i > 0 {
        assert(forall|j: int| 0 <= j < i - 1 ==> es.skip(1)[j] == es[j + 1]);
        assert(es.skip(1)[i - 1] == es[i]);
        lemma_smap_dec_stops::<T>(es.skip(1), i - 1);
    }
}

/// Where every value decodes, the whole entry list decodes entrywise.
proof fn lemma_smap_dec_all<T: JsonCodec>(es: EntriesV, ms: Seq<(Seq<char>, T::V)>)
    requires
        es.len() == ms.len(),
        forall|j: int| 0 <= j < es.len() ==> ms[j].0 == es[j].0 && T::spec_dec(es[j].1) == Some(
            ms[j].1,
        ),
    ensures
        smap_dec::<T>(es) == Some(ms),
    decreases es.len(),
{
    if es.len() == 0 {
        assert(ms =~= Seq::<(Seq<char>, T::V)>::empty());
    } else {
        assert(forall|j: int| 0 <= j < es.len() - 1 ==> es.skip(1)[j] == es[j + 1]
            && ms.skip(1)[j] == ms[j + 1]);
        lemma_smap_dec_all::<T>(es.skip(1), ms.skip(1));
        assert(seq![(es[0].0, ms[0].1)] + ms.skip(1) =~= ms);
    }
}

/// Encodes a string-keyed map as an object value.
pub fn encode_smap<T: JsonCodec>(m: &StringMap<T>) -> (r: JsonValue)
    ensures
        r@ == ValueV::Obj(smap_enc::<T>(m@)),
{
    let mut out: Vec<(String, JsonValue)> = Vec::new();
    let n = m.entries.len();
    let mut i: usize = 0;
    while i < n
        invariant
            i <= n,
            n == m.entries@.len(),
            out@.len() == i,
            forall|j: int| 0 <= j < i ==> out@[j].0@ == m@[j].0 && out@[j].1@ == T::spec_enc(
                m@[j].1,
            ),
        decreases n - i,
    {
        let k = m.entries[i].0.clone();
        let e = m.entries[i].1.encode();
        out.push((k, e));
        i = i + 1;
    }
    proof {
        lemma_view_obj(out);
        assert(obj_entries_view(out@) =~= smap_enc::<T>(m@));
    }
    JsonValue::Obj(out)
}

/// Decodes the entries of an object value into a string-keyed map.
pub fn decode_obj_map<T: JsonCodec>(entries: &Vec<(String, JsonValue)>) -> (r: Option<
    StringMap<T>,
>)
    ensures
        match r {
            Some(m) => smap_dec::<T>(obj_entries_view(entries@)) == Some(m@),
            None => smap_dec::<T>(obj_entries_view(entries@)) is None,
        },
{
    let ghost s = obj_entries_view(entries@);
    let mut out: Vec<(String, T)> = Vec::new();
    let n = entries.len();
    let mut i: usize = 0;
    while i < n
        invariant
            i <= n,
            n == entries@.len(),
            s == obj_entries_view(entries@),
            out@.len() == i,
            forall|j: int| 0 <= j < i ==> out@[j].0@ == s[j].0 && T::spec_dec(s[j].1) == Some(
                out@[j].1@,
            ),
        decreases n - i,
    {
        match T::decode(&entries[i].1) {
            Option::Some(x) => {
                let k = entries[i].0.clone();
                out.push((k, x));
            },
            Option::None => {
                proof {
                    lemma_smap_dec_stops::<T>(s, i as int);
                }
                return None;
            },
        }
        i = i + 1;
    }
    let m = StringMap { entries: out };
    proof {
        lemma_smap_dec_all::<T>(s, m@);
    }
    Some(m)
}

/// Encodes each element of a list.
pub fn encode_vec<T: JsonCodec>(xs: &Vec<T>) -> (r: Vec<JsonValue>)
    ensures
        elems_view(r@) == seq_enc::<T>(views_of(xs@)),
{
    let mut out: Vec<JsonValue> = Vec::new();
    let n = xs.len();
    let mut i: usize = 0;
    while i < n
        invariant
            i <= n,
            n == xs@.len(),
            out@.len() == i,
            forall|j: int| 0 <= j < i ==> out@[j]@ == T::spec_enc(xs@[j]@),
        decreases n - i,
    {
        let e = xs[i].encode();
        out.push(e);
        i = i + 1;
    }
    proof {
        assert(elems_view(out@) =~= seq_enc::<T>(views_of(xs@)));
    }
    out
}

/// Decodes each element of a list; fails if any element fails.
pub fn decode_vec<T: JsonCodec>(vs: &Vec<JsonValue>) -> (r: Option<Vec<T>>)
    ensures
        match r {
            Some(xs) => seq_dec::<T>(elems_view(vs@)) == Some(views_of(xs@)),
            None => seq_dec::<T>(elems_view(vs@)) is None,
        },
{
    let mut out: Vec<T> = Vec::new();
    let n = vs.len();
    let mut i: usize = 0;
    while i < n
        invariant
            i <= n,
            n == vs@.len(),
            out@.len() == i,
            forall|j: int| 0 <= j < i ==> T::spec_dec(elems_view(vs@)[j]) == Some(out@[j]@),
        decreases n - i,
    {
        match T::decode(&vs[i]) {
            Option::Some(x) => {
                out.push(x);
            },
            Option::None => {
                proof {
                    lemma_seq_dec_stops::<T>(elems_view(vs@), i as int);
                }
                return None;
            },
        }
        i = i + 1;
    }
    proof {
        lemma_seq_dec_all::<T>(elems_view(vs@), views_of(out@));
    }
    Some(out)
}

} // verus!
