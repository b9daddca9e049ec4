//! The cardinality container: a field that is absent, one optional value, or
//! a list of values, with the discriminator-free trial decoding the wire
//! format requires.

use vstd::prelude::*;
use crate::value::{JsonValue, ValueV, elems_view, lemma_view_arr};
use crate::codec::{
    JsonCodec, DeepClone, opt_value_view, views_of, seq_enc, seq_dec, encode_vec, decode_vec,
    lemma_seq_codec_roundtrip,
};

verus! {

/// A value that is absent, a single optional value, or a list of values.
#[derive(Debug, PartialEq)]
pub enum OptionalVec<T> {
    NotPresent,
    One(Option<T>),
    Many(Vec<T>),
}

/// The specification-level value of a cardinality container.
pub enum OptionalVecV<TV> {
    NotPresent,
    One(Option<TV>),
    Many(Seq<TV>),
}

impl<T: View> View for OptionalVec<T> {
    type V = OptionalVecV<T::V>;

    open spec fn view(&self) -> OptionalVecV<T::V> {
        match self {
            OptionalVec::NotPresent => OptionalVecV::NotPresent,
            OptionalVec::One(o) => OptionalVecV::One(
                match o {
                    Option::Some(x) => Some(x@),
                    Option::None => None,
                },
            ),
            OptionalVec::Many(xs) => OptionalVecV::Many(views_of(xs@)),
        }
    }
}

impl<T: View> OptionalVec<T> {
    /// Whether the field is absent entirely.
    pub fn is_not_present(&self) -> (r: bool)
        ensures
            r == (self@ is NotPresent),
    {
        match self {
            OptionalVec::NotPresent => true,
            _ => false,
        }
    }

    /// Whether the field holds a single optional value.
    pub fn is_one(&self) -> (r: bool)
        ensures
            r == (self@ is One),
    {
        match self {
            OptionalVec::One(_) => true,
            _ => false,
        }
    }

    /// Whether the field holds a list of values.
    pub fn is_many(&self) -> (r: bool)
        ensures
            r == (self@ is Many),
    {
        match self {
            OptionalVec::Many(_) => true,
            _ => false,
        }
    }
}

/// Defaults to the absent field.
impl<T: View> Default for OptionalVec<T> {
    fn default() -> (r: Self)
        ensures
            r@ == OptionalVecV::<T::V>::NotPresent,
    {
        OptionalVec::NotPresent
    }
}

impl<T: DeepClone> DeepClone for OptionalVec<T> {
    fn deep_clone(&self) -> (r: Self) {
        match self {
            OptionalVec::NotPresent => OptionalVec::NotPresent,
            OptionalVec::One(o) => OptionalVec::One(
                match o {
                    Option::Some(x) => Some(x.deep_clone()),
                    Option::None => None,
                },
            ),
            OptionalVec::Many(xs) => {
                let mut out: Vec<T> = Vec::new();
                let n = xs.len();
                let mut i: usize = 0;
                while i < n
                    invariant
                        i <= n,
                        n == xs@.len(),
                        out@.len() == i,
                        forall|j: int| 0 <= j < i ==> out@[j]@ == xs@[j]@,
                    decreases n - i,
                {
                    let x = xs[i].deep_clone();
                    out.push(x);
                    i = i + 1;
                }
                proof {
                    assert(views_of(out@) =~= views_of(xs@));
                }
                OptionalVec::Many(out)
            },
        }
    }
}

/// The wire form of a present container: `null` for one absent value, the
/// bare wire form of a single value, or an array. An absent field has no
/// wire form at all.
pub open spec fn spec_enc_field<T: JsonCodec>(v: OptionalVecV<T::V>) -> Option<ValueV> {
    match v {
        OptionalVecV::NotPresent => None,
        OptionalVecV::One(Option::None) => Some(ValueV::Null),
        OptionalVecV::One(Option::Some(x)) => Some(T::spec_enc(x)),
        OptionalVecV::Many(xs) => Some(ValueV::Arr(seq_enc::<T>(xs))),
    }
}

/// Trial decoding of a present field, with a fixed precedence: `null` and
/// bare single values are claimed first, arrays only afterwards; anything
/// else is refused. The absent case is decided by the surrounding record,
/// never here.
pub open spec fn spec_dec_field<T: JsonCodec>(w: ValueV) -> Option<OptionalVecV<T::V>> {
    if w is Null {
        Some(OptionalVecV::One(None))
    } else if T::spec_dec(w) is Some {
        Some(OptionalVecV::One(Some(T::spec_dec(w)->Some_0)))
    } else {
        match w {
            ValueV::Arr(ws) => match seq_dec::<T>(ws) {
                Option::Some(xs) => Some(OptionalVecV::Many(xs)),
                Option::None => None,
            },
            _ => None,
        }
    }
}

impl<T: JsonCodec> OptionalVec<T> {
    /// The wire value of this container's field, if the field is present.
    pub fn encode_field(&self) -> (r: Option<JsonValue>)
        ensures
            opt_value_view(r) == spec_enc_field::<T>(self@),
    {
        match self {
            OptionalVec::NotPresent => None,
            OptionalVec::One(Option::None) => Some(JsonValue::Null),
            OptionalVec::One(Option::Some(x)) => Some(x.encode()),
            OptionalVec::Many(xs) => {
                let items = encode_vec::<T>(xs);
                proof {
                    lemma_view_arr(items);
                }
                Some(JsonValue::Arr(items))
            },
        }
    }

    /// Decodes a present field by trial: first as one optional value, then
    /// as an array of values.
    pub fn decode_field(v: &JsonValue) -> (r: Option<OptionalVec<T>>)
        ensures
            match r {
                Some(x) => spec_dec_field::<T>(v@) == Some(x@),
                None => spec_dec_field::<T>(v@) is None,
            },
    {
        if let JsonValue::Null = v {
            return Some(OptionalVec::One(None));
        }
        match T::decode(v) {
            Option::Some(x) => {
                return Some(OptionalVec::One(Some(x)));
            },
            Option::None => {},
        }
        match v {
            JsonValue::Arr(items) => {
                proof {
                    lemma_view_arr(*items);
                }
                match decode_vec::<T>(items) {
                    Option::Some(xs) => Some(OptionalVec::Many(xs)),
                    Option::None => None,
                }
            },
            _ => None,
        }
    }
}

/// The decoding of an optional record field that carries a cardinality
/// container: an absent key is the absent container, a present key is
/// trial-decoded.
pub open spec fn dec_card_field<T: JsonCodec>(f: Option<ValueV>) -> Option<OptionalVecV<T::V>> {
    match f {
        Option::None => Some(OptionalVecV::NotPresent),
        Option::Some(w) => spec_dec_field::<T>(w),
    }
}

/// Law: an absent key is the absent container; the trial decoder itself is
/// never asked about it.
pub proof fn lemma_absent_field_not_present<T: JsonCodec>()
    ensures
        dec_card_field::<T>(None) == Some(OptionalVecV::<T::V>::NotPresent),
{
}

/// Law: the decoding precedence is fixed. `null` decodes to one absent
/// value; a wire value a single element accepts decodes to that one element,
/// even if it is an array; an array whose elements all decode, and which a
/// single element refuses, decodes to the list form.
pub proof fn lemma_decode_precedence<T: JsonCodec>(w: ValueV)
    ensures
        w is Null ==> spec_dec_field::<T>(w) == Some(OptionalVecV::<T::V>::One(None)),
        !(w is Null) && T::spec_dec(w) is Some ==> spec_dec_field::<T>(w) == Some(
            OptionalVecV::<T::V>::One(Some(T::spec_dec(w)->Some_0)),
        ),
        !(w is Null) && T::spec_dec(w) is None && !(w is Arr) ==> spec_dec_field::<T>(w) is None,
        !(w is Null) && T::spec_dec(w) is None && w is Arr ==> spec_dec_field::<T>(w) == (
        match seq_dec::<T>(w->Arr_0) {
            Option::Some(xs) => Some(OptionalVecV::Many(xs)),
            Option::None => None,
        }),
{
}

/// Law: decoding a present encoding gives the container back, provided the
/// element type never encodes to `null` and never accepts an array — the
/// tie-break under which the format's untagged union is unambiguous.
pub proof fn lemma_field_roundtrip<T: JsonCodec>(v: OptionalVecV<T::V>)
    requires
        forall|x: T::V| T::spec_enc(x) != ValueV::Null,
        forall|ws: Seq<ValueV>| T::spec_dec(ValueV::Arr(ws)) is None,
    ensures
        match spec_enc_field::<T>(v) {
            Option::Some(w) => spec_dec_field::<T>(w) == Some(v),
            Option::None => v is NotPresent,
        },
{
    match v {
        OptionalVecV::NotPresent => {},
        OptionalVecV::One(Option::None) => {},
        OptionalVecV::One(Option::Some(x)) => {
            T::lemma_codec_roundtrip(x);
        },
        OptionalVecV::Many(xs) => {
            lemma_seq_codec_roundtrip::<T>(xs);
        },
    }
}

} // verus!
