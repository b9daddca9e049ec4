//! The dynamic value type: a tree-shaped JSON-like value, the string order
//! that key-ordered maps use, and the well-formedness of nested objects.

use vstd::prelude::*;

verus! {

broadcast use vstd::std_specs::vec::group_vec_axioms;

/// Specification-level model of a dynamic JSON value.
///
/// Objects are modelled as ordered sequences of key/value pairs: the order is
/// the order in which the entries are written on the wire.
pub enum ValueV {
    Null,
    Bool(bool),
    Int(int),
    Str(Seq<char>),
    Arr(Seq<ValueV>),
    Obj(Seq<(Seq<char>, ValueV)>),
}

/// The entries of a specification-level object.
pub type EntriesV = Seq<(Seq<char>, ValueV)>;

/// A dynamic JSON value: null, a boolean, an integer, a string, an ordered
/// array, or an object held as an ordered list of key/value entries.
///
/// Numbers are restricted to signed 64-bit integers.
#[derive(Debug, PartialEq)]
pub enum JsonValue {
    Null,
    Bool(bool),
    Int(i64),
    Str(String),
    Arr(Vec<JsonValue>),
    Obj(Vec<(String, JsonValue)>),
}

/// The specification-level value that a `JsonValue` stands for.
pub open spec fn view_value(v: JsonValue) -> ValueV
    decreases v,
{
    match v {
        JsonValue::Null => ValueV::Null,
        JsonValue::Bool(b) => ValueV::Bool(b),
        JsonValue::Int(i) => ValueV::Int(i as int),
        JsonValue::Str(s) => ValueV::Str(s@),
        JsonValue::Arr(items) => ValueV::Arr(
            Seq::new(
                items@.len(),
                |i: int|
                    if 0 <= i < items@.len() {
                        proof {
                            assert(decreases_to!(items => items@));
                            assert(decreases_to!(items@ => items@[i]));
                        }
                        view_value(items@[i])
                    } else {
                        ValueV::Null
                    },
            ),
        ),
        JsonValue::Obj(entries) => ValueV::Obj(
            Seq::new(
                entries@.len(),
                |i: int|
                    if 0 <= i < entries@.len() {
                        proof {
                            assert(decreases_to!(entries => entries@));
                            assert(decreases_to!(entries@ => entries@[i]));
                            assert(decreases_to!(entries@[i] => entries@[i].1));
                        }
                        (entries@[i].0@, view_value(entries@[i].1))
                    } else {
                        (Seq::<char>::empty(), ValueV::Null)
                    },
            ),
        ),
    }
}

impl View for JsonValue {
    type V = ValueV;

    open spec fn view(&self) -> ValueV {
        view_value(*self)
    }
}

/// Strict lexicographic order on strings by code point, the order in which a
/// key-ordered map keeps its keys.
pub open spec fn chars_lt(a: Seq<char>, b: Seq<char>) -> bool
    decreases a.len(),
{
    if b.len() == 0 {
        false
    } else if a.len() == 0 {
        true
    } else if a[0] != b[0] {
        a[0] < b[0]
    } else {
        chars_lt(a.skip(1), b.skip(1))
    }
}

/// The specification-level view of an array's elements.
pub open spec fn elems_view(items: Seq<JsonValue>) -> Seq<ValueV> {
    Seq::new(items.len(), |i: int| view_value(items[i]))
}

/// The specification-level view of an object's entries.
pub open spec fn obj_entries_view(entries: Seq<(String, JsonValue)>) -> EntriesV {
    Seq::new(entries.len(), |i: int| (entries[i].0@, view_value(entries[i].1)))
}

/// An array value is viewed as the sequence of its elements' views.
pub proof fn lemma_view_arr(items: Vec<JsonValue>)
    ensures
        view_value(JsonValue::Arr(items)) == ValueV::Arr(elems_view(items@)),
{
    let got = view_value(JsonValue::Arr(items));
    assert(got is Arr);
    assert(got->Arr_0 =~= elems_view(items@));
}

/// An object value is viewed as the sequence of its entries' views.
pub proof fn lemma_view_obj(entries: Vec<(String, JsonValue)>)
    ensures
        view_value(JsonValue::Obj(entries)) == ValueV::Obj(obj_entries_view(entries@)),
{
    let got = view_value(JsonValue::Obj(entries));
    assert(got is Obj);
    assert(got->Obj_0 =~= obj_entries_view(entries@));
}

/// Exactly one of `chars_lt(a, b)`, `a == b`, `chars_lt(b, a)` holds.
pub proof fn lemma_chars_lt_trichotomy(a: Seq<char>, b: Seq<char>)
    ensures
        chars_lt(a, b) || chars_lt(b, a) || a == b,
        chars_lt(a, b) ==> !chars_lt(b, a) && a != b,
        chars_lt(b, a) ==> !chars_lt(a, b) && a != b,
    decreases a.len(),
{
    if a.len() == 0 && b.len() == 0 {
        assert(a =~= b);
    } else if a.len() == 0 || b.len() == 0 {
        assert(a.len() != b.len());
    } else if a[0] != b[0] {
        assert(a != b);
    } else {
        lemma_chars_lt_trichotomy(a.skip(1), b.skip(1));
        if !chars_lt(a, b) && !chars_lt(b, a) {
            assert(a.skip(1) == b.skip(1));
            assert forall|i: int| 0 <= i < a.len() implies a[i] == b[i] by {
                if i > 0 {
                    assert(a[i] == a.skip(1)[i - 1]);
                    assert(b[i] == b.skip(1)[i - 1]);
                }
            }
            assert(a =~= b);
        }
        if chars_lt(a, b) {
            assert(a.skip(1) != b.skip(1));
            assert(a != b);
        }
        if chars_lt(b, a) {
            assert(a.skip(1) != b.skip(1));
            assert(a != b);
        }
    }
}

/// `chars_lt` is transitive.
pub proof fn lemma_chars_lt_trans(a: Seq<char>, b: Seq<char>, c: Seq<char>)
    requires
        chars_lt(a, b),
        chars_lt(b, c),
    ensures
        chars_lt(a, c),
    decreases a.len(),
{
    if b.len() == 0 || c.len() == 0 {
    } else if a.len() == 0 {
    } else {
        if a[0] == b[0] && b[0] == c[0] {
            lemma_chars_lt_trans(a.skip(1), b.skip(1), c.skip(1));
        }
    }
}

/// All keys strictly increase from left to right.
pub open spec fn entries_sorted<T>(s: Seq<(Seq<char>, T)>) -> bool {
    forall|i: int, j: int| 0 <= i < j < s.len() ==> chars_lt(s[i].0, s[j].0)
}

/// A value is well formed when every object in it, at any depth, keeps its
/// keys in strictly increasing order.
pub open spec fn wf_value(w: ValueV) -> bool
    decreases w,
{
    match w {
        ValueV::Null => true,
        ValueV::Bool(_) => true,
        ValueV::Int(_) => true,
        ValueV::Str(_) => true,
        ValueV::Arr(ws) => wf_list(ws),
        ValueV::Obj(es) => entries_sorted(es) && wf_entries(es),
    }
}

/// Every element of the list is well formed.
pub open spec fn wf_list(ws: Seq<ValueV>) -> bool
    decreases ws,
{
    if ws.len() == 0 {
        true
    } else {
        wf_value(ws[0]) && wf_list(ws.skip(1))
    }
}

/// Every value of the entry list is well formed.
pub open spec fn wf_entries(es: EntriesV) -> bool
    decreases es,
{
    if es.len() == 0 {
        true
    } else {
        wf_value(es[0].1) && wf_entries(es.skip(1))
    }
}

/// A list is well formed exactly when each of its elements is.
pub proof fn lemma_wf_list_iff(ws: Seq<ValueV>)
    ensures
        wf_list(ws) <==> (forall|j: int| 0 <= j < ws.len() ==> wf_value(ws[j])),
    decreases ws.len(),
{
    if ws.len() > 0 {
        lemma_wf_list_iff(ws.skip(1));
        assert(forall|j: int| 0 <= j < ws.len() - 1 ==> ws.skip(1)[j] == ws[j + 1]);
        if wf_list(ws) {
            assert forall|j: int| 0 <= j < ws.len() implies wf_value(ws[j]) by {
                if j > 0 {
                    assert(wf_value(ws.skip(1)[j - 1]));
                }
            }
        }
        if forall|j: int| 0 <= j < ws.len() ==> wf_value(ws[j]) {
            assert(forall|j: int| 0 <= j < ws.skip(1).len() ==> wf_value(ws.skip(1)[j]));
            assert(wf_list(ws.skip(1)));
        }
    }
}

/// An entry list is well formed exactly when each of its values is.
pub proof fn lemma_wf_entries_iff(es: EntriesV)
    ensures
        wf_entries(es) <==> (forall|j: int| 0 <= j < es.len() ==> wf_value(es[j].1)),
    decreases es.len(),
{
    if es.len() > 0 {
        lemma_wf_entries_iff(es.skip(1));
        assert(forall|j: int| 0 <= j < es.len() - 1 ==> es.skip(1)[j] == es[j + 1]);
        if wf_entries(es) {
            assert forall|j: int| 0 <= j < es.len() implies wf_value(es[j].1) by {
                if j > 0 {
                    assert(wf_value(es.skip(1)[j - 1].1));
                }
            }
        }
        if forall|j: int| 0 <= j < es.len() ==> wf_value(es[j].1) {
            assert(forall|j: int| 0 <= j < es.skip(1).len() ==> wf_value(es.skip(1)[j].1));
            assert(wf_entries(es.skip(1)));
        }
    }
}

/// Decides `chars_lt` on two string slices.
pub fn str_lt(a: &str, b: &str) -> (r: bool)
    ensures
        r == chars_lt(a@, b@),
{
    let a_len = a.unicode_len();
    let b_len = b.unicode_len();
    let mut i: usize = 0;
    proof {
        assert(a@.skip(0) =~= a@);
        assert(b@.skip(0) =~= b@);
    }
    loop
        invariant
            i <= a_len,
            i <= b_len,
            a_len == a@.len(),
            b_len == b@.len(),
            chars_lt(a@, b@) == chars_lt(a@.skip(i as int), b@.skip(i as int)),
        decreases a_len - i,
    {
        if i == b_len {
            proof {
                assert(b@.skip(i as int).len() == 0);
            }
            return false;
        }
        if i == a_len {
            proof {
                assert(a@.skip(i as int).len() == 0);
                assert(b@.skip(i as int).len() > 0);
            }
            return true;
        }
        let ca = a.get_char(i);
        let cb = b.get_char(i);
        proof {
            assert(a@.skip(i as int)[0] == a@[i as int]);
            assert(b@.skip(i as int)[0] == b@[i as int]);
        }
        if ca != cb {
            return ca < cb;
        }
        proof {
            assert(a@.skip(i as int).skip(1) =~= a@.skip(i as int + 1));
            assert(b@.skip(i as int).skip(1) =~= b@.skip(i as int + 1));
        }
        i = i + 1;
    }
}

/// Decides view equality of two string slices.
pub fn str_eq(a: &str, b: &str) -> (r: bool)
    ensures
        r == (a@ == b@),
{
    let a_lt = str_lt(a, b);
    let b_lt = str_lt(b, a);
    proof {
        lemma_chars_lt_trichotomy(a@, b@);
    }
    !a_lt && !b_lt
}

impl JsonValue {
    /// A structural copy whose view is the view of the original.
    pub fn clone_value(&self) -> (r: JsonValue)
        ensures
            r@ == self@,
        decreases self,
    {
        match self {
            JsonValue::Null => JsonValue::Null,
            JsonValue::Bool(b) => JsonValue::Bool(*b),
            JsonValue::Int(i) => JsonValue::Int(*i),
            JsonValue::Str(s) => JsonValue::Str(s.clone()),
            JsonValue::Arr(items) => {
                let mut out: Vec<JsonValue> = Vec::new();
                let n = items.len();
                let mut i: usize = 0;
                while i < n
                    invariant
                        i <= n,
                        n == items@.len(),
                        out@.len() == i,
                        *self == JsonValue::Arr(*items),
                        forall|j: int| 0 <= j < i ==> view_value(out@[j]) == view_value(items@[j]),
                    decreases n - i,
                {
                    proof {
                        assert(decreases_to!(*self => self->Arr_0));
                        assert(decreases_to!(*items => items@));
                        assert(decreases_to!(items@ => items@[i as int]));
                    }
                    let c = items[i].clone_value();
                    out.push(c);
                    i = i + 1;
                }
                proof {
                    lemma_view_arr(out);
                    lemma_view_arr(*items);
                    assert(elems_view(out@) =~= elems_view(items@));
                }
                JsonValue::Arr(out)
            },
            JsonValue::Obj(entries) => {
                let mut out: Vec<(String, JsonValue)> = Vec::new();
                let n = entries.len();
                let mut i: usize = 0;
                while i < n
                    invariant
                        i <= n,
                        n == entries@.len(),
                        out@.len() == i,
                        *self == JsonValue::Obj(*entries),
                        forall|j: int| 0 <= j < i ==> out@[j].0@ == entries@[j].0@
                            && view_value(out@[j].1) == view_value(entries@[j].1),
                    decreases n - i,
                {
                    proof {
                        assert(decreases_to!(*self => self->Obj_0));
                        assert(decreases_to!(*entries => entries@));
                        assert(decreases_to!(entries@ => entries@[i as int]));
                        assert(decreases_to!(entries@[i as int] => entries@[i as int].1));
                    }
                    let k = entries[i].0.clone();
                    let c = entries[i].1.clone_value();
                    out.push((k, c));
                    i = i + 1;
                }
                proof {
                    lemma_view_obj(out);
                    lemma_view_obj(*entries);
                    assert(obj_entries_view(out@) =~= obj_entries_view(entries@));
                }
                JsonValue::Obj(out)
            },
        }
    }
}

} // verus!
