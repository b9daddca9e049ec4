//! Rendering a dynamic value as JSON text, byte for byte: object entries in
//! stored order, optional fields already absent, strings escaped.

use vstd::prelude::*;
use crate::value::{JsonValue, ValueV, elems_view, obj_entries_view, lemma_view_arr,
    lemma_view_obj};

verus! {

/// The byte standing for a hexadecimal digit, lower case.
pub open spec fn hex_nibble(n: int) -> u8 {
    if n < 10 {
        (48 + n) as u8
    } else {
        (87 + n) as u8
    }
}

/// The four hexadecimal digits of a value below 0x10000.
pub open spec fn hex4(n: int) -> Seq<u8> {
    seq![
        hex_nibble(n / 4096 % 16),
        hex_nibble(n / 256 % 16),
        hex_nibble(n / 16 % 16),
        hex_nibble(n % 16),
    ]
}

/// The bytes a character contributes to a JSON string literal: the short
/// escapes of the format, `\u` escapes for other control characters and for
/// everything outside ASCII (a surrogate pair above 0xFFFF), and the bare
/// byte otherwise.
pub open spec fn char_text(c: char) -> Seq<u8> {
    let n = c as u32;
    if n == 0x22 {
        seq![0x5c as u8, 0x22 as u8]
    } else if n == 0x5c {
        seq![0x5c as u8, 0x5c as u8]
    } else if n == 0x08 {
        seq![0x5c as u8, 0x62 as u8]
    } else if n == 0x0c {
        seq![0x5c as u8, 0x66 as u8]
    } else if n == 0x0a {
        seq![0x5c as u8, 0x6e as u8]
    } else if n == 0x0d {
        seq![0x5c as u8, 0x72 as u8]
    } else if n == 0x09 {
        seq![0x5c as u8, 0x74 as u8]
    } else if n < 0x20 {
        seq![0x5c as u8, 0x75 as u8] + hex4(n as int)
    } else if n < 0x80 {
        seq![n as u8]
    } else if n < 0x10000 {
        seq![0x5c as u8, 0x75 as u8] + hex4(n as int)
    } else {
        let v = n - 0x10000;
        seq![0x5c as u8, 0x75 as u8] + hex4(0xd800 + v as int / 0x400) + seq![
            0x5c as u8,
            0x75 as u8,
        ] + hex4(0xdc00 + v as int % 0x400)
    }
}

/// The bytes of a string's characters inside a JSON string literal.
pub open spec fn str_text(s: Seq<char>) -> Seq<u8>
    decreases s.len(),
{
    if s.len() == 0 {
        Seq::empty()
    } else {
        char_text(s[0]) + str_text(s.skip(1))
    }
}

/// The decimal digits of a non-negative number.
pub open spec fn nat_text(n: int) -> Seq<u8>
    decreases n,
{
    if n < 10 {
        seq![hex_nibble(if n < 0 { 0 } else { n })]
    } else {
        nat_text(n / 10) + seq![hex_nibble(n % 10)]
    }
}

/// The decimal rendering of an integer.
pub open spec fn int_text(i: int) -> Seq<u8> {
    if i < 0 {
        seq![0x2d as u8] + nat_text(-i)
    } else {
        nat_text(i)
    }
}

/// The JSON text of a value: `null`, `true`, `false`, a number, a quoted
/// string, an array, or an object with its entries in stored order.
pub open spec fn text_of(w: ValueV) -> Seq<u8>
    decreases w,
{
    match w {
        ValueV::Null => seq![0x6e as u8, 0x75 as u8, 0x6c as u8, 0x6c as u8],
        ValueV::Bool(b) => if b {
            seq![0x74 as u8, 0x72 as u8, 0x75 as u8, 0x65 as u8]
        } else {
            seq![0x66 as u8, 0x61 as u8, 0x6c as u8, 0x73 as u8, 0x65 as u8]
        },
        ValueV::Int(i) => int_text(i),
        ValueV::Str(s) => seq![0x22 as u8] + str_text(s) + seq![0x22 as u8],
        ValueV::Arr(ws) => if ws.len() == 0 {
            seq![0x5b as u8, 0x5d as u8]
        } else {
            seq![0x5b as u8] + text_of(ws[0]) + arr_tail_text(ws.skip(1)) + seq![0x5d as u8]
        },
        ValueV::Obj(es) => if es.len() == 0 {
            seq![0x7b as u8, 0x7d as u8]
        } else {
            seq![0x7b as u8] + entry_text(es[0]) + obj_tail_text(es.skip(1)) + seq![0x7d as u8]
        },
    }
}

/// The text of the remaining array elements, each preceded by a comma.
pub open spec fn arr_tail_text(ws: Seq<ValueV>) -> Seq<u8>
    decreases ws,
{
    if ws.len() == 0 {
        Seq::empty()
    } else {
        seq![0x2c as u8] + text_of(ws[0]) + arr_tail_text(ws.skip(1))
    }
}

/// The text of one object entry: the quoted key, a colon, and the value.
pub open spec fn entry_text(e: (Seq<char>, ValueV)) -> Seq<u8>
    decreases e,
{
    seq![0x22 as u8] + str_text(e.0) + seq![0x22 as u8, 0x3a as u8] + text_of(e.1)
}

/// The text of the remaining object entries, each preceded by a comma.
pub open spec fn obj_tail_text(es: Seq<(Seq<char>, ValueV)>) -> Seq<u8>
    decreases es,
{
    if es.len() == 0 {
        Seq::empty()
    } else {
        seq![0x2c as u8] + entry_text(es[0]) + obj_tail_text(es.skip(1))
    }
}

/// Appends the hexadecimal digit of a value below 16.
fn push_nibble(n: u32, out: &mut Vec<u8>)
    requires
        n < 16,
    ensures
        final(out)@ == old(out)@ + seq![hex_nibble(n as int)],
{
    if n < 10 {
        out.push((48 + n) as u8);
    } else {
        out.push((87 + n) as u8);
    }
}

/// Appends the four hexadecimal digits of a value below 0x10000.
fn push_hex4(n: u32, out: &mut Vec<u8>)
    requires
        n < 0x10000,
    ensures
        final(out)@ == old(out)@ + hex4(n as int),
{
    push_nibble(n / 4096 % 16, out);
    push_nibble(n / 256 % 16, out);
    push_nibble(n / 16 % 16, out);
    push_nibble(n % 16, out);
    proof {
        assert(final(out)@ =~= old(out)@ + hex4(n as int));
    }
}

/// Appends the bytes a character contributes to a string literal.
fn push_char(c: char, out: &mut Vec<u8>)
    ensures
        final(out)@ == old(out)@ + char_text(c),
{
    let n = c as u32;
    if n == 0x22 {
        out.push(0x5c);
        out.push(0x22);
    } else if n == 0x5c {
        out.push(0x5c);
        out.push(0x5c);
    } else if n == 0x08 {
        out.push(0x5c);
        out.push(0x62);
    } else if n == 0x0c {
        out.push(0x5c);
        out.push(0x66);
    } else if n == 0x0a {
        out.push(0x5c);
        out.push(0x6e);
    } else if n == 0x0d {
        out.push(0x5c);
        out.push(0x72);
    } else if n == 0x09 {
        out.push(0x5c);
        out.push(0x74);
    } else if n < 0x20 {
        out.push(0x5c);
        out.push(0x75);
        push_hex4(n, out);
    } else if n < 0x80 {
        out.push(n as u8);
    } else if n < 0x10000 {
        out.push(0x5c);
        out.push(0x75);
        push_hex4(n, out);
    } else {
        let v = n - 0x10000;
        out.push(0x5c);
        out.push(0x75);
        push_hex4(0xd800 + v / 0x400, out);
        out.push(0x5c);
        out.push(0x75);
        push_hex4(0xdc00 + v % 0x400, out);
    }
    proof {
        assert(final(out)@ =~= old(out)@ + char_text(c));
    }
}

/// Appends a quoted, escaped string literal.
fn push_string(s: &str, out: &mut Vec<u8>)
    ensures
        final(out)@ == old(out)@ + seq![0x22 as u8] + str_text(s@) + seq![0x22 as u8],
{
    let ghost base = out@;
    out.push(0x22);
    let n = s.unicode_len();
    let mut i: usize = 0;
    proof {
        assert(s@.skip(0) =~= s@);
    }
    while i < n
        invariant
            i <= n,
            n == s@.len(),
            out@ + str_text(s@.skip(i as int)) == base + seq![0x22 as u8] + str_text(s@),
        decreases n - i,
    {
        proof {
            assert(s@.skip(i as int)[0] == s@[i as int]);
            assert(s@.skip(i as int).skip(1) =~= s@.skip(i as int + 1));
        }
        let c = s.get_char(i);
        push_char(c, out);
        proof {
            assert(out@ + str_text(s@.skip(i as int + 1)) =~= base + seq![0x22 as u8] + str_text(
                s@,
            ));
        }
        i = i + 1;
    }
    proof {
        assert(str_text(s@.skip(n as int)) =~= Seq::<u8>::empty());
        assert(out@ =~= base + seq![0x22 as u8] + str_text(s@));
    }
    out.push(0x22);
    proof {
        assert(final(out)@ =~= base + seq![0x22 as u8] + str_text(s@) + seq![0x22 as u8]);
    }
}

/// Appends the decimal digits of a non-negative number.
fn push_nat(n: u64, out: &mut Vec<u8>)
    ensures
        final(out)@ == old(out)@ + nat_text(n as int),
    decreases n,
{
    if n < 10 {
        push_nibble(n as u32, out);
    } else {
        push_nat(n / 10, out);
        push_nibble((n % 10) as u32, out);
        proof {
            assert(final(out)@ =~= old(out)@ + nat_text(n as int));
        }
    }
}

/// Appends the decimal rendering of an integer.
fn push_int(i: i64, out: &mut Vec<u8>)
    ensures
        final(out)@ == old(out)@ + int_text(i as int),
{
    if i >= 0 {
        push_nat(i as u64, out);
    } else {
        out.push(0x2d);
        let m: u64 = ((-(i + 1)) as u64) + 1;
        proof {
            assert(m as int == -(i as int));
        }
        push_nat(m, out);
        proof {
            assert(final(out)@ =~= old(out)@ + int_text(i as int));
        }
    }
}

/// Appends the text of one object entry.
fn push_entry(e: &(String, JsonValue), out: &mut Vec<u8>)
    ensures
        final(out)@ == old(out)@ + entry_text((e.0@, e.1@)),
    decreases e,
{
    let ghost base = out@;
    push_string(e.0.as_str(), out);
    out.push(0x3a);
    proof {
        assert(decreases_to!(*e => e.1));
    }
    write_value(&e.1, out);
    proof {
        assert(final(out)@ =~= base + entry_text((e.0@, e.1@)));
    }
}

/// Appends the JSON text of a value.
#[verifier::rlimit(100)]
fn write_value(v: &JsonValue, out: &mut Vec<u8>)
    ensures
        final(out)@ == old(out)@ + text_of(v@),
    decreases v,
{
    let ghost base = out@;
    match v {
        JsonValue::Null => {
            out.push(0x6e);
            out.push(0x75);
            out.push(0x6c);
            out.push(0x6c);
            proof {
                assert(final(out)@ =~= base + text_of(v@));
            }
        },
        JsonValue::Bool(b) => {
            if *b {
                out.push(0x74);
                out.push(0x72);
                out.push(0x75);
                out.push(0x65);
            } else {
                out.push(0x66);
                out.push(0x61);
                out.push(0x6c);
                out.push(0x73);
                out.push(0x65);
            }
            proof {
                assert(final(out)@ =~= base + text_of(v@));
            }
        },
        JsonValue::Int(i) => {
            push_int(*i, out);
        },
        JsonValue::Str(s) => {
            push_string(s.as_str(), out);
            proof {
                assert(final(out)@ =~= base + text_of(v@));
            }
        },
        JsonValue::Arr(items) => {
            proof {
                lemma_view_arr(*items);
            }
            let ghost lw = elems_view(items@);
            out.push(0x5b);
            let n = items.len();
            if n == 0 {
                out.push(0x5d);
                proof {
                    assert(final(out)@ =~= base + text_of(v@));
                }
                return ;
            }
            proof {
                assert(decreases_to!(*v => v->Arr_0));
                assert(decreases_to!(*items => items@));
                assert(decreases_to!(items@ => items@[0int]));
            }
            write_value(&items[0], out);
            let mut i: usize = 1;
            while i < n
                invariant
                    1 <= i <= n,
                    n == items@.len(),
                    *v == JsonValue::Arr(*items),
                    lw == elems_view(items@),
                    out@ + arr_tail_text(lw.skip(i as int)) == base + seq![0x5b as u8] + text_of(
                        lw[0],
                    ) + arr_tail_text(lw.skip(1)),
                decreases n - i,
            {
                proof {
                    assert(lw.skip(i as int)[0] == lw[i as int]);
                    assert(lw.skip(i as int).skip(1) =~= lw.skip(i as int + 1));
                    assert(decreases_to!(*v => v->Arr_0));
                    assert(decreases_to!(*items => items@));
                    assert(decreases_to!(items@ => items@[i as int]));
                }
                out.push(0x2c);
                write_value(&items[i], out);
                proof {
                    assert(out@ + arr_tail_text(lw.skip(i as int + 1)) =~= base + seq![0x5b as u8]
                        + text_of(lw[0]) + arr_tail_text(lw.skip(1)));
                }
                i = i + 1;
            }
            proof {
                assert(arr_tail_text(lw.skip(n as int)) =~= Seq::<u8>::empty());
                assert(out@ =~= base + seq![0x5b as u8] + text_of(lw[0]) + arr_tail_text(
                    lw.skip(1),
                ));
            }
            out.push(0x5d);
            proof {
                assert(final(out)@ =~= base + text_of(v@));
            }
        },
        JsonValue::Obj(entries) => {
            proof {
                lemma_view_obj(*entries);
            }
            let ghost ew = obj_entries_view(entries@);
            out.push(0x7b);
            let n = entries.len();
            if n == 0 {
                out.push(0x7d);
                proof {
                    assert(final(out)@ =~= base + text_of(v@));
                }
                return ;
            }
            proof {
                assert(decreases_to!(*v => v->Obj_0));
                assert(decreases_to!(*entries => entries@));
                assert(decreases_to!(entries@ => entries@[0int]));
            }
            push_entry(&entries[0], out);
            proof {
                assert(out@ =~= base + seq![0x7b as u8] + entry_text(ew[0]));
            }
            let mut i: usize = 1;
            while i < n
                invariant
                    1 <= i <= n,
                    n == entries@.len(),
                    *v == JsonValue::Obj(*entries),
                    ew == obj_entries_view(entries@),
                    out@ + obj_tail_text(ew.skip(i as int)) == base + seq![0x7b as u8]
                        + entry_text(ew[0]) + obj_tail_text(ew.skip(1)),
                decreases n - i,
            {
                proof {
                    assert(ew.skip(i as int)[0] == ew[i as int]);
                    assert(ew.skip(i as int).skip(1) =~= ew.skip(i as int + 1));
                    assert(decreases_to!(*v => v->Obj_0));
                    assert(decreases_to!(*entries => entries@));
                    assert(decreases_to!(entries@ => entries@[i as int]));
                }
                out.push(0x2c);
                push_entry(&entries[i], out);
                proof {
                    assert(out@ + obj_tail_text(ew.skip(i as int + 1)) =~= base + seq![0x7b as u8]
                        + entry_text(ew[0]) + obj_tail_text(ew.skip(1)));
                }
                i = i + 1;
            }
            proof {
                assert(obj_tail_text(ew.skip(n as int)) =~= Seq::<u8>::empty());
                assert(out@ =~= base + seq![0x7b as u8] + entry_text(ew[0]) + obj_tail_text(
                    ew.skip(1),
                ));
            }
            out.push(0x7d);
            proof {
                assert(final(out)@ =~= base + text_of(v@));
            }
        },
    }
}

impl JsonValue {
    /// The JSON text of this value, as bytes.
    pub fn to_text(&self) -> (r: Vec<u8>)
        ensures
            r@ == text_of(self@),
    {
        let mut out: Vec<u8> = Vec::new();
        write_value(self, &mut out);
        proof {
            assert(out@ =~= text_of(self@));
        }
        out
    }
}

} // verus!
