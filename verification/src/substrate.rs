//! The boundary to the dynamic value substrate: JSON text is parsed by the
//! outside library, and the parsed tree is walked once into the library's
//! own value type, with every object re-inserted in key order.

use vstd::prelude::*;
use crate::string_map::{
    StringMap, entries_sorted, entries_insert, lemma_entries_insert_sorted,
    lemma_entries_insert_elems,
};
use crate::value::{
    JsonValue, ValueV, wf_value, wf_list, wf_entries, lemma_wf_list_iff, lemma_wf_entries_iff,
    elems_view, obj_entries_view, lemma_view_arr, lemma_view_obj,
};

verus! {

#[verifier::external_type_specification]
#[verifier::external_body]
pub struct ExValue(serde_json::Value);

#[verifier::external_type_specification]
#[verifier::external_body]
pub struct ExNumber(serde_json::Number);

/// One step of the parsed tree, with the payloads still in the substrate's
/// types.
enum RawNode {
    Null,
    Bool(bool),
    Num(serde_json::Number),
    Str(String),
    Arr(Vec<serde_json::Value>),
    Obj(Vec<(String, serde_json::Value)>),
}

/// Relies on serde_json::from_str: parses JSON text into the substrate's
/// dynamic value, or reports the syntax error's message.
#[verifier::external_body]
fn json_from_str(s: &str) -> (r: Result<serde_json::Value, String>) {
    match serde_json::from_str::<serde_json::Value>(s) {
        Ok(v) => Ok(v),
        Err(e) => Err(format!("{}", e)),
    }
}

/// Relies on serde_json::Value being exactly one of null, a boolean, a
/// number, a string, an array, or an object; each arm moves the payload out.
#[verifier::external_body]
fn classify(v: serde_json::Value) -> (r: RawNode) {
    match v {
        serde_json::Value::Null => RawNode::Null,
        serde_json::Value::Bool(b) => RawNode::Bool(b),
        serde_json::Value::Number(n) => RawNode::Num(n),
        serde_json::Value::String(s) => RawNode::Str(s),
        serde_json::Value::Array(items) => RawNode::Arr(items),
        serde_json::Value::Object(m) => RawNode::Obj(m.into_iter().collect()),
    }
}

/// Relies on serde_json::Number::as_i64: the number as a signed 64-bit
/// integer, where it is one.
#[verifier::external_body]
fn number_as_i64(n: &serde_json::Number) -> (r: Option<i64>) {
    n.as_i64()
}

/// Why JSON text could not be taken into the library's value type.
#[derive(Debug, PartialEq)]
pub enum ParseError {
    /// The text is not valid JSON; carries the syntax error's message.
    Syntax(String),
    /// A number that is not a signed 64-bit integer.
    UnsupportedNumber,
    /// Nesting beyond the supported depth.
    TooDeep,
}

/// The nesting depth up to which parsed trees are converted.
pub const MAX_DEPTH: u32 = 500;

/// Converts one parsed node, walking at most `fuel` levels deep.
fn convert_node(v: serde_json::Value, fuel: u32) -> (r: Result<JsonValue, ParseError>)
    ensures
        r matches Ok(jv) ==> wf_value(jv@),
    decreases fuel,
{
    match classify(v) {
        RawNode::Null => Ok(JsonValue::Null),
        RawNode::Bool(b) => Ok(JsonValue::Bool(b)),
        RawNode::Num(n) => match number_as_i64(&n) {
            Option::Some(i) => Ok(JsonValue::Int(i)),
            Option::None => Err(ParseError::UnsupportedNumber),
        },
        RawNode::Str(s) => Ok(JsonValue::Str(s)),
        RawNode::Arr(items) => {
            if fuel == 0 {
                return Err(ParseError::TooDeep);
            }
            let mut rest = items;
            let mut out: Vec<JsonValue> = Vec::new();
            while rest.len() > 0
                invariant
                    fuel >= 1,
                    forall|j: int| 0 <= j < out@.len() ==> wf_value(#[trigger] out@[j]@),
                decreases rest.len(),
            {
                let item = rest.remove(0);
                match convert_node(item, fuel - 1) {
                    Ok(jv) => {
                        out.push(jv);
                    },
                    Err(e) => {
                        return Err(e);
                    },
                }
            }
            proof {
                lemma_view_arr(out);
                assert forall|j: int| 0 <= j < elems_view(out@).len() implies wf_value(
                    elems_view(out@)[j],
                ) by {
                    assert(elems_view(out@)[j] == out@[j]@);
                    assert(wf_value(out@[j]@));
                }
                lemma_wf_list_iff(elems_view(out@));
            }
            Ok(JsonValue::Arr(out))
        },
        RawNode::Obj(entries) => {
            if fuel == 0 {
                return Err(ParseError::TooDeep);
            }
            let mut rest = entries;
            let mut m: StringMap<JsonValue> = StringMap::new();
            while rest.len() > 0
                invariant
                    fuel >= 1,
                    entries_sorted(m@),
                    forall|j: int| 0 <= j < m@.len() ==> wf_value(#[trigger] m@[j].1),
                decreases rest.len(),
            {
                let (k, v) = rest.remove(0);
                match convert_node(v, fuel - 1) {
                    Ok(jv) => {
                        proof {
                            lemma_entries_insert_sorted(m@, k@, jv@);
                            lemma_entries_insert_elems(m@, k@, jv@);
                        }
                        let ghost before = m@;
                        m.insert(k, jv);
                        proof {
                            assert forall|j: int| 0 <= j < m@.len() implies wf_value(
                                #[trigger] m@[j].1,
                            ) by {
                                if m@[j] == (k@, jv@) {
                                } else {
                                    assert(before.contains(m@[j]));
                                    let i = choose|i: int|
                                        0 <= i < before.len() && before[i] == m@[j];
                                    assert(wf_value(before[i].1));
                                }
                            }
                        }
                    },
                    Err(e) => {
                        return Err(e);
                    },
                }
            }
            let ghost mv = m@;
            let obj = JsonValue::Obj(m.entries);
            proof {
                let es = obj->Obj_0;
                lemma_view_obj(es);
                assert(obj_entries_view(es@) =~= mv);
                assert forall|j: int| 0 <= j < obj_entries_view(es@).len() implies wf_value(
                    obj_entries_view(es@)[j].1,
                ) by {
                    assert(obj_entries_view(es@)[j] == mv[j]);
                    assert(wf_value(mv[j].1));
                }
                lemma_wf_entries_iff(obj_entries_view(es@));
            }
            Ok(obj)
        },
    }
}

/// Parses JSON text through the substrate and converts the result: every
/// object of the returned value keeps its keys in strictly increasing
/// order, whatever order the text used.
pub fn parse_text(s: &str) -> (r: Result<JsonValue, ParseError>)
    ensures
        r matches Ok(v) ==> wf_value(v@),
{
    match json_from_str(s) {
        Ok(v) => convert_node(v, MAX_DEPTH),
        Err(msg) => Err(ParseError::Syntax(msg)),
    }
}

} // verus!
