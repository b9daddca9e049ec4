//! An object containing non-standard meta information: a key-ordered map of
//! free-form dynamic values.

use vstd::prelude::*;
use crate::string_map::StringMap;
use crate::value::JsonValue;

verus! {

/// An object containing non-standard meta information.
pub type Meta = StringMap<JsonValue>;

} // verus!
