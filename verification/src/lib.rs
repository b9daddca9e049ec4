//! An in-memory model of JSON:API documents: a dynamic JSON value substrate,
//! typed and untyped resource objects, the conversions between them, and the
//! absent/one/many cardinality container the format requires.

pub mod value;
pub mod string_map;
pub mod codec;
pub mod meta;
pub mod links;
pub mod optional_vec;
pub mod object;
pub mod relationships;
pub mod error;
pub mod jsonapi;
pub mod document;
pub mod text;
pub mod substrate;

pub use crate::value::JsonValue;
pub use crate::string_map::StringMap;
pub use crate::meta::Meta;
pub use crate::links::{Links, Link};
pub use crate::optional_vec::OptionalVec;
pub use crate::object::{Identifier, GenericObject, ResourceObject, Attributes, ObjectConversionError, AttributesError};
pub use crate::relationships::{Relationship, Relationships};
pub use crate::error::{Error, ErrorSource};
pub use crate::jsonapi::JsonApi;
pub use crate::document::Document;
