//! Resource objects: identity, the untyped wire form, the strictly typed
//! form, and the fallible conversions between them.

pub mod identifier;
pub mod generic;
pub mod resource;
pub mod conversion_error;

pub use identifier::Identifier;
pub use generic::GenericObject;
pub use resource::{ResourceObject, Attributes};
pub use conversion_error::{ObjectConversionError, AttributesError};
