//! The error produced when converting into a typed resource object fails.

use vstd::prelude::*;
use vstd::string::StringExecFns;

verus! {

/// The reason an attribute mapping failed to re-materialize into its
/// strictly typed form.
#[derive(Debug, PartialEq)]
pub struct AttributesError {
    /// A human-readable description of the structural mismatch.
    pub message: String,
}

impl View for AttributesError {
    type V = Seq<char>;

    open spec fn view(&self) -> Seq<char> {
        self.message@
    }
}

/// Why a conversion into a typed resource object failed: the attribute
/// mapping would not deserialize, or the stored type tag was not the one the
/// attribute type declares.
#[derive(Debug, PartialEq)]
pub enum ObjectConversionError {
    FailedDeserialization(AttributesError),
    ImproperType { expected: String, got: String },
}

/// The specification-level value of a conversion error.
pub enum ObjectConversionErrorV {
    FailedDeserialization(Seq<char>),
    ImproperType { expected: Seq<char>, got: Seq<char> },
}

impl View for ObjectConversionError {
    type V = ObjectConversionErrorV;

    open spec fn view(&self) -> ObjectConversionErrorV {
        match self {
            ObjectConversionError::FailedDeserialization(e) => {
                ObjectConversionErrorV::FailedDeserialization(e@)
            },
            ObjectConversionError::ImproperType { expected, got } => {
                ObjectConversionErrorV::ImproperType { expected: expected@, got: got@ }
            },
        }
    }
}

/// The human-readable description of a conversion error.
pub open spec fn spec_describe(v: ObjectConversionErrorV) -> Seq<char> {
    match v {
        ObjectConversionErrorV::FailedDeserialization(msg) => "Object Conversion Error: "@
            + "Failed to Deserialize Attributes ("@ + msg + ")"@,
        ObjectConversionErrorV::ImproperType { expected, got } => "Object Conversion Error: "@
            + "Improper type (expected "@ + expected + ", got "@ + got + ")"@,
    }
}

impl ObjectConversionError {
    /// The human-readable description of this error.
    pub fn describe(&self) -> (r: String)
        ensures
            r@ == spec_describe(self@),
    {
        let mut s = "Object Conversion Error: ".to_owned();
        match self {
            ObjectConversionError::FailedDeserialization(e) => {
                s.append("Failed to Deserialize Attributes (");
                s.append(e.message.as_str());
                s.append(")");
            },
            ObjectConversionError::ImproperType { expected, got } => {
                s.append("Improper type (expected ");
                s.append(expected.as_str());
                s.append(", got ");
                s.append(got.as_str());
                s.append(")");
            },
        }
        proof {
            assert(s@ =~= spec_describe(self@));
        }
        s
    }
}

impl From<AttributesError> for ObjectConversionError {
    fn from(err: AttributesError) -> (r: Self) {
        ObjectConversionError::FailedDeserialization(err)
    }
}

impl vstd::std_specs::convert::FromSpecImpl<AttributesError> for ObjectConversionError {
    open spec fn obeys_from_spec() -> bool {
        true
    }

    open spec fn from_spec(err: AttributesError) -> Self {
        ObjectConversionError::FailedDeserialization(err)
    }
}

} // verus!
