use vstd::prelude::*;

verus! {

/// Why a document could not be read or written.
#[derive(Clone, Copy, Debug, PartialEq, Eq)]
pub enum CodecError {
    /// The input is not syntactically valid JSON.
    MalformedInput,
    /// The input satisfies neither root shape.
    NoVariantMatched,
    /// A required field is missing, or a field holds JSON of the wrong type.
    ShapeMismatch,
    /// A key of an extension bag is also the key of a named field.
    ExtensionCollision,
}

impl CodecError {
    /// The sentence that describes the error.
    pub open spec fn sentence(self) -> Seq<char> {
        match self {
            CodecError::MalformedInput => "the input is not valid JSON"@,
            CodecError::NoVariantMatched => "the input matches no known document shape"@,
            CodecError::ShapeMismatch => "a field is missing or has the wrong JSON type"@,
            CodecError::ExtensionCollision => "an extension key collides with a named field"@,
        }
    }

    /// A short sentence that describes the error.
    pub fn message(&self) -> (text: &'static str)
        ensures
            text@ == self.sentence(),
    {
        match self {
            CodecError::MalformedInput => "the input is not valid JSON",
            CodecError::NoVariantMatched => "the input matches no known document shape",
            CodecError::ShapeMismatch => "a field is missing or has the wrong JSON type",
            CodecError::ExtensionCollision => "an extension key collides with a named field",
        }
    }
}

} // verus!
