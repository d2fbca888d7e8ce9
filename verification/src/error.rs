//! The two ways a conversion can fail.

use vstd::prelude::*;

verus! {

/// What the JSON routines report when they give up.
#[verifier::external_type_specification]
#[verifier::external_body]
pub struct ExJsonError(serde_json::Error);

/// A value could not be written as JSON.
#[derive(Debug)]
pub struct SerializationError {
    /// The report of the JSON writer, untouched.
    pub cause: serde_json::Error,
}

/// A frame's bytes could not be read as a value of the wanted type.
#[derive(Debug)]
pub struct DeserializationError {
    /// The report of the JSON reader, untouched.
    pub cause: serde_json::Error,
}

} // verus!
