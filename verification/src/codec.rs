//! The codec: one value to one frame, one frame to one value.

use crate::error::{DeserializationError, SerializationError};
use crate::format::{read_json, write_json};
use crate::frame::{payload, seal};
use bytes::{Bytes, BytesMut};
use serde::de::DeserializeOwned;
use serde::Serialize;
use std::marker::PhantomData;
use vstd::prelude::*;

verus! {

/// The JSON codec for values of type `T`. It holds nothing: the type
/// parameter alone says which values it converts.
///
/// Any `T` that can be written as JSON can be serialized, and any `T` that can
/// be read from JSON can be deserialized; the codec knows no list of types.
///
/// What JSON cannot carry, the codec cannot carry either. A number may come
/// back less precise than it went in, and the writer puts `null` where a
/// floating-point value is not finite. Whether a field that `T` does not know
/// is passed over or refused is up to `T`'s own reading of JSON.
pub struct Json<T> {
    marker: PhantomData<T>,
}

/// Whether `out` is `encoded`, the JSON writer's outcome, put into a frame:
/// the writer's text as the payload of one frame, byte for byte, or the
/// writer's report as it came.
pub open spec fn framed(
    encoded: Result<Vec<u8>, serde_json::Error>,
    out: Result<Bytes, SerializationError>,
) -> bool {
    match encoded {
        Ok(text) => out is Ok && payload(out->Ok_0) == text@,
        Err(cause) => out == Err::<Bytes, SerializationError>(SerializationError { cause }),
    }
}

/// What the codec hands on for `decoded`, the JSON reader's outcome: the value
/// as it was read, or the reader's report as it came.
pub open spec fn delivered<T>(decoded: Result<T, serde_json::Error>) -> Result<
    T,
    DeserializationError,
> {
    match decoded {
        Ok(value) => Ok(value),
        Err(cause) => Err(DeserializationError { cause }),
    }
}

/// Makes the frame out of the JSON writer's outcome. Text becomes a payload
/// without a byte added, dropped or moved; a failure stays a failure and
/// keeps its report.
pub fn into_frame(encoded: Result<Vec<u8>, serde_json::Error>) -> (out: Result<
    Bytes,
    SerializationError,
>)
    ensures
        framed(encoded, out),
        out is Ok <==> encoded is Ok,
{
    match encoded {
        Ok(text) => Ok(seal(text)),
        Err(cause) => Err(SerializationError { cause }),
    }
}

/// Makes the codec's answer out of the JSON reader's outcome. A value that
/// was read is handed on as it is; a failure stays a failure and keeps its
/// report, and no value is made up in its place.
pub fn into_value<T>(decoded: Result<T, serde_json::Error>) -> (out: Result<
    T,
    DeserializationError,
>)
    ensures
        out == delivered(decoded),
{
    match decoded {
        Ok(value) => Ok(value),
        Err(cause) => Err(DeserializationError { cause }),
    }
}

impl<T> Json<T> {
    /// A codec for `T`.
    pub fn new() -> (codec: Self) {
        Json { marker: PhantomData }
    }

    /// A codec carries no state: any two codecs for one type are the same
    /// codec, so it does not matter which of them converts a value, nor what
    /// it converted before.
    pub proof fn lemma_stateless(self, other: Self)
        ensures
            self == other,
    {
    }
}

impl<T: Serialize> Json<T> {
    /// Writes `item` as JSON into the payload of one frame: `into_frame` of
    /// what the JSON writer makes of `item`. The codec is left as it was.
    pub fn serialize(&mut self, item: &T) -> (out: Result<Bytes, SerializationError>)
        ensures
            *final(self) == *old(self),
    {
        into_frame(write_json(item))
    }
}

impl<T: DeserializeOwned> Json<T> {
    /// Reads one value of `T` from the whole of a frame's payload:
    /// `into_value` of what the JSON reader makes of `src`. The codec is left
    /// as it was.
    pub fn deserialize(&mut self, src: &BytesMut) -> (out: Result<T, DeserializationError>)
        ensures
            *final(self) == *old(self),
    {
        into_value(read_json(src))
    }
}

} // verus!
