//! The JSON routines themselves, which this crate calls and does not own.

use bytes::{Buf, BytesMut};
use serde::de::DeserializeOwned;
use serde::Serialize;
use vstd::prelude::*;

verus! {

/// `serde_json::to_vec`: the compact JSON text of `item`, or the writer's
/// report. Which of the two comes back is decided by `T`'s own `Serialize`
/// and by the writer; nothing is claimed of either here.
#[verifier::external_body]
pub(crate) fn write_json<T: Serialize>(item: &T) -> (encoded: Result<Vec<u8>, serde_json::Error>) {
    serde_json::to_vec(item)
}

/// `serde_json::from_reader`, fed through `Buf::reader` with the frame's bytes
/// from the first to the last: one value of `T` read from the whole payload,
/// or the reader's report. Which of the two comes back is decided by `T`'s own
/// `Deserialize` and by the reader; nothing is claimed of either here.
#[verifier::external_body]
pub(crate) fn read_json<T: DeserializeOwned>(src: &BytesMut) -> (decoded: Result<T, serde_json::Error>) {
    serde_json::from_reader(std::io::Cursor::new(src).reader())
}

} // verus!
