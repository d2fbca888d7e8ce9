//! Frame payloads: the byte buffers that a transport hands over and takes.

use bytes::{Bytes, BytesMut};
use vstd::prelude::*;

verus! {

/// An immutable frame payload, as handed to the transport.
#[verifier::external_type_specification]
#[verifier::external_body]
pub struct ExBytes(Bytes);

/// A frame payload as the transport read it.
#[verifier::external_type_specification]
#[verifier::external_body]
pub struct ExBytesMut(BytesMut);

/// The bytes that an outgoing frame holds, in order.
pub uninterp spec fn payload(frame: Bytes) -> Seq<u8>;

/// `Bytes::from(Vec<u8>)`: the buffer takes the vector over as it is, so the
/// frame holds the vector's bytes, in the vector's order, and nothing else.
#[verifier::external_body]
pub(crate) fn seal(encoded: Vec<u8>) -> (frame: Bytes)
    ensures
        payload(frame) == encoded@,
{
    Bytes::from(encoded)
}

} // verus!
