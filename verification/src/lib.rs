//! A JSON codec for frame-oriented transports.
//!
//! A transport moves discrete binary frames; an application moves typed
//! values. [`Json`] sits between the two: it turns one value into the payload
//! of one frame and the payload of one frame back into one value. Where a
//! frame begins and ends is the transport's business, never the codec's.

pub mod codec;
pub mod error;
mod format;
pub mod frame;

pub use codec::Json;
pub use error::{DeserializationError, SerializationError};
