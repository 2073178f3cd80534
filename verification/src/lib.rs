//! Codec, message model and relay logic for a length-delimited TCP plus
//! raw-UDP control protocol: a byte-oriented reader/writer pair, two
//! envelope families dispatched by a discriminant byte, compressed-payload
//! handling, and the pure decisions of a traffic relay.

pub mod data;
pub mod packets;
pub mod relay;
pub mod stream;

pub use crate::stream::Reader;
pub use crate::stream::Writer;
