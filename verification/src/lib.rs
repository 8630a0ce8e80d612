//! Compact, URL-safe text tokens for structured values.
//!
//! `pack` turns a serializable value into a token: the value is rendered as
//! JSON text, the text's UTF-8 bytes are compressed, and the compressed bytes
//! are written in a URL-safe alphabet with no padding. `unpack` is the exact
//! inverse, run in reverse stage order, and every failure is classified by the
//! stage that rejected its input.

pub mod alphabet;
pub mod codec;
pub mod errors;
pub mod pipeline;

pub use errors::JURLError;
pub use errors::JsonReason;
pub use pipeline::pack;
pub use pipeline::pack_json;
pub use pipeline::unpack;
pub use pipeline::unpack_json;
