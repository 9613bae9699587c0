//! Captured encoded values: a byte run produced under one of the ASN.1
//! encoding rules, kept together with the rules that produced it, so that it
//! can be decoded later or re-emitted verbatim inside a larger encoding.

pub mod captured;
pub mod decode;
pub mod encode;
pub mod mode;
pub mod raw;

pub use captured::Captured;
pub use decode::DecodeError;
pub use encode::{Sink, Values, WriteError};
pub use mode::Mode;
