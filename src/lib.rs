//! Lenient decoding of JSON arrays: elements that do not convert to the
//! target type are dropped, one by one, instead of failing the whole array.

pub mod decoder;
pub mod json;
pub mod slots;

pub use decoder::{DecodeError, FilterParsedJsonVec};


