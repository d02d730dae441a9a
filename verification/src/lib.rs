//! Conversions of Rust values to and from the plain words that cross the
//! boundary between a WebAssembly module and its JavaScript host, and the
//! bounded argument stack through which extra words are passed.

pub mod abi;
pub mod convert;
pub mod laws;
pub mod stack;
pub mod value;
pub mod words;
