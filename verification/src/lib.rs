//! A model of protobuf descriptors for `protoc` plugins: fully qualified
//! names, file syntax and options, field kinds, source locations and
//! uninterpreted options, each with a verified contract.
pub mod ast;
pub mod descriptor;
pub mod error;
pub mod generator;
pub mod sync;
pub mod text;

pub use sync::{to_i32, Mutex};
