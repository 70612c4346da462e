//! The nodes of the descriptor model and the values that describe them.
pub mod access;
pub mod container;
pub mod enum_value;
pub mod enums;
pub mod field;
pub mod file;
pub mod fqn;
pub mod hydrate;
pub mod location;
pub mod message;
pub mod node;
pub mod package;
pub mod path;
pub mod table;
pub mod reference;
pub mod reserved;
pub mod uninterpreted;
pub mod well_known;

pub use fqn::FullyQualifiedName;
pub use well_known::WellKnownType;
