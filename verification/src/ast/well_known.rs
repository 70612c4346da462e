//! The types that the package `google.protobuf` defines.
use crate::ast::enums::{enum_name, WellKnownEnum};
use crate::ast::message::{message_name, WellKnownMessage};
use vstd::prelude::*;

verus! {

/// A well-known enum or message type.
#[derive(Clone, Copy, Debug, PartialEq, Eq, Structural)]
pub enum WellKnownType {
    Enum(WellKnownEnum),
    Message(WellKnownMessage),
}

/// The name of a well-known type, without its package.
pub open spec fn well_known_name(t: WellKnownType) -> Seq<char> {
    match t {
        WellKnownType::Enum(e) => enum_name(e),
        WellKnownType::Message(m) => message_name(m),
    }
}

impl WellKnownType {
    /// The package that declares the well-known types.
    pub const PACKAGE: &'static str = "google.protobuf";

    /// The name of the type, without its package.
    pub fn as_str(&self) -> (r: &'static str)
        ensures
            r@ == well_known_name(*self),
    {
        match self {
            WellKnownType::Enum(e) => e.as_str(),
            WellKnownType::Message(m) => m.as_str(),
        }
    }

    /// The name of the type.
    pub fn to_string(&self) -> (r: String)
        ensures
            r@ == well_known_name(*self),
    {
        String::from_str(self.as_str())
    }
}

} // verus!
