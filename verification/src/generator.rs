//! What a code generator is told about the compiler that runs it.
use vstd::prelude::*;

verus! {

/// The version of `protoc` that runs a plugin.
#[derive(Clone, Debug)]
pub struct Version {
    pub major: u32,
    pub minor: u32,
    pub patch: Option<u32>,
    pub prerelease: Option<String>,
    pub build_metadata: Option<String>,
    pub prefix: Option<String>,
}

} // verus!
