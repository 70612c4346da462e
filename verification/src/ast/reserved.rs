//! Names and field numbers that a message or enum sets aside.
use vstd::prelude::*;

verus! {

/// A range of reserved numbers; an unset bound reads as 0.
#[derive(Clone, Copy, Debug, PartialEq, Eq, Structural, Default)]
pub struct ReservedRange {
    pub start: Option<i32>,
    pub end: Option<i32>,
}

/// The value in `o`, or 0 where it is unset.
pub open spec fn or_zero(o: Option<i32>) -> i32 {
    match o {
        Some(v) => v,
        None => 0,
    }
}

impl ReservedRange {
    pub fn start(&self) -> (r: i32)
        ensures
            r == or_zero(self.start),
    {
        match self.start {
            Some(v) => v,
            None => 0,
        }
    }

    pub fn end(&self) -> (r: i32)
        ensures
            r == or_zero(self.end),
    {
        match self.end {
            Some(v) => v,
            None => 0,
        }
    }
}

/// The reserved names and ranges of a message or enum.
#[derive(Clone, Debug, Default)]
pub struct Reserved {
    pub names: Vec<String>,
    pub ranges: Vec<ReservedRange>,
}

impl Reserved {
    /// The reservations made of `names` and `ranges`, in their order.
    pub fn new(names: Vec<String>, ranges: Vec<ReservedRange>) -> (r: Reserved)
        ensures
            r.names@ == names@,
            r.ranges@ == ranges@,
    {
        Reserved { names, ranges }
    }

    pub fn names(&self) -> (r: &[String])
        ensures
            r@ == self.names@,
    {
        self.names.as_slice()
    }

    pub fn ranges(&self) -> (r: &[ReservedRange])
        ensures
            r@ == self.ranges@,
    {
        self.ranges.as_slice()
    }
}

} // verus!
