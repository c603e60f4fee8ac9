//! Further data that an application hangs on an identity or on a token.

use vstd::prelude::*;

verus! {

/// A point in time with the zone it was written in: the seconds since the
/// beginning of 1970 in universal time, the nanoseconds into that second,
/// and how many seconds the zone is ahead of universal time.
///
/// Two time stamps are equal when all three numbers are: the same instant
/// written in two zones gives two time stamps that differ. They are ordered
/// by the instant first and by the offset after it, and hashed with all
/// three numbers.
#[derive(Debug, Clone, Copy, Ord, PartialOrd, Eq, PartialEq, Hash)]
pub struct TimeStamp {
    pub secs: i64,
    pub nanos: u32,
    pub offset: i32,
}

/// A value of one of the kinds that a property can have. Which kind a key
/// has is up to the application.
#[derive(Debug, Ord, PartialOrd, Eq, PartialEq, Hash)]
pub enum Properties {
    Bool(bool),
    I32(i32),
    I64(i64),
    Str(String),
    DateTime(TimeStamp),
}

impl Clone for Properties {
    fn clone(&self) -> (r: Self)
        ensures
            r == *self,
    {
        match self {
            Properties::Bool(b) => Properties::Bool(*b),
            Properties::I32(n) => Properties::I32(*n),
            Properties::I64(n) => Properties::I64(*n),
            Properties::Str(s) => Properties::Str(s.clone()),
            Properties::DateTime(t) => Properties::DateTime(*t),
        }
    }
}

} // verus!
