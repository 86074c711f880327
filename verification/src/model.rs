use vstd::prelude::*;

verus! {

/// A user's identifier (the 128-bit value of its UUID).
pub type UserId = u128;

/// A notification group's identifier (the 128-bit value of its UUID).
pub type GroupId = u128;

/// A filter's identifier (the 128-bit value of its UUID).
pub type FilterId = u128;

/// The role of an account.
#[derive(Clone, Copy, Debug, PartialEq, Eq, Structural)]
pub enum Role {
    Admin,
    User,
}

impl Role {
    pub fn is_admin(&self) -> (b: bool)
        ensures
            b == (*self == Role::Admin),
    {
        match self {
            Role::Admin => true,
            Role::User => false,
        }
    }
}

/// Where a group sends its notifications.
#[derive(Clone, Copy, Debug, PartialEq, Eq, Structural)]
pub enum NotifyMedium {
    Discord,
    Slack,
}

/// An instant in UTC: whole seconds since the Unix epoch and the nanoseconds
/// past them (above 999,999,999 only inside a leap second).
#[derive(Clone, Copy, Debug, PartialEq, Eq, Structural)]
pub struct Timestamp {
    pub secs: i64,
    pub nanos: u32,
}

/// The order of instants: by seconds, then by nanoseconds.
pub open spec fn ts_le(a: Timestamp, b: Timestamp) -> bool {
    a.secs < b.secs || (a.secs == b.secs && a.nanos <= b.nanos)
}

impl Timestamp {
    /// Whether `self` is not later than `other`.
    pub fn not_after(&self, other: &Timestamp) -> (b: bool)
        ensures
            b == ts_le(*self, *other),
    {
        self.secs < other.secs || (self.secs == other.secs && self.nanos <= other.nanos)
    }
}

} // verus!
