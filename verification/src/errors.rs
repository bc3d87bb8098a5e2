use vstd::prelude::*;

verus! {

/// The reasons a transition is rejected. Every failure is terminal for
/// its call, is reported to the caller, and leaves the record exactly
/// as it was: the checks run strictly before the single field write.
#[derive(Clone, Copy, PartialEq, Eq, Structural, Debug)]
pub enum ErrorCode {
    /// The caller identity does not match the record's owner.
    Unauthorized,
    /// An increment was attempted while the count is already at its
    /// upper bound.
    MaxCountExceeded,
    /// A decrement was attempted while the count is already at its
    /// lower bound.
    MinCountSubceeded,
}

impl ErrorCode {
    /// The human-readable message surfaced verbatim to the caller.
    pub fn message(&self) -> (r: &'static str)
        ensures
            *self == ErrorCode::Unauthorized ==> r@ == "You are not authorized to perform this action."@,
            *self == ErrorCode::MaxCountExceeded ==> r@ == "You cannot increment more."@,
            *self == ErrorCode::MinCountSubceeded ==> r@ == "You cannot decrement more."@,
    {
        match self {
            ErrorCode::Unauthorized => "You are not authorized to perform this action.",
            ErrorCode::MaxCountExceeded => "You cannot increment more.",
            ErrorCode::MinCountSubceeded => "You cannot decrement more.",
        }
    }
}

} // verus!
