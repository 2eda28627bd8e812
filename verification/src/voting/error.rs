//! The voting program's own error numbers, answered as `Custom` errors.
use vstd::prelude::*;

verus! {

#[derive(Clone, Copy, Debug, PartialEq, Eq, Structural)]
pub enum ErrorCode {
    VotingNotStarted,
    VotingEnded,
    NameTooLong,
    DescriptionTooLong,
}

/// The number of each error, in declaration order from zero.
pub open spec fn error_number(e: ErrorCode) -> u32 {
    match e {
        ErrorCode::VotingNotStarted => 0,
        ErrorCode::VotingEnded => 1,
        ErrorCode::NameTooLong => 2,
        ErrorCode::DescriptionTooLong => 3,
    }
}

impl From<ErrorCode> for u32 {
    fn from(err: ErrorCode) -> (r: u32) {
        match err {
            ErrorCode::VotingNotStarted => 0,
            ErrorCode::VotingEnded => 1,
            ErrorCode::NameTooLong => 2,
            ErrorCode::DescriptionTooLong => 3,
        }
    }
}

impl vstd::std_specs::convert::FromSpecImpl<ErrorCode> for u32 {
    open spec fn obeys_from_spec() -> bool {
        true
    }

    open spec fn from_spec(err: ErrorCode) -> u32 {
        error_number(err)
    }
}

/// Distinct errors have distinct numbers.
pub proof fn lemma_error_numbers_distinct(a: ErrorCode, b: ErrorCode)
    ensures
        error_number(a) == error_number(b) ==> a == b,
{
}

} // verus!
