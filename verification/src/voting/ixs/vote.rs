//! Voting for a candidate within the poll's voting window.
use crate::account::{AccountMeta, ProgramError};
use crate::voting::accounts::candidate_account::{
    candidate_bytes, candidate_from_bytes, cast_vote, voted,
};
use crate::voting::accounts::poll_account::{poll_from_bytes, PollAccount, PollView};
use crate::voting::error::ErrorCode;
use vstd::prelude::*;

verus! {

/// A `u64` reinterpreted as a signed 64-bit number, as the program's cast
/// does: values above `i64::MAX` wrap to negative numbers.
pub open spec fn as_i64(x: u64) -> int {
    if x <= i64::MAX {
        x as int
    } else {
        x - 0x1_0000_0000_0000_0000
    }
}

pub fn cast_to_i64(x: u64) -> (r: i64)
    ensures
        r == as_i64(x),
{
    if x <= 0x7fff_ffff_ffff_ffff {
        x as i64
    } else {
        let low = (x - 0x8000_0000_0000_0000) as i64;
        low - 0x7fff_ffff_ffff_ffff - 1
    }
}

/// Whether `now` lies in the poll's window: after its start, not after its
/// end. `Custom(1)` (`VotingEnded`) after the end, `Custom(0)`
/// (`VotingNotStarted`) up to the start.
pub open spec fn window_check(p: PollView, now: i64) -> Result<(), ProgramError> {
    if now > as_i64(p.poll_voting_end) {
        Err(ProgramError::Custom(1))
    } else if now <= as_i64(p.poll_voting_start) {
        Err(ProgramError::Custom(0))
    } else {
        Ok(())
    }
}

/// The window check given the runtime's answer for the current time.
pub open spec fn time_check(p: PollView, now: Result<i64, ProgramError>) -> Result<
    (),
    ProgramError,
> {
    match now {
        Err(e) => Err(e),
        Ok(t) => window_check(p, t),
    }
}

/// Reads the poll held by an account's data; `InvalidAccountData` unless
/// the data holds exactly one poll.
pub fn unserialize_account(poll_data: &[u8]) -> (r: Result<PollAccount, ProgramError>)
    ensures
        r matches Ok(p) ==> poll_from_bytes(poll_data@) == Some(p@),
        r is Err ==> poll_from_bytes(poll_data@) is None && r matches Err(
            ProgramError::InvalidAccountData,
        ),
{
    PollAccount::load_mut(poll_data)
}

/// Checks that the current time lies in the poll's voting window.
///
/// `now` is the runtime's answer for the current time (its error is
/// answered as is).
pub fn check_time_bounds(poll_account: PollAccount, now: Result<i64, ProgramError>) -> (r: Result<
    (),
    ProgramError,
>)
    ensures
        r == time_check(poll_account@, now),
{
    let current_time = match now {
        Ok(t) => t,
        Err(e) => return Err(e),
    };
    if current_time > cast_to_i64(poll_account.poll_voting_end) {
        return Err(ProgramError::Custom(u32::from(ErrorCode::VotingEnded)));
    }
    if current_time <= cast_to_i64(poll_account.poll_voting_start) {
        return Err(ProgramError::Custom(u32::from(ErrorCode::VotingNotStarted)));
    }
    Ok(())
}

/// What stands between a vote and the candidate: the window check where the
/// poll's data holds a poll, nothing where it does not.
pub open spec fn vote_gate(poll_data: Seq<u8>, now: Result<i64, ProgramError>) -> Result<
    (),
    ProgramError,
> {
    match poll_from_bytes(poll_data) {
        Some(p) => time_check(p, now),
        None => Ok(()),
    }
}

/// Adds a vote to a candidate, checking the voting window only where the
/// poll account holds a readable poll.
///
/// Accounts: the poll, then the candidate; `poll_data` and `candidate_data`
/// are their data, `now` the runtime's answer for the current time. Fails
/// with the window check's error where the poll is readable and the time
/// is outside its window, and with `InvalidAccountData` where the
/// candidate's data does not hold exactly one candidate; otherwise the
/// candidate then has one more vote.
pub fn vote(
    accounts: &[AccountMeta],
    poll_data: &[u8],
    candidate_data: &mut [u8],
    _poll_id: u64,
    _candidate_name: String,
    now: Result<i64, ProgramError>,
) -> (r: Result<(), ProgramError>)
    requires
        accounts@.len() >= 2,
        vote_gate(poll_data@, now) is Ok ==> (candidate_from_bytes(old(candidate_data)@) matches Some(
            c,
        ) ==> c.votes < u64::MAX),
    ensures
        vote_gate(poll_data@, now) is Err ==> r == vote_gate(poll_data@, now) && final(candidate_data)@ == old(candidate_data)@,
        vote_gate(poll_data@, now) is Ok ==> match candidate_from_bytes(old(candidate_data)@) {
            None => (r matches Err(ProgramError::InvalidAccountData)) && final(candidate_data)@
                == old(candidate_data)@,
            Some(c) => r is Ok && final(candidate_data)@ == candidate_bytes(voted(c)),
        },
{
    match unserialize_account(poll_data) {
        Ok(poll_account) => {
            match check_time_bounds(poll_account, now) {
                Ok(()) => {},
                Err(e) => return Err(e),
            }
        },
        Err(_) => {},
    }
    cast_vote(candidate_data)
}

} // verus!
