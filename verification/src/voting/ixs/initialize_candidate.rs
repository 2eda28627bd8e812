//! Registering a candidate: writing the candidate account and counting it
//! in the poll.
use crate::account::{keys_equal, AccountMeta, ProgramError};
use crate::codec::{byte_len, overwritten};
use crate::voting::accounts::candidate_account::{candidate_bytes, CandidateAccount, CandidateView};
use crate::voting::accounts::poll_account::{poll_from_bytes, register_candidate, register_effect};
use crate::voting::error::ErrorCode;
use vstd::prelude::*;
use vstd::utf8::encode_utf8;

verus! {

/// The candidate that registration writes: the given name and no votes.
pub open spec fn new_candidate(name: Seq<char>) -> CandidateView {
    CandidateView { name, votes: 0 }
}

/// What registering a candidate without the flag checks answers, and what
/// the poll's and the candidate's data then hold.
pub open spec fn initialize_candidate_answer(
    accounts: Seq<AccountMeta>,
    poll: Seq<u8>,
    candidate: Seq<u8>,
    name: Seq<char>,
) -> (Result<(), ProgramError>, Seq<u8>, Seq<u8>) {
    if encode_utf8(name).len() > CandidateAccount::MAX_NAME_LENGTH {
        (Err(ProgramError::Custom(2)), poll, candidate)
    } else {
        let written = overwritten(candidate, candidate_bytes(new_candidate(name)));
        if accounts[0].key == accounts[1].key {
            (Err(ProgramError::InvalidAccountData), poll, written)
        } else {
            (register_effect(poll).0, register_effect(poll).1, written)
        }
    }
}

/// Registers a candidate without checking the accounts' flags.
///
/// Accounts: the poll, then the candidate; `poll_data` and `candidate_data`
/// are their data. The answer and the data afterwards are
/// [`initialize_candidate_answer`]: `Custom(2)` (`NameTooLong`) where the
/// name is longer than 16 bytes. Otherwise the candidate, with no votes, is
/// written into the front of the candidate's data (where it does not fit
/// the program stops); then, where both accounts are the same account, the
/// poll cannot be borrowed and the answer is `InvalidAccountData`; where the
/// poll's data does not hold exactly one poll, `InvalidAccountData`;
/// otherwise the poll then counts one more candidate.
pub fn initialize_candidate(
    accounts: &[AccountMeta],
    poll_data: &mut [u8],
    candidate_data: &mut [u8],
    _poll_id: u64,
    candidate_name: String,
) -> (r: Result<(), ProgramError>)
    requires
        accounts@.len() >= 2,
        encode_utf8(candidate_name@).len() <= 16 ==> candidate_bytes(
            new_candidate(candidate_name@),
        ).len() <= old(candidate_data)@.len(),
        encode_utf8(candidate_name@).len() <= 16 && accounts@[0].key != accounts@[1].key ==> (
        poll_from_bytes(old(poll_data)@) matches Some(p) ==> p.poll_option_index < u64::MAX),
    ensures
        (r, final(poll_data)@, final(candidate_data)@) == initialize_candidate_answer(
            accounts@,
            old(poll_data)@,
            old(candidate_data)@,
            candidate_name@,
        ),
{
    if byte_len(&candidate_name) > CandidateAccount::MAX_NAME_LENGTH {
        return Err(ProgramError::Custom(u32::from(ErrorCode::NameTooLong)));
    }
    let candidate = CandidateAccount { candidate_name, candidate_votes: 0 };
    let written = candidate.save(candidate_data);
    assert(written is Ok);
    if keys_equal(&accounts[0].key, &accounts[1].key) {
        return Err(ProgramError::InvalidAccountData);
    }
    register_candidate(poll_data)
}

} // verus!
