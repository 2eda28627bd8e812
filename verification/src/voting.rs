//! A voting program: polls with a voting window, and candidates that
//! collect votes.
//!
//! The program's instruction data is one [`VotingInstruction`]. Creating a
//! poll takes the poll account; registering a candidate takes the candidate,
//! then the poll; a vote takes the poll, then the candidate.
use crate::account::{keys_equal, AccountMeta, ProgramError};
use crate::codec::{byte_len, overwritten};
use crate::voting::accounts::candidate_account::{
    candidate_bytes, candidate_from_bytes, cast_vote, lemma_candidate_roundtrip, lemma_padded,
    padded, vote_effect, voted, CandidateView,
};
use crate::voting::accounts::poll_account::{
    lemma_poll_roundtrip, lemma_register_then_load, poll_bytes, poll_from_bytes,
    register_candidate, register_effect, PollAccount,
};
use crate::voting::error::ErrorCode;
use crate::voting::ixs::initialize_candidate::{initialize_candidate_answer, new_candidate};
use crate::voting::ixs::initialize_poll::{initialize_poll, initialize_poll_effect, new_poll};
use crate::voting::ixs::vote::{as_i64, check_time_bounds, time_check};
use crate::voting::ixs::{instruction_from_bytes, InstructionView};
use vstd::prelude::*;
use vstd::utf8::encode_utf8;

pub mod accounts;
pub mod error;
pub mod ixs;

pub use accounts::CandidateAccount;
pub use ixs::VotingInstruction;

verus! {

/// The longest candidate name, in bytes, that registration accepts.
pub const MAX_CANDIDATE_NAME_LENGTH: usize = 32;

/// What registering a candidate answers, and what the candidate's and the
/// poll's data then hold.
pub open spec fn initialize_candidate_effect(
    accounts: Seq<AccountMeta>,
    candidate: Seq<u8>,
    poll: Seq<u8>,
    name: Seq<char>,
) -> (Result<(), ProgramError>, Seq<u8>, Seq<u8>) {
    if !accounts[1].is_writable {
        (Err(ProgramError::InvalidAccountData), candidate, poll)
    } else if !accounts[0].is_writable {
        (Err(ProgramError::IncorrectAuthority), candidate, poll)
    } else if encode_utf8(name).len() > 32 {
        (Err(ProgramError::Custom(2)), candidate, poll)
    } else {
        let bytes = candidate_bytes(new_candidate(name));
        let written = overwritten(candidate, bytes);
        if bytes.len() > candidate.len() {
            (Err(ProgramError::InvalidAccountData), written, poll)
        } else if accounts[0].key == accounts[1].key {
            (Err(ProgramError::InvalidAccountData), written, poll)
        } else {
            (register_effect(poll).0, written, register_effect(poll).1)
        }
    }
}

/// Where registering a candidate would overflow the poll's candidate count
/// (the program stops there).
pub open spec fn initialize_candidate_overflows(
    accounts: Seq<AccountMeta>,
    candidate: Seq<u8>,
    poll: Seq<u8>,
    name: Seq<char>,
) -> bool {
    &&& accounts[0].is_writable && accounts[1].is_writable
    &&& encode_utf8(name).len() <= 32
    &&& candidate_bytes(new_candidate(name)).len() <= candidate.len()
    &&& accounts[0].key != accounts[1].key
    &&& poll_from_bytes(poll) matches Some(p) && p.poll_option_index == u64::MAX
}

/// What voting answers, and what the candidate's data then holds.
pub open spec fn process_vote_effect(
    accounts: Seq<AccountMeta>,
    poll: Seq<u8>,
    candidate: Seq<u8>,
    now: Result<i64, ProgramError>,
) -> (Result<(), ProgramError>, Seq<u8>) {
    match poll_from_bytes(poll) {
        None => (Err(ProgramError::InvalidAccountData), candidate),
        Some(p) => match time_check(p, now) {
            Err(e) => (Err(e), candidate),
            Ok(_) => if accounts[0].key == accounts[1].key {
                (Err(ProgramError::InvalidAccountData), candidate)
            } else {
                vote_effect(candidate)
            },
        },
    }
}

/// Where voting would overflow the candidate's vote count (the program
/// stops there).
pub open spec fn process_vote_overflows(
    accounts: Seq<AccountMeta>,
    poll: Seq<u8>,
    candidate: Seq<u8>,
    now: Result<i64, ProgramError>,
) -> bool {
    &&& poll_from_bytes(poll) matches Some(p) && time_check(p, now) is Ok
    &&& accounts[0].key != accounts[1].key
    &&& candidate_from_bytes(candidate) matches Some(c) && c.votes == u64::MAX
}

/// Registers a candidate: checks the accounts, writes the candidate
/// account and counts the candidate in the poll.
///
/// Accounts: the candidate (writable), then the poll (writable); neither
/// needs to sign. `candidate_data` and `poll_data` are their data. The
/// answer and the data afterwards are [`initialize_candidate_effect`]:
/// `InvalidAccountData` where the poll is not writable, `IncorrectAuthority`
/// where the candidate is not, `Custom(2)` (`NameTooLong`) for a name over
/// 32 bytes, `InvalidAccountData` where the candidate does not fit its
/// account, where both accounts are the same account, or where the poll's
/// data is not one poll; otherwise the poll counts one more candidate.
pub fn process_initialize_candidate(
    accounts: &[AccountMeta],
    candidate_data: &mut [u8],
    poll_data: &mut [u8],
    _poll_id: u64,
    candidate_name: String,
) -> (r: Result<(), ProgramError>)
    requires
        accounts@.len() >= 2,
        !initialize_candidate_overflows(
            accounts@,
            old(candidate_data)@,
            old(poll_data)@,
            candidate_name@,
        ),
    ensures
        (r, final(candidate_data)@, final(poll_data)@) == initialize_candidate_effect(
            accounts@,
            old(candidate_data)@,
            old(poll_data)@,
            candidate_name@,
        ),
{
    let candidate_account = &accounts[0];
    let poll_account = &accounts[1];
    if !poll_account.is_writable {
        return Err(ProgramError::InvalidAccountData);
    }
    if !candidate_account.is_writable {
        return Err(ProgramError::IncorrectAuthority);
    }
    if byte_len(&candidate_name) > MAX_CANDIDATE_NAME_LENGTH {
        return Err(ProgramError::Custom(u32::from(ErrorCode::NameTooLong)));
    }
    let candidate = CandidateAccount { candidate_name, candidate_votes: 0 };
    assert(candidate@ == new_candidate(candidate.candidate_name@));
    match candidate.save(candidate_data) {
        Ok(()) => {},
        Err(_) => return Err(ProgramError::InvalidAccountData),
    }
    if keys_equal(&poll_account.key, &candidate_account.key) {
        return Err(ProgramError::InvalidAccountData);
    }
    register_candidate(poll_data)
}

/// Adds a vote to a candidate within the poll's voting window.
///
/// Accounts: the poll, then the candidate; `poll_data` and `candidate_data`
/// are their data, `now` the runtime's answer for the current time. The
/// answer and the candidate's data afterwards are
/// [`process_vote_effect`]: `InvalidAccountData` where the poll's data is
/// not one poll, the time check's answer where the time is outside the
/// window, `InvalidAccountData` where both accounts are the same account or
/// the candidate's data is not one candidate; otherwise the candidate has
/// one more vote.
pub fn process_vote(
    accounts: &[AccountMeta],
    poll_data: &[u8],
    candidate_data: &mut [u8],
    _poll_id: u64,
    _candidate_name: String,
    now: Result<i64, ProgramError>,
) -> (r: Result<(), ProgramError>)
    requires
        accounts@.len() >= 2,
        !process_vote_overflows(accounts@, poll_data@, old(candidate_data)@, now),
    ensures
        (r, final(candidate_data)@) == process_vote_effect(
            accounts@,
            poll_data@,
            old(candidate_data)@,
            now,
        ),
{
    let poll_account = &accounts[0];
    let candidate_account = &accounts[1];
    let poll = match PollAccount::load_mut(poll_data) {
        Ok(p) => p,
        Err(e) => return Err(e),
    };
    match check_time_bounds(poll, now) {
        Ok(()) => {},
        Err(e) => return Err(e),
    }
    if keys_equal(&poll_account.key, &candidate_account.key) {
        return Err(ProgramError::InvalidAccountData);
    }
    cast_vote(candidate_data)
}

/// What the program answers for an instruction, and what the poll's and
/// the candidate's data then hold.
pub open spec fn process_effect(
    accounts: Seq<AccountMeta>,
    ix_data: Seq<u8>,
    first: Seq<u8>,
    second: Seq<u8>,
    now: Result<i64, ProgramError>,
) -> (Result<(), ProgramError>, Seq<u8>, Seq<u8>) {
    match instruction_from_bytes(ix_data) {
        None => (Err(ProgramError::InvalidInstructionData), first, second),
        Some(InstructionView::InitializePoll { poll_id, name, description, start_time, end_time }) =>
            {
            let (r, p) = initialize_poll_effect(
                first,
                poll_id,
                name,
                description,
                start_time,
                end_time,
            );
            (r, p, second)
        },
        Some(InstructionView::InitializeCandidate { candidate: name, .. }) =>
            initialize_candidate_effect(accounts, first, second, name),
        Some(InstructionView::Vote { .. }) => {
            let (r, c) = process_vote_effect(accounts, first, second, now);
            (r, first, c)
        },
    }
}

/// Where the program stops for an instruction: too few accounts for it, or
/// a count that would overflow.
pub open spec fn process_stops(
    accounts: Seq<AccountMeta>,
    ix_data: Seq<u8>,
    first: Seq<u8>,
    second: Seq<u8>,
    now: Result<i64, ProgramError>,
) -> bool {
    match instruction_from_bytes(ix_data) {
        None => false,
        Some(InstructionView::InitializePoll { .. }) => accounts.len() < 1,
        Some(InstructionView::InitializeCandidate { candidate: name, .. }) => accounts.len() < 2
            || initialize_candidate_overflows(accounts, first, second, name),
        Some(InstructionView::Vote { .. }) => accounts.len() < 2 || process_vote_overflows(
            accounts,
            first,
            second,
            now,
        ),
    }
}

/// Decodes an instruction and runs it.
///
/// `first_data` and `second_data` are the data of the first and second
/// accounts (empty where there is no such account): the poll for creating a
/// poll; the candidate, then the poll, for registering a candidate; the
/// poll, then the candidate, for a vote. `now` is the runtime's answer for
/// the current time, looked at only by a vote. Fails with
/// `InvalidInstructionData` where the data is not exactly one instruction;
/// otherwise answers as the instruction does ([`process_effect`]).
pub fn process_instruction(
    accounts: &[AccountMeta],
    ix_data: &[u8],
    first_data: &mut [u8],
    second_data: &mut [u8],
    now: Result<i64, ProgramError>,
) -> (r: Result<(), ProgramError>)
    requires
        !process_stops(accounts@, ix_data@, old(first_data)@, old(second_data)@, now),
    ensures
        (r, final(first_data)@, final(second_data)@) == process_effect(
            accounts@,
            ix_data@,
            old(first_data)@,
            old(second_data)@,
            now,
        ),
{
    let instruction = match VotingInstruction::try_from_slice(ix_data) {
        Some(i) => i,
        None => return Err(ProgramError::InvalidInstructionData),
    };
    match instruction {
        VotingInstruction::InitializePoll { poll_id, name, description, start_time, end_time } => {
            initialize_poll(accounts, first_data, poll_id, name, description, start_time, end_time)
        },
        VotingInstruction::InitializeCandidate { poll_id, candidate } => {
            process_initialize_candidate(accounts, first_data, second_data, poll_id, candidate)
        },
        VotingInstruction::Vote { poll_id, candidate } => {
            process_vote(accounts, first_data, second_data, poll_id, candidate, now)
        },
    }
}

/// A poll written over data of its own length, then one candidate
/// registered, holds that poll with exactly one candidate.
pub proof fn lemma_initialize_then_register(
    data: Seq<u8>,
    poll_id: u64,
    name: Seq<char>,
    description: Seq<char>,
    start: u64,
    end: u64,
)
    requires
        initialize_poll_effect(data, poll_id, name, description, start, end).0 is Ok,
        data.len() == poll_bytes(new_poll(poll_id, name, description, start, end)).len(),
    ensures
        ({
            let written = initialize_poll_effect(data, poll_id, name, description, start, end).1;
            &&& poll_from_bytes(written) == Some(new_poll(poll_id, name, description, start, end))
            &&& register_effect(written).0 is Ok
            &&& poll_from_bytes(register_effect(written).1) matches Some(p) && p.poll_option_index == 1
        }),
{
    let fresh = new_poll(poll_id, name, description, start, end);
    let bytes = poll_bytes(fresh);
    let written = initialize_poll_effect(data, poll_id, name, description, start, end).1;
    assert(written =~= bytes);
    lemma_poll_roundtrip(fresh, bytes);
    lemma_register_then_load(written);
}

/// A vote is counted only inside the poll's window, and the next load of
/// the candidate sees exactly one more vote.
pub proof fn lemma_vote_only_in_window(
    accounts: Seq<AccountMeta>,
    poll: Seq<u8>,
    candidate: Seq<u8>,
    now: Result<i64, ProgramError>,
)
    requires
        process_vote_effect(accounts, poll, candidate, now).0 is Ok,
    ensures
        poll_from_bytes(poll) matches Some(p) && now matches Ok(t) && as_i64(p.poll_voting_start)
            < t <= as_i64(p.poll_voting_end),
        candidate_from_bytes(candidate) matches Some(c) && candidate_from_bytes(
            process_vote_effect(accounts, poll, candidate, now).1,
        ) == Some(voted(c)),
{
    let c = candidate_from_bytes(candidate).unwrap();
    lemma_candidate_roundtrip(c, candidate);
    lemma_candidate_roundtrip(voted(c), candidate);
}

/// A failed vote leaves the candidate's data as it was.
pub proof fn lemma_failed_vote_changes_nothing(
    accounts: Seq<AccountMeta>,
    poll: Seq<u8>,
    candidate: Seq<u8>,
    now: Result<i64, ProgramError>,
)
    requires
        process_vote_effect(accounts, poll, candidate, now).0 is Err,
    ensures
        process_vote_effect(accounts, poll, candidate, now).1 == candidate,
{
}

/// A name made by [`CandidateAccount::checked_name`] is never refused as too
/// long: it is exactly 16 bytes, within both the 16-byte limit of
/// [`initialize_candidate`](crate::voting::ixs::initialize_candidate) and the
/// 32-byte limit of [`process_initialize_candidate`], whatever the accounts
/// and their data.
pub proof fn lemma_checked_name_passes_length_check(
    accounts: Seq<AccountMeta>,
    candidate: Seq<u8>,
    poll: Seq<u8>,
    s: Seq<char>,
    name: Seq<char>,
)
    requires
        encode_utf8(name) == padded(encode_utf8(s), 16),
    ensures
        encode_utf8(name).len() == 16,
        initialize_candidate_answer(accounts, poll, candidate, name).0 != Err::<(), ProgramError>(
            ProgramError::Custom(2),
        ),
        initialize_candidate_effect(accounts, candidate, poll, name).0 != Err::<(), ProgramError>(
            ProgramError::Custom(2),
        ),
{
    lemma_padded(encode_utf8(s), 16);
}

/// A vote inside the poll's window is counted, whatever the accounts'
/// signer flags: with two different accounts, a readable poll, a time after
/// the poll's start and not after its end, and candidate data holding a
/// candidate, the vote answers `Ok` and the candidate data then reads back
/// as that candidate, same name, with one more vote.
pub proof fn lemma_vote_in_window_is_counted(
    accounts: Seq<AccountMeta>,
    poll: Seq<u8>,
    candidate: Seq<u8>,
    t: i64,
)
    requires
        accounts.len() >= 2,
        accounts[0].key != accounts[1].key,
        poll_from_bytes(poll) matches Some(p) && as_i64(p.poll_voting_start) < t && t <= as_i64(
            p.poll_voting_end,
        ),
        candidate_from_bytes(candidate) matches Some(c) && c.votes < u64::MAX,
    ensures
        process_vote_effect(accounts, poll, candidate, Ok(t)).0 == Ok::<(), ProgramError>(()),
        ({
            let c = candidate_from_bytes(candidate).unwrap();
            let after = candidate_from_bytes(process_vote_effect(accounts, poll, candidate, Ok(t)).1);
            after matches Some(d) && d.name == c.name && d.votes == c.votes + 1
        }),
{
    let c = candidate_from_bytes(candidate).unwrap();
    lemma_candidate_roundtrip(c, candidate);
    lemma_candidate_roundtrip(voted(c), candidate);
}

/// Registration refuses a name as too long (`Custom(2)`) exactly when it is
/// longer than 32 bytes, once both accounts are writable.
pub proof fn lemma_name_too_long_exactly_over_32_bytes(
    accounts: Seq<AccountMeta>,
    candidate: Seq<u8>,
    poll: Seq<u8>,
    name: Seq<char>,
)
    requires
        accounts.len() >= 2,
        accounts[0].is_writable,
        accounts[1].is_writable,
    ensures
        (initialize_candidate_effect(accounts, candidate, poll, name).0 == Err::<(), ProgramError>(
            ProgramError::Custom(2),
        )) <==> encode_utf8(name).len() > 32,
{
}

/// A name of at most 32 bytes is registered: with both accounts writable
/// and different, a readable poll and candidate data long enough for the
/// encoded candidate, registration answers `Ok`; the candidate data then
/// starts with the candidate of that name and no votes, and the poll reads
/// back with every field kept and one more candidate.
pub proof fn lemma_short_name_is_registered(
    accounts: Seq<AccountMeta>,
    candidate: Seq<u8>,
    poll: Seq<u8>,
    name: Seq<char>,
)
    requires
        accounts.len() >= 2,
        accounts[0].is_writable,
        accounts[1].is_writable,
        accounts[0].key != accounts[1].key,
        encode_utf8(name).len() <= 32,
        poll_from_bytes(poll) matches Some(p) && p.poll_option_index < u64::MAX,
        candidate_bytes(CandidateView { name, votes: 0 }).len() <= candidate.len(),
    ensures
        ({
            let (r, cand_after, poll_after) = initialize_candidate_effect(
                accounts,
                candidate,
                poll,
                name,
            );
            let p = poll_from_bytes(poll).unwrap();
            let written = candidate_bytes(CandidateView { name, votes: 0 });
            &&& r == Ok::<(), ProgramError>(())
            &&& cand_after.len() == candidate.len()
            &&& cand_after.take(written.len() as int) == written
            &&& candidate_from_bytes(written) == Some(CandidateView { name, votes: 0 })
            &&& poll_from_bytes(poll_after) matches Some(q) && q.poll_id == p.poll_id
                && q.poll_name == p.poll_name && q.poll_description == p.poll_description
                && q.poll_voting_start == p.poll_voting_start && q.poll_voting_end
                == p.poll_voting_end && q.poll_option_index == p.poll_option_index + 1
        }),
{
    let written = candidate_bytes(CandidateView { name, votes: 0 });
    let after = overwritten(candidate, written);
    assert(after.take(written.len() as int) =~= written);
    lemma_candidate_roundtrip(CandidateView { name, votes: 0 }, written);
    lemma_register_then_load(poll);
}

} // verus!
