//! Writing a new poll into the poll account.
use crate::account::{AccountMeta, ProgramError};
use crate::codec::{byte_len, overwritten};
use crate::codec::{lemma_str_len, lemma_u64_len};
use crate::voting::accounts::poll_account::{
    lemma_poll_roundtrip, lemma_poll_save_load, poll_bytes, poll_from_bytes, PollAccount, PollView,
};
use crate::voting::error::ErrorCode;
use vstd::prelude::*;
use vstd::utf8::encode_utf8;

verus! {

/// The poll that initialization writes: the given fields and no candidates.
pub open spec fn new_poll(
    poll_id: u64,
    name: Seq<char>,
    description: Seq<char>,
    start: u64,
    end: u64,
) -> PollView {
    PollView {
        poll_id,
        poll_name: name,
        poll_description: description,
        poll_voting_start: start,
        poll_voting_end: end,
        poll_option_index: 0,
    }
}

/// What initializing a poll answers, and what the poll's data then holds.
pub open spec fn initialize_poll_effect(
    data: Seq<u8>,
    poll_id: u64,
    name: Seq<char>,
    description: Seq<char>,
    start: u64,
    end: u64,
) -> (Result<(), ProgramError>, Seq<u8>) {
    if encode_utf8(name).len() > 50 {
        (Err(ProgramError::Custom(2)), data)
    } else if encode_utf8(description).len() > 280 {
        (Err(ProgramError::Custom(3)), data)
    } else {
        let bytes = poll_bytes(new_poll(poll_id, name, description, start, end));
        (
            if bytes.len() <= data.len() {
                Ok(())
            } else {
                Err(ProgramError::InvalidAccountData)
            },
            overwritten(data, bytes),
        )
    }
}

/// Writes a new poll into the first account's data.
///
/// `poll_data` is the first account's data. Fails with `Custom(2)`
/// (`NameTooLong`) where the name is longer than 50 bytes and `Custom(3)`
/// (`DescriptionTooLong`) where the description is longer than 280 bytes.
/// Otherwise the poll, with no candidates, is written into the front of the
/// data: `Ok` where it fits, `InvalidAccountData` (with as much written as
/// fits) where it does not.
pub fn initialize_poll(
    accounts: &[AccountMeta],
    poll_data: &mut [u8],
    poll_id: u64,
    poll_name: String,
    poll_description: String,
    poll_voting_start: u64,
    poll_voting_end: u64,
) -> (r: Result<(), ProgramError>)
    requires
        accounts@.len() > 0,
    ensures
        (r, final(poll_data)@) == initialize_poll_effect(
            old(poll_data)@,
            poll_id,
            poll_name@,
            poll_description@,
            poll_voting_start,
            poll_voting_end,
        ),
{
    let name_len = byte_len(&poll_name);
    if name_len > PollAccount::MAX_NAME_LENGTH {
        return Err(ProgramError::Custom(u32::from(ErrorCode::NameTooLong)));
    }
    let description_len = byte_len(&poll_description);
    if description_len > PollAccount::MAX_DESCRIPTION_LENGTH {
        return Err(ProgramError::Custom(u32::from(ErrorCode::DescriptionTooLong)));
    }
    let new_poll_account = PollAccount {
        poll_id,
        poll_name,
        poll_description,
        poll_voting_start,
        poll_voting_end,
        poll_option_index: 0,
    };
    let r = new_poll_account.save(poll_data);
    assert(new_poll_account@ == new_poll(
        poll_id,
        new_poll_account.poll_name@,
        new_poll_account.poll_description@,
        poll_voting_start,
        poll_voting_end,
    ));
    match r {
        Ok(()) => Ok(()),
        Err(e) => Err(e),
    }
}

/// The written poll's length: both strings with their length prefixes, and
/// four eight-byte numbers.
proof fn lemma_poll_len(p: PollView)
    ensures
        poll_bytes(p).len() == 40 + encode_utf8(p.poll_name).len() + encode_utf8(
            p.poll_description,
        ).len(),
{
    lemma_u64_len(p.poll_id);
    lemma_u64_len(p.poll_voting_start);
    lemma_u64_len(p.poll_voting_end);
    lemma_u64_len(p.poll_option_index);
    lemma_str_len(p.poll_name);
    lemma_str_len(p.poll_description);
}

/// After a successful initialization the poll account keeps its length and
/// its front reads back as a poll with exactly the instruction's id, name,
/// description, start and end, and no candidates. Where the account held a
/// poll whose name and description have the lengths of the new ones (as a
/// poll of checked names does), the whole account reads back so.
pub proof fn lemma_initialized_poll_reads_back(
    data: Seq<u8>,
    poll_id: u64,
    name: Seq<char>,
    description: Seq<char>,
    start: u64,
    end: u64,
)
    requires
        initialize_poll_effect(data, poll_id, name, description, start, end).0 is Ok,
    ensures
        ({
            let after = initialize_poll_effect(data, poll_id, name, description, start, end).1;
            &&& after.len() == data.len()
            &&& exists|n: int|
                0 <= n <= after.len() && (#[trigger] poll_from_bytes(after.take(n)) matches Some(p)
                    && p.poll_id == poll_id && p.poll_name == name && p.poll_description
                    == description && p.poll_voting_start == start && p.poll_voting_end == end
                    && p.poll_option_index == 0)
            &&& (poll_from_bytes(data) matches Some(held) && encode_utf8(held.poll_name).len()
                == encode_utf8(name).len() && encode_utf8(held.poll_description).len()
                == encode_utf8(description).len()) ==> (poll_from_bytes(after) matches Some(p)
                && p.poll_id == poll_id && p.poll_name == name && p.poll_description
                == description && p.poll_voting_start == start && p.poll_voting_end == end
                && p.poll_option_index == 0)
        }),
{
    let fresh = new_poll(poll_id, name, description, start, end);
    let bytes = poll_bytes(fresh);
    let after = initialize_poll_effect(data, poll_id, name, description, start, end).1;
    let n = bytes.len() as int;
    assert(after.take(n) =~= bytes);
    lemma_poll_roundtrip(fresh, bytes);
    assert(poll_from_bytes(after.take(n)) == Some(fresh));
    if let Some(held) = poll_from_bytes(data) {
        if encode_utf8(held.poll_name).len() == encode_utf8(name).len() && encode_utf8(
            held.poll_description,
        ).len() == encode_utf8(description).len() {
            lemma_poll_roundtrip(held, data);
            lemma_poll_len(held);
            lemma_poll_len(fresh);
            lemma_poll_save_load(fresh, data);
        }
    }
}

} // verus!
