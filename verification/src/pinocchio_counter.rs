//! The counter program written against the lightweight runtime bindings: it
//! adds one to the counter held by the first account.
use crate::account::{AccountMeta, ProgramError};
use crate::codec::{lemma_u64_len, write_into};
use crate::counter::{counter_bytes, counter_from_bytes, Counter};
use vstd::prelude::*;

verus! {

/// Increments the counter held in the first account's data.
///
/// `data` is the first account's data. Fails with `InvalidAccountData` where
/// the first account is not writable and with `Custom(1)` where its data
/// does not hold exactly one counter; otherwise the data then holds the
/// counter plus one.
pub fn process_instruction(accounts: &[AccountMeta], data: &mut [u8]) -> (r: Result<
    (),
    ProgramError,
>)
    requires
        accounts@.len() > 0,
        accounts@[0].is_writable ==> (counter_from_bytes(old(data)@) matches Some(c) ==> c.count
            < u64::MAX),
    ensures
        !accounts@[0].is_writable ==> r == Err::<(), ProgramError>(ProgramError::InvalidAccountData),
        accounts@[0].is_writable ==> match counter_from_bytes(old(data)@) {
            None => r == Err::<(), ProgramError>(ProgramError::Custom(1)),
            Some(c) => r is Ok && final(data)@ == counter_bytes(Counter { count: (c.count + 1) as u64 }),
        },
        r is Err ==> final(data)@ == old(data)@,
{
    if !accounts[0].is_writable {
        return Err(ProgramError::InvalidAccountData);
    }
    let mut counter = match Counter::try_from_slice(data) {
        Some(c) => c,
        None => return Err(ProgramError::Custom(1)),
    };
    counter.count = counter.count + 1;
    let bytes = counter.to_bytes();
    proof {
        lemma_u64_len(counter.count);
    }
    let fits = write_into(data, bytes.as_slice());
    assert(fits);
    assert(data@ =~= counter_bytes(counter));
    Ok(())
}

} // verus!
