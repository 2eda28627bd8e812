//! The counter program written with a framework that loads and stores the
//! counter account itself; what is left to the program is the update.
use crate::account::ProgramError;
use crate::counter::Counter;
use vstd::prelude::*;

verus! {

/// Sets the counter to zero.
pub fn initialize(counter: &mut Counter) -> (r: Result<(), ProgramError>)
    ensures
        r is Ok,
        final(counter).count == 0,
{
    counter.count = 0;
    Ok(())
}

/// Adds one to the counter.
pub fn increment(counter: &mut Counter) -> (r: Result<(), ProgramError>)
    requires
        old(counter).count < u64::MAX,
    ensures
        r is Ok,
        final(counter).count == old(counter).count + 1,
{
    counter.count = counter.count + 1;
    Ok(())
}

} // verus!
