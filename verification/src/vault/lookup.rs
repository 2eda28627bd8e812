//! Asking the runtime for a program-derived address, keeping the question
//! with its answer.
use crate::account::Pubkey;
use vstd::prelude::*;

verus! {

/// The runtime's answer for the derived address of some seeds under a
/// program, together with those seeds and that program. Only
/// [`find_derived_address`] makes one, so the question it carries is the
/// one that was asked.
#[derive(Debug, PartialEq)]
pub struct DerivedAddress {
    seeds: Vec<Vec<u8>>,
    program: Pubkey,
    found: Option<(Pubkey, u8)>,
}

impl DerivedAddress {
    /// The seeds that were asked about.
    pub closed spec fn seeds(self) -> Seq<Seq<u8>> {
        self.seeds.deep_view()
    }

    /// The program under which the address was asked for.
    pub closed spec fn program(self) -> Pubkey {
        self.program
    }

    /// The runtime's answer: the address and its bump, or `None`.
    pub closed spec fn answer(self) -> Option<(Pubkey, u8)> {
        self.found
    }

    pub fn found(&self) -> (r: Option<(Pubkey, u8)>)
        ensures
            r == self.answer(),
    {
        self.found
    }
}

/// The runtime's answer of a lookup that may not have been made.
pub open spec fn answer_of(lookup: Option<DerivedAddress>) -> Option<(Pubkey, u8)> {
    match lookup {
        Some(d) => d.answer(),
        None => None,
    }
}

/// Asks the runtime, through pinocchio's `try_find_program_address`, for
/// the derived address and bump of `seeds` under `program`, and keeps the
/// question with the answer.
///
/// The contract says only that the seeds and program kept are the ones
/// given. Nothing is stated of the answer: on the Solana runtime it comes
/// from a system call, and elsewhere pinocchio answers `None` for every
/// input. `None` also stands for too many seeds, a seed that is too long,
/// or no bump that gives an address.
#[verifier::external_body]
pub(crate) fn find_derived_address(seeds: Vec<Vec<u8>>, program: &Pubkey) -> (r: DerivedAddress)
    ensures
        r.seeds() == seeds.deep_view(),
        r.program() == *program,
{
    let refs: Vec<&[u8]> = seeds.iter().map(|s| s.as_slice()).collect();
    let found = pinocchio::pubkey::try_find_program_address(&refs, program);
    DerivedAddress { seeds, program: *program, found }
}

} // verus!
