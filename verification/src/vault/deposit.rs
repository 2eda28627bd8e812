//! Moving lamports from an owner into the owner's vault address.
use crate::account::{keys_equal, AccountMeta, ProgramError, Pubkey};
use crate::vault::{
    address_seeds, answer_view, invocation_view, make_address_seeds,
    Invocation, Transfer,
};
use crate::vault::lookup::{answer_of, find_derived_address, DerivedAddress};
use vstd::prelude::*;
use vstd::slice::slice_to_vec;

verus! {

/// The seed text `deposit_seed`.
pub open spec fn seed() -> Seq<u8> {
    seq![100u8, 101, 112, 111, 115, 105, 116, 95, 115, 101, 101, 100]
}

pub fn seed_bytes() -> (r: Vec<u8>)
    ensures
        r@ == seed(),
{
    let a: [u8; 12] = [100u8, 101, 112, 111, 115, 105, 116, 95, 115, 101, 101, 100];
    slice_to_vec(&a)
}

/// The seeds from which the runtime finds the owner's derived address:
/// [`seed`], then the owner's key.
pub fn address_seeds_for(owner: &Pubkey) -> (r: Vec<Vec<u8>>)
    ensures
        r.deep_view() == address_seeds(seed(), *owner),
{
    let s = seed_bytes();
    make_address_seeds(s.as_slice(), owner)
}

/// What the deposit instruction answers: the system program's transfer
/// (with no program signature), or the error.
pub open spec fn outcome(accounts: Seq<AccountMeta>, lamports: u64, derived: Option<(Pubkey, u8)>)
    -> Result<(Transfer, Seq<Seq<u8>>), ProgramError> {
    if accounts.len() != 3 {
        Err(ProgramError::InvalidAccountData)
    } else if derived.unwrap().0 != accounts[1].key {
        Err(ProgramError::InvalidAccountOwner)
    } else {
        Ok((Transfer { from: accounts[0].key, to: accounts[1].key, lamports }, Seq::empty()))
    }
}

/// Decides the deposit instruction.
///
/// Accounts: exactly the owner (who signs the transfer), the vault and the
/// system program. `derived` is the address and bump the runtime finds for
/// the seeds [`address_seeds_for`] the owner's key, under the program
/// (asked for only when there are three accounts). The answer is
/// [`outcome`]: `InvalidAccountData` unless there are three accounts and
/// `InvalidAccountOwner` where the vault is not at the derived address;
/// otherwise the system program is asked to move `lamports` from the owner
/// to the vault, with no program signature.
pub fn process(accounts: &[AccountMeta], lamports: u64, derived: Option<(Pubkey, u8)>) -> (r:
    Result<Invocation<Transfer>, ProgramError>)
    requires
        accounts@.len() == 3 ==> derived is Some,
    ensures
        invocation_view(r) == outcome(accounts@, lamports, derived),
{
    if accounts.len() != 3 {
        return Err(ProgramError::InvalidAccountData);
    }
    let signer = &accounts[0];
    let vault = &accounts[1];
    let (pda, _bump) = match derived {
        Some(d) => d,
        None => return Err(ProgramError::InvalidAccountData),
    };
    if !keys_equal(&pda, &vault.key) {
        return Err(ProgramError::InvalidAccountOwner);
    }
    let signer_seeds: Vec<Vec<u8>> = Vec::new();
    assert(signer_seeds.deep_view() =~= Seq::<Seq<u8>>::empty());
    Ok(Invocation { instruction: Transfer { from: signer.key, to: vault.key, lamports }, signer_seeds })
}

/// What the deposit instruction answers once the runtime has answered
/// `found` for the owner's derived address: `None` where the program stops
/// (no address found).
pub open spec fn deriving_answer(accounts: Seq<AccountMeta>, lamports: u64, found: Option<(Pubkey, u8)>)
    -> Option<Result<(Transfer, Seq<Seq<u8>>), ProgramError>> {
    if accounts.len() != 3 {
        Some(Err(ProgramError::InvalidAccountData))
    } else if found is None {
        None
    } else {
        Some(outcome(accounts, lamports, found))
    }
}

/// The deposit instruction with its own address lookup: where there are
/// three accounts, asks the runtime for the derived address of exactly the
/// seeds [`seed`, the first account's key] under `program`, then decides
/// as [`process`] does with the runtime's answer.
///
/// Answers the decision (`None` where the program stops: no address found)
/// and the lookup, which carries the seeds and program it asked about
/// (`None` where there are not three accounts), as [`deriving_answer`]
/// gives them.
pub fn process_deriving(accounts: &[AccountMeta], lamports: u64, program: &Pubkey) -> (r: (
    Option<Result<Invocation<Transfer>, ProgramError>>,
    Option<DerivedAddress>,
))
    ensures
        r.1 is Some <==> accounts@.len() == 3,
        r.1 matches Some(d) ==> d.seeds() == address_seeds(seed(), accounts@[0].key)
            && d.program() == *program,
        answer_view(r.0) == deriving_answer(accounts@, lamports, answer_of(r.1)),
{
    if accounts.len() != 3 {
        return (Some(Err(ProgramError::InvalidAccountData)), None);
    }
    let seeds = address_seeds_for(&accounts[0].key);
    let lookup = find_derived_address(seeds, program);
    let found = lookup.found();
    if found.is_none() {
        return (None, Some(lookup));
    }
    (Some(process(accounts, lamports, found)), Some(lookup))
}

/// Whenever the deposit decision is `Ok`, the second account is the derived
/// address and the transfer asked for moves exactly the lamports from the
/// first account to the second, with no program signature.
pub proof fn lemma_deposit_moves_owner_to_vault(
    accounts: Seq<AccountMeta>,
    lamports: u64,
    derived: Option<(Pubkey, u8)>,
)
    requires
        accounts.len() == 3 ==> derived is Some,
    ensures
        outcome(accounts, lamports, derived) matches Ok((ix, seeds)) ==> {
            &&& accounts.len() == 3
            &&& derived matches Some((pda, _)) && pda == accounts[1].key
            &&& ix.from == accounts[0].key && ix.to == accounts[1].key && ix.lamports == lamports
            &&& seeds.len() == 0
        },
{
}

} // verus!
