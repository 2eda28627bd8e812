//! Moving lamports from an owner's vault address back to the owner.
use crate::account::{keys_equal, AccountMeta, ProgramError, Pubkey};
use crate::vault::{
    address_seeds, answer_view, invocation_view, make_address_seeds,
    make_signing_seeds, signing_seeds, Invocation, Transfer,
};
use crate::vault::lookup::{answer_of, find_derived_address, DerivedAddress};
use vstd::prelude::*;
use vstd::slice::slice_to_vec;

verus! {

/// The seed text `withdraw_seed`.
pub open spec fn seed() -> Seq<u8> {
    seq![119u8, 105, 116, 104, 100, 114, 97, 119, 95, 115, 101, 101, 100]
}

pub fn seed_bytes() -> (r: Vec<u8>)
    ensures
        r@ == seed(),
{
    let a: [u8; 13] = [119u8, 105, 116, 104, 100, 114, 97, 119, 95, 115, 101, 101, 100];
    slice_to_vec(&a)
}

/// The error answered when the vault itself signs the withdrawal.
pub const WRONG_SIGNER: u32 = 28;

/// The seeds from which the runtime finds the owner's derived address:
/// [`seed`], then the owner's key.
pub fn address_seeds_for(owner: &Pubkey) -> (r: Vec<Vec<u8>>)
    ensures
        r.deep_view() == address_seeds(seed(), *owner),
{
    let s = seed_bytes();
    make_address_seeds(s.as_slice(), owner)
}

/// What the withdraw instruction answers: the system program's transfer
/// and the seeds the program signs with, or the error.
pub open spec fn outcome(accounts: Seq<AccountMeta>, lamports: u64, derived: Option<(Pubkey, u8)>)
    -> Result<(Transfer, Seq<Seq<u8>>), ProgramError> {
    if accounts.len() != 3 {
        Err(ProgramError::InvalidAccountData)
    } else if accounts[0].is_signer {
        Err(ProgramError::Custom(28))
    } else if !accounts[1].is_signer {
        Err(ProgramError::MissingRequiredSignature)
    } else if derived.unwrap().0 != accounts[0].key {
        Err(ProgramError::InvalidAccountOwner)
    } else {
        Ok(
            (
                Transfer { from: accounts[0].key, to: accounts[1].key, lamports },
                signing_seeds(seed(), accounts[1].key, derived.unwrap().1),
            ),
        )
    }
}

/// Decides the withdraw instruction.
///
/// Accounts: exactly the vault (which must not sign), the owner of the funds
/// (who must) and the system program. `derived` is the address and bump the
/// runtime finds for the seeds [`address_seeds_for`] the owner's key, under
/// the program (asked for only when there are three accounts). The answer
/// is [`outcome`]: `InvalidAccountData` unless there are three accounts,
/// `Custom(28)` where the vault signs, `MissingRequiredSignature` where the
/// owner does not, and `InvalidAccountOwner` where the vault is not at the
/// derived address; otherwise the system program is asked, with the program
/// signing for the vault under the seeds and bump, to move `lamports` from
/// the vault back to the owner.
pub fn process(accounts: &[AccountMeta], lamports: u64, derived: Option<(Pubkey, u8)>) -> (r:
    Result<Invocation<Transfer>, ProgramError>)
    requires
        accounts@.len() == 3 ==> derived is Some,
    ensures
        invocation_view(r) == outcome(accounts@, lamports, derived),
{
    if accounts.len() != 3 {
        return Err(ProgramError::InvalidAccountData);
    }
    let vault = &accounts[0];
    let signer = &accounts[1];
    if vault.is_signer {
        return Err(ProgramError::Custom(WRONG_SIGNER));
    }
    if !signer.is_signer {
        return Err(ProgramError::MissingRequiredSignature);
    }
    let (pda, bump) = match derived {
        Some(d) => d,
        None => return Err(ProgramError::InvalidAccountData),
    };
    if !keys_equal(&pda, &vault.key) {
        return Err(ProgramError::InvalidAccountOwner);
    }
    let seed = seed_bytes();
    let signer_seeds = make_signing_seeds(seed.as_slice(), &signer.key, bump);
    Ok(Invocation { instruction: Transfer { from: vault.key, to: signer.key, lamports }, signer_seeds })
}

/// What the withdraw instruction answers once the runtime has answered
/// `found` for the owner's derived address: `None` where the program stops
/// (no address found).
pub open spec fn deriving_answer(accounts: Seq<AccountMeta>, lamports: u64, found: Option<(Pubkey, u8)>)
    -> Option<Result<(Transfer, Seq<Seq<u8>>), ProgramError>> {
    if accounts.len() != 3 {
        Some(Err(ProgramError::InvalidAccountData))
    } else if found is None {
        None
    } else {
        Some(outcome(accounts, lamports, found))
    }
}

/// The withdraw instruction with its own address lookup: where there are
/// three accounts, asks the runtime for the derived address of exactly the
/// seeds [`seed`, the second account's key] under `program`, then decides
/// as [`process`] does with the runtime's answer.
///
/// Answers the decision (`None` where the program stops: no address found)
/// and the lookup, which carries the seeds and program it asked about
/// (`None` where there are not three accounts), as [`deriving_answer`]
/// gives them.
pub fn process_deriving(accounts: &[AccountMeta], lamports: u64, program: &Pubkey) -> (r: (
    Option<Result<Invocation<Transfer>, ProgramError>>,
    Option<DerivedAddress>,
))
    ensures
        r.1 is Some <==> accounts@.len() == 3,
        r.1 matches Some(d) ==> d.seeds() == address_seeds(seed(), accounts@[1].key)
            && d.program() == *program,
        answer_view(r.0) == deriving_answer(accounts@, lamports, answer_of(r.1)),
{
    if accounts.len() != 3 {
        return (Some(Err(ProgramError::InvalidAccountData)), None);
    }
    let seeds = address_seeds_for(&accounts[1].key);
    let lookup = find_derived_address(seeds, program);
    let found = lookup.found();
    if found.is_none() {
        return (None, Some(lookup));
    }
    (Some(process(accounts, lamports, found)), Some(lookup))
}

/// Whenever the withdraw decision is `Ok`, the vault (the first account)
/// did not sign and is the derived address, the owner (the second) signed,
/// and the transfer asked for moves exactly the lamports from the vault to
/// the owner, the program signing with the seed text, the owner's key and
/// the bump.
pub proof fn lemma_withdraw_moves_vault_to_owner(
    accounts: Seq<AccountMeta>,
    lamports: u64,
    derived: Option<(Pubkey, u8)>,
)
    requires
        accounts.len() == 3 ==> derived is Some,
    ensures
        outcome(accounts, lamports, derived) matches Ok((ix, seeds)) ==> {
            &&& accounts.len() == 3 && !accounts[0].is_signer && accounts[1].is_signer
            &&& derived matches Some((pda, bump)) && pda == accounts[0].key
            &&& ix.from == accounts[0].key && ix.to == accounts[1].key && ix.lamports == lamports
            &&& seeds == seq![seed(), accounts[1].key@, seq![derived.unwrap().1]]
        },
{
}

} // verus!
