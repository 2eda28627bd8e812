//! Creating the account at the owner's derived address.
use crate::account::{keys_equal, AccountMeta, Pubkey, ProgramError};
use crate::vault::{
    address_seeds, answer_view, invocation_view, make_address_seeds,
    make_signing_seeds, signing_seeds, CreateAccount, Invocation,
};
use crate::vault::lookup::{answer_of, find_derived_address, DerivedAddress};
use vstd::prelude::*;
use vstd::slice::slice_to_vec;

verus! {

/// The seed text `create_pda_seed`.
pub open spec fn seed() -> Seq<u8> {
    seq![99u8, 114, 101, 97, 116, 101, 95, 112, 100, 97, 95, 115, 101, 101, 100]
}

pub fn seed_bytes() -> (r: Vec<u8>)
    ensures
        r@ == seed(),
{
    let a: [u8; 15] = [99u8, 114, 101, 97, 116, 101, 95, 112, 100, 97, 95, 115, 101, 101, 100];
    slice_to_vec(&a)
}

/// The seeds from which the runtime finds the owner's derived address:
/// [`seed`], then the owner's key.
pub fn address_seeds_for(owner: &Pubkey) -> (r: Vec<Vec<u8>>)
    ensures
        r.deep_view() == address_seeds(seed(), *owner),
{
    let s = seed_bytes();
    make_address_seeds(s.as_slice(), owner)
}

/// What the `CreatePdaAccount` instruction answers: the system program's
/// account creation and the seeds the program signs with, or the error.
pub open spec fn outcome(
    accounts: Seq<AccountMeta>,
    lamports: u64,
    space: u64,
    program: Pubkey,
    derived: Option<(Pubkey, u8)>,
    rent_minimum: Result<u64, ProgramError>,
) -> Result<(CreateAccount, Seq<Seq<u8>>), ProgramError> {
    if accounts.len() != 3 {
        Err(ProgramError::InvalidAccountData)
    } else if !(accounts[0].is_signer && accounts[1].is_signer) {
        Err(ProgramError::MissingRequiredSignature)
    } else if derived.unwrap().0 != accounts[1].key {
        Err(ProgramError::InvalidAccountOwner)
    } else {
        match rent_minimum {
            Err(e) => Err(e),
            Ok(m) => Ok(
                (
                    CreateAccount {
                        from: accounts[0].key,
                        to: accounts[1].key,
                        lamports: (m + lamports) as u64,
                        space,
                        owner: program,
                    },
                    signing_seeds(seed(), accounts[0].key, derived.unwrap().1),
                ),
            ),
        }
    }
}

/// Decides the `CreatePdaAccount` instruction.
///
/// Accounts: exactly the funding owner, the new account (both must sign) and
/// the system program. `derived` is the address and bump the runtime finds
/// for the seeds [`address_seeds_for`] the owner's key, under the program
/// (asked for only when there are three accounts); `rent_minimum` is the
/// rent-exempt balance for `space` bytes. The answer is [`outcome`]:
/// `InvalidAccountData` unless there are three accounts,
/// `MissingRequiredSignature` unless both sign, `InvalidAccountOwner` where
/// the new account is not at the derived address, then the rent query's
/// error; otherwise the system program is asked, with the program signing
/// under the seeds and bump, to create the account with the rent-exempt
/// balance plus `lamports`, `space` bytes, owned by `program`.
pub fn process(
    accounts: &[AccountMeta],
    lamports: u64,
    space: u64,
    program: &Pubkey,
    derived: Option<(Pubkey, u8)>,
    rent_minimum: Result<u64, ProgramError>,
) -> (r: Result<Invocation<CreateAccount>, ProgramError>)
    requires
        accounts@.len() == 3 ==> derived is Some,
        accounts@.len() == 3 && accounts@[0].is_signer && accounts@[1].is_signer && derived.unwrap().0
            == accounts@[1].key ==> (rent_minimum matches Ok(m) ==> m + lamports <= u64::MAX),
    ensures
        invocation_view(r) == outcome(accounts@, lamports, space, *program, derived, rent_minimum),
{
    if accounts.len() != 3 {
        return Err(ProgramError::InvalidAccountData);
    }
    let owner_account = &accounts[0];
    let new_account = &accounts[1];
    if !owner_account.is_signer || !new_account.is_signer {
        return Err(ProgramError::MissingRequiredSignature);
    }
    let (pda, bump) = match derived {
        Some(d) => d,
        None => return Err(ProgramError::InvalidAccountData),
    };
    if !keys_equal(&pda, &new_account.key) {
        return Err(ProgramError::InvalidAccountOwner);
    }
    let seed = seed_bytes();
    let signer_seeds = make_signing_seeds(seed.as_slice(), &owner_account.key, bump);
    let minimum = match rent_minimum {
        Ok(m) => m,
        Err(e) => return Err(e),
    };
    let lamports = minimum + lamports;
    Ok(
        Invocation {
            instruction: CreateAccount {
                from: owner_account.key,
                to: new_account.key,
                lamports,
                space,
                owner: *program,
            },
            signer_seeds,
        },
    )
}

/// Where creating the derived account would add the rent-exempt balance
/// and the lamports past 64 bits (the program stops there).
pub open spec fn sum_overflows(
    accounts: Seq<AccountMeta>,
    lamports: u64,
    derived: Option<(Pubkey, u8)>,
    rent_minimum: Result<u64, ProgramError>,
) -> bool {
    &&& accounts.len() == 3 && accounts[0].is_signer && accounts[1].is_signer
    &&& derived.unwrap().0 == accounts[1].key
    &&& rent_minimum matches Ok(m) && m + lamports > u64::MAX
}

/// What the `CreatePdaAccount` instruction answers once the runtime has
/// answered `found` for the owner's derived address: `None` where the
/// program stops (no address found, or the balance overflows).
pub open spec fn deriving_answer(
    accounts: Seq<AccountMeta>,
    lamports: u64,
    space: u64,
    program: Pubkey,
    found: Option<(Pubkey, u8)>,
    rent_minimum: Result<u64, ProgramError>,
) -> Option<Result<(CreateAccount, Seq<Seq<u8>>), ProgramError>> {
    if accounts.len() != 3 {
        Some(Err(ProgramError::InvalidAccountData))
    } else if found is None || sum_overflows(accounts, lamports, found, rent_minimum) {
        None
    } else {
        Some(outcome(accounts, lamports, space, program, found, rent_minimum))
    }
}

/// The `CreatePdaAccount` instruction with its own address lookup: where
/// there are three accounts, asks the runtime for the derived address of
/// exactly the seeds [`seed`, the first account's key] under `program`,
/// then decides as [`process`] does with the runtime's answer.
///
/// Answers the decision (`None` where the program stops: no address found,
/// or the balance overflows) and the lookup, which carries the seeds and
/// program it asked about (`None` where there are not three accounts), as
/// [`deriving_answer`] gives them.
pub fn process_deriving(
    accounts: &[AccountMeta],
    lamports: u64,
    space: u64,
    program: &Pubkey,
    rent_minimum: Result<u64, ProgramError>,
) -> (r: (Option<Result<Invocation<CreateAccount>, ProgramError>>, Option<DerivedAddress>))
    ensures
        r.1 is Some <==> accounts@.len() == 3,
        r.1 matches Some(d) ==> d.seeds() == address_seeds(seed(), accounts@[0].key)
            && d.program() == *program,
        answer_view(r.0) == deriving_answer(
            accounts@,
            lamports,
            space,
            *program,
            answer_of(r.1),
            rent_minimum,
        ),
{
    if accounts.len() != 3 {
        return (Some(Err(ProgramError::InvalidAccountData)), None);
    }
    let seeds = address_seeds_for(&accounts[0].key);
    let lookup = find_derived_address(seeds, program);
    let found = lookup.found();
    let (pda, _bump) = match found {
        Some(d) => d,
        None => return (None, Some(lookup)),
    };
    if accounts[0].is_signer && accounts[1].is_signer && keys_equal(&pda, &accounts[1].key) {
        match rent_minimum {
            Ok(m) => if m > u64::MAX - lamports {
                return (None, Some(lookup));
            },
            Err(_) => {},
        }
    }
    (Some(process(accounts, lamports, space, program, found, rent_minimum)), Some(lookup))
}

/// Whenever the `CreatePdaAccount` decision is `Ok`, both accounts signed,
/// the second account is the derived address, and the creation asked for
/// is paid by the first account, creates the second, with exactly the
/// requested space and the rent-exempt balance plus the lamports, owned by
/// the program itself; the program signs with the seed text, the first
/// account's key and the bump.
pub proof fn lemma_created_account_belongs_to_program(
    accounts: Seq<AccountMeta>,
    lamports: u64,
    space: u64,
    program: Pubkey,
    derived: Option<(Pubkey, u8)>,
    rent_minimum: Result<u64, ProgramError>,
)
    requires
        accounts.len() == 3 ==> derived is Some,
        rent_minimum matches Ok(m) ==> m + lamports <= u64::MAX,
    ensures
        outcome(accounts, lamports, space, program, derived, rent_minimum) matches Ok((ix, seeds))
            ==> {
            &&& accounts.len() == 3 && accounts[0].is_signer && accounts[1].is_signer
            &&& derived matches Some((pda, bump)) && pda == accounts[1].key
            &&& ix.owner == program && ix.from == accounts[0].key && ix.to == accounts[1].key
            &&& ix.space == space
            &&& rent_minimum matches Ok(m) && ix.lamports == m + lamports
            &&& seeds == seq![seed(), accounts[0].key@, seq![derived.unwrap().1]]
        },
{
}

} // verus!
