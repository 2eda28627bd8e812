//! Creating a plain account funded by its owner.
use crate::account::{AccountMeta, Pubkey, ProgramError};
use crate::vault::{invocation_view, CreateAccount, Invocation};
use vstd::prelude::*;

verus! {

/// What the `CreateAccount` instruction answers: the system program's
/// account creation (with no program signature), or the error.
pub open spec fn outcome(
    accounts: Seq<AccountMeta>,
    lamports: u64,
    space: u64,
    program: Pubkey,
    rent_minimum: Result<u64, ProgramError>,
) -> Result<(CreateAccount, Seq<Seq<u8>>), ProgramError> {
    if !(accounts[0].is_signer && accounts[1].is_signer) {
        Err(ProgramError::MissingRequiredSignature)
    } else {
        match rent_minimum {
            Err(e) => Err(e),
            Ok(m) => Ok(
                (
                    CreateAccount {
                        from: accounts[0].key,
                        to: accounts[1].key,
                        lamports: (m + lamports) as u64,
                        space,
                        owner: program,
                    },
                    Seq::empty(),
                ),
            ),
        }
    }
}

/// Decides the `CreateAccount` instruction.
///
/// Accounts: the funding owner, then the new account (both must sign).
/// `rent_minimum` is the runtime's answer for the rent-exempt balance of an
/// account of `space` bytes. The answer is [`outcome`]:
/// `MissingRequiredSignature` unless both sign, then the rent query's error;
/// otherwise the system program is asked to create the new account with the
/// rent-exempt balance plus `lamports`, `space` bytes, owned by `program`.
pub fn process(
    accounts: &[AccountMeta],
    lamports: u64,
    space: u64,
    program: &Pubkey,
    rent_minimum: Result<u64, ProgramError>,
) -> (r: Result<Invocation<CreateAccount>, ProgramError>)
    requires
        accounts@.len() >= 2,
        accounts@[0].is_signer && accounts@[1].is_signer ==> (rent_minimum matches Ok(m) ==> m
            + lamports <= u64::MAX),
    ensures
        invocation_view(r) == outcome(accounts@, lamports, space, *program, rent_minimum),
{
    let owner_account = &accounts[0];
    let new_account = &accounts[1];
    if !owner_account.is_signer || !new_account.is_signer {
        return Err(ProgramError::MissingRequiredSignature);
    }
    let minimum = match rent_minimum {
        Ok(m) => m,
        Err(e) => return Err(e),
    };
    let lamports = minimum + lamports;
    let signer_seeds: Vec<Vec<u8>> = Vec::new();
    assert(signer_seeds.deep_view() =~= Seq::<Seq<u8>>::empty());
    Ok(
        Invocation {
            instruction: CreateAccount {
                from: owner_account.key,
                to: new_account.key,
                lamports,
                space,
                owner: *program,
            },
            signer_seeds,
        },
    )
}

/// Whenever the `CreateAccount` decision is `Ok`, both accounts signed and
/// the creation asked for is paid by the first account, creates the second,
/// with exactly the requested space and the rent-exempt balance plus the
/// lamports, owned by the program itself, with no program signature.
pub proof fn lemma_created_account_belongs_to_program(
    accounts: Seq<AccountMeta>,
    lamports: u64,
    space: u64,
    program: Pubkey,
    rent_minimum: Result<u64, ProgramError>,
)
    requires
        rent_minimum matches Ok(m) ==> m + lamports <= u64::MAX,
    ensures
        outcome(accounts, lamports, space, program, rent_minimum) matches Ok((ix, seeds)) ==> {
            &&& accounts[0].is_signer && accounts[1].is_signer
            &&& ix.owner == program && ix.from == accounts[0].key && ix.to == accounts[1].key
            &&& ix.space == space
            &&& rent_minimum matches Ok(m) && ix.lamports == m + lamports
            &&& seeds.len() == 0
        },
{
}

} // verus!
