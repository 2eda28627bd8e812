//! A lamport vault: creating plain and program-derived accounts, and moving
//! lamports into and out of a per-owner vault address.
//!
//! The program's first instruction byte selects the instruction, the next
//! eight bytes are a lamport amount, and the account-creating instructions
//! carry eight more bytes giving the account's size.
use crate::account::{keys_equal, AccountMeta, Pubkey, ProgramError};
use crate::codec::{parse_u64, read_u64};
use vstd::prelude::*;
use vstd::slice::slice_to_vec;

pub mod create;
pub mod create_pda;
pub mod deposit;
pub mod lookup;
pub mod withdraw;

verus! {

/// The four instructions of the vault.
#[derive(Clone, Copy, Debug, PartialEq, Eq, Structural)]
pub enum VaultInstructions {
    CreateAccount,
    CreatePdaAccount,
    Deposit,
    Withdraw,
}

/// The instruction a discriminator byte selects.
pub open spec fn instruction_of(d: u8) -> Option<VaultInstructions> {
    if d == 0 {
        Some(VaultInstructions::CreateAccount)
    } else if d == 1 {
        Some(VaultInstructions::CreatePdaAccount)
    } else if d == 2 {
        Some(VaultInstructions::Deposit)
    } else if d == 3 {
        Some(VaultInstructions::Withdraw)
    } else {
        None
    }
}

/// The discriminator byte of an instruction.
pub open spec fn discriminator_of(i: VaultInstructions) -> u8 {
    match i {
        VaultInstructions::CreateAccount => 0,
        VaultInstructions::CreatePdaAccount => 1,
        VaultInstructions::Deposit => 2,
        VaultInstructions::Withdraw => 3,
    }
}

impl VaultInstructions {
    /// Converts a discriminator byte into an instruction;
    /// `InvalidInstructionData` for any byte above 3.
    pub fn try_from(discriminator: &u8) -> (r: Result<VaultInstructions, ProgramError>)
        ensures
            match instruction_of(*discriminator) {
                Some(i) => r == Ok::<VaultInstructions, ProgramError>(i),
                None => r == Err::<VaultInstructions, ProgramError>(
                    ProgramError::InvalidInstructionData,
                ),
            },
    {
        match *discriminator {
            0 => Ok(VaultInstructions::CreateAccount),
            1 => Ok(VaultInstructions::CreatePdaAccount),
            2 => Ok(VaultInstructions::Deposit),
            3 => Ok(VaultInstructions::Withdraw),
            _ => Err(ProgramError::InvalidInstructionData),
        }
    }

    /// The discriminator byte that selects this instruction.
    pub fn discriminator(&self) -> (r: u8)
        ensures
            r == discriminator_of(*self),
    {
        match self {
            VaultInstructions::CreateAccount => 0,
            VaultInstructions::CreatePdaAccount => 1,
            VaultInstructions::Deposit => 2,
            VaultInstructions::Withdraw => 3,
        }
    }
}

impl From<VaultInstructions> for u8 {
    fn from(i: VaultInstructions) -> (r: u8) {
        i.discriminator()
    }
}

impl vstd::std_specs::convert::FromSpecImpl<VaultInstructions> for u8 {
    open spec fn obeys_from_spec() -> bool {
        true
    }

    open spec fn from_spec(i: VaultInstructions) -> u8 {
        discriminator_of(i)
    }
}

/// Each instruction's discriminator selects that instruction again.
pub proof fn lemma_discriminator_roundtrip(i: VaultInstructions)
    ensures
        instruction_of(discriminator_of(i)) == Some(i),
{
}

/// Every byte that selects an instruction is that instruction's
/// discriminator.
pub proof fn lemma_discriminator_canonical(d: u8)
    requires
        instruction_of(d) is Some,
    ensures
        discriminator_of(instruction_of(d).unwrap()) == d,
{
}

/// A decoded instruction with its amounts.
#[derive(Clone, Copy, Debug, PartialEq, Eq, Structural)]
pub enum VaultCommand {
    CreateAccount { lamports: u64, space: u64 },
    CreatePdaAccount { lamports: u64, space: u64 },
    Deposit { lamports: u64 },
    Withdraw { lamports: u64 },
}

/// The eight-byte amount at `pos` of the instruction data.
pub open spec fn amount_at(data: Seq<u8>, pos: int) -> u64 {
    parse_u64(data, pos).unwrap().0
}

/// Whether reading the amounts of `data` stays within its length: the
/// lamport amount needs nine bytes, and the account-creating instructions
/// need seventeen.
pub open spec fn amounts_in_bounds(data: Seq<u8>) -> bool {
    &&& data.len() == 0 || data.len() >= 9
    &&& data.len() >= 1 && (data[0] == 0 || data[0] == 1) ==> data.len() >= 17
}

/// The command that instruction data selects, once the program id has been
/// accepted.
pub open spec fn command_of(data: Seq<u8>) -> Result<VaultCommand, ProgramError> {
    if data.len() == 0 {
        Err(ProgramError::InvalidInstructionData)
    } else {
        let lamports = amount_at(data, 1);
        match instruction_of(data[0]) {
            None => Err(ProgramError::InvalidInstructionData),
            Some(VaultInstructions::CreateAccount) => Ok(
                VaultCommand::CreateAccount { lamports, space: amount_at(data, 9) },
            ),
            Some(VaultInstructions::CreatePdaAccount) => Ok(
                VaultCommand::CreatePdaAccount { lamports, space: amount_at(data, 9) },
            ),
            Some(VaultInstructions::Deposit) => Ok(VaultCommand::Deposit { lamports }),
            Some(VaultInstructions::Withdraw) => Ok(VaultCommand::Withdraw { lamports }),
        }
    }
}

/// Decodes the vault's instruction data after checking that the program
/// was invoked under its own id.
///
/// Fails with `IncorrectProgramId` where `program_id` is not `vault_id`,
/// and with `InvalidInstructionData` on empty data or an unknown
/// discriminator. Data too short for its amounts is left out: the program
/// stops there.
pub fn parse_instruction(program_id: &Pubkey, vault_id: &Pubkey, data: &[u8]) -> (r: Result<
    VaultCommand,
    ProgramError,
>)
    requires
        *program_id == *vault_id ==> amounts_in_bounds(data@),
    ensures
        *program_id != *vault_id ==> r == Err::<VaultCommand, ProgramError>(
            ProgramError::IncorrectProgramId,
        ),
        *program_id == *vault_id ==> r == command_of(data@),
{
    if !keys_equal(program_id, vault_id) {
        return Err(ProgramError::IncorrectProgramId);
    }
    if data.len() == 0 {
        return Err(ProgramError::InvalidInstructionData);
    }
    let discriminator = data[0];
    let lamports = match read_u64(data, 1) {
        Some((v, _)) => v,
        None => {
            assert(false);
            0
        },
    };
    match VaultInstructions::try_from(&discriminator) {
        Err(e) => Err(e),
        Ok(VaultInstructions::CreateAccount) => {
            let space = match read_u64(data, 9) {
                Some((v, _)) => v,
                None => {
                    assert(false);
                    0
                },
            };
            Ok(VaultCommand::CreateAccount { lamports, space })
        },
        Ok(VaultInstructions::CreatePdaAccount) => {
            let space = match read_u64(data, 9) {
                Some((v, _)) => v,
                None => {
                    assert(false);
                    0
                },
            };
            Ok(VaultCommand::CreatePdaAccount { lamports, space })
        },
        Ok(VaultInstructions::Deposit) => Ok(VaultCommand::Deposit { lamports }),
        Ok(VaultInstructions::Withdraw) => Ok(VaultCommand::Withdraw { lamports }),
    }
}

/// Bytes after the amounts that an instruction reads change nothing: the
/// data decodes to the same command with or without them.
pub proof fn lemma_trailing_bytes_ignored(data: Seq<u8>, extra: Seq<u8>)
    requires
        data.len() >= 1,
        amounts_in_bounds(data),
    ensures
        command_of(data + extra) == command_of(data),
{
    let d = data + extra;
    assert(d[0] == data[0]);
    assert(d.subrange(1, 9) =~= data.subrange(1, 9));
    if data[0] == 0 || data[0] == 1 {
        assert(d.subrange(9, 17) =~= data.subrange(9, 17));
    }
}

/// The system program's instruction that creates an account.
#[derive(Clone, Copy, Debug)]
pub struct CreateAccount {
    pub from: Pubkey,
    pub to: Pubkey,
    pub lamports: u64,
    pub space: u64,
    pub owner: Pubkey,
}

/// The system program's instruction that moves lamports.
#[derive(Clone, Copy, Debug)]
pub struct Transfer {
    pub from: Pubkey,
    pub to: Pubkey,
    pub lamports: u64,
}

/// An instruction for the system program, with the seeds under which the
/// program signs for its derived address (none where it signs for none).
#[derive(Debug)]
pub struct Invocation<T> {
    pub instruction: T,
    pub signer_seeds: Vec<Vec<u8>>,
}

/// A decision as plain values: the instruction for the system program and
/// the seeds the program signs with, or the error.
pub open spec fn invocation_view<T>(r: Result<Invocation<T>, ProgramError>) -> Result<
    (T, Seq<Seq<u8>>),
    ProgramError,
> {
    match r {
        Ok(inv) => Ok((inv.instruction, inv.signer_seeds.deep_view())),
        Err(e) => Err(e),
    }
}

/// A decision that may not be reached, as plain values: `None` where the
/// program stops before deciding.
pub open spec fn answer_view<T>(r: Option<Result<Invocation<T>, ProgramError>>) -> Option<
    Result<(T, Seq<Seq<u8>>), ProgramError>,
> {
    match r {
        Some(x) => Some(invocation_view(x)),
        None => None,
    }
}

/// The seeds from which an owner's derived address is found.
pub open spec fn address_seeds(seed: Seq<u8>, key: Pubkey) -> Seq<Seq<u8>> {
    seq![seed, key@]
}

/// The seeds under which the program signs for that derived address.
pub open spec fn signing_seeds(seed: Seq<u8>, key: Pubkey, bump: u8) -> Seq<Seq<u8>> {
    seq![seed, key@, seq![bump]]
}

pub fn make_address_seeds(seed: &[u8], key: &Pubkey) -> (r: Vec<Vec<u8>>)
    ensures
        r.deep_view() == address_seeds(seed@, *key),
{
    let mut r: Vec<Vec<u8>> = Vec::new();
    r.push(slice_to_vec(seed));
    r.push(slice_to_vec(vstd::array::array_as_slice(key)));
    assert(r.deep_view() =~~= address_seeds(seed@, *key));
    r
}

pub fn make_signing_seeds(seed: &[u8], key: &Pubkey, bump: u8) -> (r: Vec<Vec<u8>>)
    ensures
        r.deep_view() == signing_seeds(seed@, *key, bump),
{
    let mut r = make_address_seeds(seed, key);
    let ghost before = r.deep_view();
    let mut b: Vec<u8> = Vec::new();
    b.push(bump);
    assert(b.deep_view() =~= seq![bump]);
    r.push(b);
    assert(r.deep_view() =~= before.push(seq![bump]));
    assert(r.deep_view() =~~= signing_seeds(seed@, *key, bump));
    r
}

/// What the program asks of the system program: an account creation or a
/// transfer, each with the seeds the program signs with.
#[derive(Debug)]
pub enum VaultCall {
    CreateAccount(Invocation<CreateAccount>),
    Transfer(Invocation<Transfer>),
}

/// The account creation a decision asks for, as plain values (`None` where
/// it asks for a transfer).
pub open spec fn creation_view(r: Result<VaultCall, ProgramError>) -> Option<
    Result<(CreateAccount, Seq<Seq<u8>>), ProgramError>,
> {
    match r {
        Ok(VaultCall::CreateAccount(inv)) => Some(Ok((inv.instruction, inv.signer_seeds.deep_view()))),
        Ok(VaultCall::Transfer(_)) => None,
        Err(e) => Some(Err(e)),
    }
}

/// The transfer a decision asks for, as plain values (`None` where it asks
/// for an account creation).
pub open spec fn transfer_view(r: Result<VaultCall, ProgramError>) -> Option<
    Result<(Transfer, Seq<Seq<u8>>), ProgramError>,
> {
    match r {
        Ok(VaultCall::Transfer(inv)) => Some(Ok((inv.instruction, inv.signer_seeds.deep_view()))),
        Ok(VaultCall::CreateAccount(_)) => None,
        Err(e) => Some(Err(e)),
    }
}

/// Whether a decision that may not be reached asks for the account creation
/// `answer` gives (both `None` where the program stops).
pub open spec fn creation_answers(
    r: Option<Result<VaultCall, ProgramError>>,
    answer: Option<Result<(CreateAccount, Seq<Seq<u8>>), ProgramError>>,
) -> bool {
    match (r, answer) {
        (None, None) => true,
        (Some(x), Some(a)) => creation_view(x) == Some(a),
        _ => false,
    }
}

/// Whether a decision that may not be reached asks for the transfer
/// `answer` gives (both `None` where the program stops).
pub open spec fn transfer_answers(
    r: Option<Result<VaultCall, ProgramError>>,
    answer: Option<Result<(Transfer, Seq<Seq<u8>>), ProgramError>>,
) -> bool {
    match (r, answer) {
        (None, None) => true,
        (Some(x), Some(a)) => transfer_view(x) == Some(a),
        _ => false,
    }
}

/// What the plain account creation needs: two accounts, and a rent-exempt
/// balance whose sum with the lamports fits in 64 bits where both sign (the
/// program stops otherwise).
pub open spec fn creation_ready(
    accounts: Seq<AccountMeta>,
    command: Result<VaultCommand, ProgramError>,
    rent_minimum: Result<u64, ProgramError>,
) -> bool {
    command matches Ok(VaultCommand::CreateAccount { lamports, .. }) ==> accounts.len() >= 2 && (
    accounts[0].is_signer && accounts[1].is_signer ==> (rent_minimum matches Ok(m) ==> m
        + lamports <= u64::MAX))
}

/// The vault program: checks the program id, decodes the instruction and
/// hands it to its handler, which finds the derived address it needs.
///
/// `rent_minimum` is the runtime's rent-exempt balance for the requested
/// size, looked at only by the account-creating instructions. Answers the
/// decision (`None` where the program stops: no derived address found, or
/// the balance overflows) and the runtime's derived address, where one was
/// asked for and found. Fails as [`parse_instruction`] does; otherwise
/// answers exactly as the instruction's handler does: [`create::outcome`],
/// [`create_pda::deriving_answer`], [`deposit::deriving_answer`] or
/// [`withdraw::deriving_answer`].
pub fn process_instruction(
    program_id: &Pubkey,
    vault_id: &Pubkey,
    accounts: &[AccountMeta],
    data: &[u8],
    rent_minimum: Result<u64, ProgramError>,
) -> (r: (Option<Result<VaultCall, ProgramError>>, Option<(Pubkey, u8)>))
    requires
        *program_id == *vault_id ==> amounts_in_bounds(data@),
        *program_id == *vault_id ==> creation_ready(accounts@, command_of(data@), rent_minimum),
    ensures
        *program_id != *vault_id ==> (r.0 matches Some(Err(ProgramError::IncorrectProgramId)))
            && r.1 is None,
        *program_id == *vault_id ==> match command_of(data@) {
            Err(e) => (r.0 matches Some(Err(e2)) && e2 == e) && r.1 is None,
            Ok(VaultCommand::CreateAccount { lamports, space }) => creation_answers(
                r.0,
                Some(create::outcome(accounts@, lamports, space, *vault_id, rent_minimum)),
            ) && r.1 is None,
            Ok(VaultCommand::CreatePdaAccount { lamports, space }) => creation_answers(
                r.0,
                create_pda::deriving_answer(accounts@, lamports, space, *vault_id, r.1, rent_minimum),
            ),
            Ok(VaultCommand::Deposit { lamports }) => transfer_answers(
                r.0,
                deposit::deriving_answer(accounts@, lamports, r.1),
            ),
            Ok(VaultCommand::Withdraw { lamports }) => transfer_answers(
                r.0,
                withdraw::deriving_answer(accounts@, lamports, r.1),
            ),
        },
{
    let command = match parse_instruction(program_id, vault_id, data) {
        Ok(c) => c,
        Err(e) => return (Some(Err(e)), None),
    };
    match command {
        VaultCommand::CreateAccount { lamports, space } => {
            match create::process(accounts, lamports, space, vault_id, rent_minimum) {
                Ok(inv) => (Some(Ok(VaultCall::CreateAccount(inv))), None),
                Err(e) => (Some(Err(e)), None),
            }
        },
        VaultCommand::CreatePdaAccount { lamports, space } => {
            let (answer, lookup) = create_pda::process_deriving(
                accounts,
                lamports,
                space,
                vault_id,
                rent_minimum,
            );
            let found = match &lookup {
                Some(d) => d.found(),
                None => None,
            };
            match answer {
                None => (None, found),
                Some(Ok(inv)) => (Some(Ok(VaultCall::CreateAccount(inv))), found),
                Some(Err(e)) => (Some(Err(e)), found),
            }
        },
        VaultCommand::Deposit { lamports } => {
            let (answer, lookup) = deposit::process_deriving(accounts, lamports, vault_id);
            let found = match &lookup {
                Some(d) => d.found(),
                None => None,
            };
            match answer {
                None => (None, found),
                Some(Ok(inv)) => (Some(Ok(VaultCall::Transfer(inv))), found),
                Some(Err(e)) => (Some(Err(e)), found),
            }
        },
        VaultCommand::Withdraw { lamports } => {
            let (answer, lookup) = withdraw::process_deriving(accounts, lamports, vault_id);
            let found = match &lookup {
                Some(d) => d.found(),
                None => None,
            };
            match answer {
                None => (None, found),
                Some(Ok(inv)) => (Some(Ok(VaultCall::Transfer(inv))), found),
                Some(Err(e)) => (Some(Err(e)), found),
            }
        },
    }
}

} // verus!
