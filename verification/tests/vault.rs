use solana_experiments::account::{AccountMeta, ProgramError};
use solana_experiments::vault::{
    create, create_pda, deposit, parse_instruction, process_instruction, withdraw, VaultCall,
    VaultCommand, VaultInstructions,
};

fn vault_id() -> [u8; 32] {
    pinocchio_pubkey::from_str("BTY4sjSUzhi2iTtM7Va3DgM5NRuF9nox17up5Fcih8SG")
}

fn meta(key: [u8; 32], is_signer: bool) -> AccountMeta {
    AccountMeta { key, owner: [0; 32], is_signer, is_writable: true }
}

fn rent_minimum(space: u64) -> u64 {
    solana_program::rent::Rent::default().minimum_balance(space as usize)
}

fn find(seed: &[u8], owner: &[u8; 32], program: &[u8; 32]) -> ([u8; 32], u8) {
    let (pda, bump) = solana_program::pubkey::Pubkey::find_program_address(
        &[seed, owner.as_ref()],
        &solana_program::pubkey::Pubkey::new_from_array(*program),
    );
    (pda.to_bytes(), bump)
}

#[test]
fn create_account_test() {
    let program_id = vault_id();
    let owner_key = [11u8; 32];
    let new_account_key = [12u8; 32];
    let system_program = [0u8; 32];
    let space_required = 512u64;
    let additional_lamports = 10_000u64;
    let discriminator: u8 = VaultInstructions::CreateAccount.into();
    let instr_in_bytes =
        borsh::to_vec(&(discriminator, additional_lamports, space_required)).unwrap();
    let command = parse_instruction(&program_id, &program_id, &instr_in_bytes).unwrap();
    assert_eq!(
        command,
        VaultCommand::CreateAccount { lamports: additional_lamports, space: space_required }
    );
    let accounts =
        [meta(owner_key, true), meta(new_account_key, true), meta(system_program, false)];
    let rent_exempt_min = rent_minimum(space_required);
    let call = create::process(
        &accounts,
        additional_lamports,
        space_required,
        &program_id,
        Ok(rent_exempt_min),
    )
    .unwrap();
    assert_eq!(call.instruction.from, owner_key);
    assert_eq!(call.instruction.to, new_account_key);
    assert_eq!(call.instruction.owner, program_id);
    assert_eq!(call.instruction.space, space_required);
    assert_eq!(call.instruction.lamports, rent_exempt_min + additional_lamports);
    assert!(call.signer_seeds.is_empty());
}

#[test]
fn create_pda_test() {
    let program_id = vault_id();
    let owner = [21u8; 32];
    let seed = create_pda::seed_bytes();
    let (new_account_key, bump) = find(&seed, &owner, &program_id);
    let space_required = 512u64;
    let additional_lamports = 10_000u64;
    let discriminator: u8 = VaultInstructions::CreatePdaAccount.into();
    let instr_in_bytes =
        borsh::to_vec(&(discriminator, additional_lamports, space_required)).unwrap();
    let command = parse_instruction(&program_id, &program_id, &instr_in_bytes).unwrap();
    assert_eq!(
        command,
        VaultCommand::CreatePdaAccount { lamports: additional_lamports, space: space_required }
    );
    let accounts = [meta(owner, true), meta(new_account_key, true), meta([0; 32], false)];
    let rent_exempt_min = rent_minimum(space_required);
    let call = create_pda::process(
        &accounts,
        additional_lamports,
        space_required,
        &program_id,
        Some((new_account_key, bump)),
        Ok(rent_exempt_min),
    )
    .unwrap();
    assert_eq!(call.instruction.lamports, rent_exempt_min + additional_lamports);
    assert_eq!(call.signer_seeds, vec![seed.clone(), owner.to_vec(), vec![bump]]);
}

#[test]
fn vault_seeds_are_the_texts() {
    assert_eq!(create_pda::seed_bytes(), b"create_pda_seed".to_vec());
    assert_eq!(deposit::seed_bytes(), b"deposit_seed".to_vec());
    assert_eq!(withdraw::seed_bytes(), b"withdraw_seed".to_vec());
}

#[test]
fn vault_parse_errors() {
    let id = vault_id();
    let other = [1u8; 32];
    assert_eq!(parse_instruction(&other, &id, &[]), Err(ProgramError::IncorrectProgramId));
    assert_eq!(parse_instruction(&id, &id, &[]), Err(ProgramError::InvalidInstructionData));
    let mut data = vec![4u8];
    data.extend_from_slice(&5u64.to_le_bytes());
    assert_eq!(parse_instruction(&id, &id, &data), Err(ProgramError::InvalidInstructionData));
    data[0] = 2;
    assert_eq!(parse_instruction(&id, &id, &data), Ok(VaultCommand::Deposit { lamports: 5 }));
    data[0] = 3;
    assert_eq!(parse_instruction(&id, &id, &data), Ok(VaultCommand::Withdraw { lamports: 5 }));
}

#[test]
fn vault_discriminators() {
    for d in 0u8..=255 {
        match VaultInstructions::try_from(&d) {
            Ok(i) => assert_eq!(i.discriminator(), d),
            Err(e) => {
                assert!(d > 3);
                assert_eq!(e, ProgramError::InvalidInstructionData);
            }
        }
    }
}

#[test]
fn create_checks_signatures_and_rent() {
    let id = vault_id();
    let accounts = [meta([1; 32], true), meta([2; 32], false)];
    assert_eq!(
        create::process(&accounts, 1, 0, &id, Ok(0)).map(|_| ()),
        Err(ProgramError::MissingRequiredSignature)
    );
    let accounts = [meta([1; 32], true), meta([2; 32], true)];
    assert_eq!(
        create::process(&accounts, 1, 0, &id, Err(ProgramError::UnsupportedSysvar)).map(|_| ()),
        Err(ProgramError::UnsupportedSysvar)
    );
}

#[test]
fn create_pda_checks() {
    let id = vault_id();
    let owner = [1u8; 32];
    let two = [meta(owner, true), meta([2; 32], true)];
    assert_eq!(
        create_pda::process(&two, 1, 0, &id, None, Ok(0)).map(|_| ()),
        Err(ProgramError::InvalidAccountData)
    );
    let three = [meta(owner, true), meta([2; 32], true), meta([0; 32], false)];
    assert_eq!(
        create_pda::process(&three, 1, 0, &id, Some(([3; 32], 255)), Ok(0)).map(|_| ()),
        Err(ProgramError::InvalidAccountOwner)
    );
    let unsigned = [meta(owner, false), meta([2; 32], true), meta([0; 32], false)];
    assert_eq!(
        create_pda::process(&unsigned, 1, 0, &id, Some(([2; 32], 255)), Ok(0)).map(|_| ()),
        Err(ProgramError::MissingRequiredSignature)
    );
}

#[test]
fn deposit_and_withdraw() {
    let id = vault_id();
    let owner = [31u8; 32];
    let (deposit_vault, deposit_bump) = find(&deposit::seed_bytes(), &owner, &id);
    let accounts = [meta(owner, true), meta(deposit_vault, false), meta([0; 32], false)];
    let call = deposit::process(&accounts, 500, Some((deposit_vault, deposit_bump))).unwrap();
    assert_eq!(call.instruction.from, owner);
    assert_eq!(call.instruction.to, deposit_vault);
    assert_eq!(call.instruction.lamports, 500);
    assert!(call.signer_seeds.is_empty());

    let (withdraw_vault, withdraw_bump) = find(&withdraw::seed_bytes(), &owner, &id);
    assert_ne!(withdraw_vault, deposit_vault);
    let accounts = [meta(withdraw_vault, false), meta(owner, true), meta([0; 32], false)];
    let call = withdraw::process(&accounts, 400, Some((withdraw_vault, withdraw_bump))).unwrap();
    assert_eq!(call.instruction.from, withdraw_vault);
    assert_eq!(call.instruction.to, owner);
    assert_eq!(call.instruction.lamports, 400);
    assert_eq!(
        call.signer_seeds,
        vec![withdraw::seed_bytes(), owner.to_vec(), vec![withdraw_bump]]
    );
}

#[test]
fn withdraw_checks() {
    let owner = [31u8; 32];
    let vault = [32u8; 32];
    let d = Some((vault, 254));
    let signing_vault = [meta(vault, true), meta(owner, true), meta([0; 32], false)];
    assert_eq!(
        withdraw::process(&signing_vault, 1, d).map(|_| ()),
        Err(ProgramError::Custom(28))
    );
    let unsigned = [meta(vault, false), meta(owner, false), meta([0; 32], false)];
    assert_eq!(
        withdraw::process(&unsigned, 1, d).map(|_| ()),
        Err(ProgramError::MissingRequiredSignature)
    );
    let wrong = [meta(vault, false), meta(owner, true), meta([0; 32], false)];
    assert_eq!(
        withdraw::process(&wrong, 1, Some(([33; 32], 1))).map(|_| ()),
        Err(ProgramError::InvalidAccountOwner)
    );
    assert_eq!(
        withdraw::process(&wrong[..2], 1, None).map(|_| ()),
        Err(ProgramError::InvalidAccountData)
    );
    let deposit_accounts = [meta(owner, true), meta(vault, false), meta([0; 32], false)];
    assert_eq!(
        deposit::process(&deposit_accounts, 1, Some(([33; 32], 1))).map(|_| ()),
        Err(ProgramError::InvalidAccountOwner)
    );
}

fn instruction(discriminator: u8, lamports: u64, space: Option<u64>) -> Vec<u8> {
    let mut data = vec![discriminator];
    data.extend_from_slice(&lamports.to_le_bytes());
    if let Some(space) = space {
        data.extend_from_slice(&space.to_le_bytes());
    }
    data
}

#[test]
fn process_instruction_dispatches() {
    let id = vault_id();
    let owner = [41u8; 32];
    let system = meta([0; 32], false);

    let new_account = [42u8; 32];
    let accounts = [meta(owner, true), meta(new_account, true), system];
    let data = instruction(0, 7, Some(64));
    let (answer, found) = process_instruction(&id, &id, &accounts, &data, Ok(1000));
    assert_eq!(found, None);
    match answer.unwrap().unwrap() {
        VaultCall::CreateAccount(call) => {
            assert_eq!(call.instruction.from, owner);
            assert_eq!(call.instruction.to, new_account);
            assert_eq!(call.instruction.lamports, 1007);
            assert_eq!(call.instruction.space, 64);
            assert_eq!(call.instruction.owner, id);
            assert!(call.signer_seeds.is_empty());
        }
        other => panic!("unexpected {:?}", other),
    }

    // Off the Solana runtime no derived address is ever found: with three
    // accounts the derived-address instructions stop.
    let mut data = instruction(1, 5, Some(10));
    data.extend_from_slice(&[9, 9, 9]);
    let (answer, found) = process_instruction(&id, &id, &accounts, &data, Ok(20));
    assert!(answer.is_none() && found.is_none());
    let (answer, found) = process_instruction(&id, &id, &accounts, &instruction(2, 300, None), Ok(0));
    assert!(answer.is_none() && found.is_none());
    let (answer, found) = process_instruction(&id, &id, &accounts, &instruction(3, 200, None), Ok(0));
    assert!(answer.is_none() && found.is_none());

    // With other than three accounts no address is asked for.
    let two = [meta(owner, true), meta(new_account, true)];
    for d in [1u8, 2, 3] {
        let data = instruction(d, 1, if d == 1 { Some(1) } else { None });
        let (answer, found) = process_instruction(&id, &id, &two, &data, Ok(0));
        assert_eq!(answer.unwrap().map(|_| ()), Err(ProgramError::InvalidAccountData));
        assert_eq!(found, None);
    }

    let err = |r: (Option<Result<VaultCall, ProgramError>>, Option<([u8; 32], u8)>)| {
        r.0.unwrap().map(|_| ()).unwrap_err()
    };
    assert_eq!(err(process_instruction(&[1; 32], &id, &accounts, &[], Ok(0))), ProgramError::IncorrectProgramId);
    assert_eq!(err(process_instruction(&id, &id, &accounts, &[], Ok(0))), ProgramError::InvalidInstructionData);
    assert_eq!(
        err(process_instruction(&id, &id, &accounts, &instruction(4, 1, None), Ok(0))),
        ProgramError::InvalidInstructionData
    );
    let unsigned = [meta(owner, false), meta(new_account, true), system];
    assert_eq!(
        err(process_instruction(&id, &id, &unsigned, &instruction(0, 1, Some(1)), Ok(0))),
        ProgramError::MissingRequiredSignature
    );
}

#[test]
fn handlers_with_their_own_lookup() {
    let id = vault_id();
    let two = [meta([1; 32], true), meta([2; 32], true)];
    let three = [meta([1; 32], true), meta([2; 32], true), meta([0; 32], false)];
    let (answer, found) = create_pda::process_deriving(&two, 1, 1, &id, Ok(0));
    assert_eq!((answer.unwrap().map(|_| ()), found), (Err(ProgramError::InvalidAccountData), None));
    let (answer, found) = deposit::process_deriving(&two, 1, &id);
    assert_eq!((answer.unwrap().map(|_| ()), found), (Err(ProgramError::InvalidAccountData), None));
    let (answer, found) = withdraw::process_deriving(&two, 1, &id);
    assert_eq!((answer.unwrap().map(|_| ()), found), (Err(ProgramError::InvalidAccountData), None));
    assert!(create_pda::process_deriving(&three, 1, 1, &id, Ok(0)).0.is_none());
    assert!(deposit::process_deriving(&three, 1, &id).0.is_none());
    assert!(withdraw::process_deriving(&three, 1, &id).0.is_none());
}
