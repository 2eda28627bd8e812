use solana_experiments::account::{AccountMeta, ProgramError};
use solana_experiments::voting::accounts::{CandidateAccount, PollAccount};
use solana_experiments::voting::error::ErrorCode;
use solana_experiments::voting::ixs::vote::{cast_to_i64, check_time_bounds};
use solana_experiments::voting::ixs::{initialize_candidate, vote, VotingInstruction};
use solana_experiments::voting::{process_initialize_candidate, process_instruction, process_vote};

fn meta(key: u8, is_signer: bool, is_writable: bool) -> AccountMeta {
    AccountMeta { key: [key; 32], owner: [0; 32], is_signer, is_writable }
}

fn poll(start: u64, end: u64, index: u64) -> PollAccount {
    PollAccount {
        poll_id: 42,
        poll_name: PollAccount::checked_name("Who's a good boy"),
        poll_description: PollAccount::checked_desc("Poll to determine who's a good boy"),
        poll_voting_start: start,
        poll_voting_end: end,
        poll_option_index: index,
    }
}

#[test]
fn test_initialize_poll() {
    let poll_account_pubkey = [8u8; 32];
    let current_time: u64 = 0;
    let initialize_poll_ix = VotingInstruction::InitializePoll {
        poll_id: 42,
        name: PollAccount::checked_name("Who's a good boy"),
        description: PollAccount::checked_desc("Poll to determine who's a good boy"),
        start_time: current_time,
        end_time: current_time + 10_000u64,
    };
    let instr_data = initialize_poll_ix.to_bytes();
    let accounts = [AccountMeta {
        key: poll_account_pubkey,
        owner: [0; 32],
        is_signer: false,
        is_writable: true,
    }];
    let mut poll_data = PollAccount::default().to_bytes();
    let mut none: Vec<u8> = Vec::new();
    let result = process_instruction(&accounts, &instr_data, &mut poll_data, &mut none, Ok(0));
    assert_eq!(result, Ok(()));
    assert_eq!(poll_account_pubkey, accounts[0].key);
    let new_poll_account = PollAccount::try_from_slice(&poll_data).unwrap();
    assert_eq!(new_poll_account.poll_option_index, 0);
    assert_eq!(new_poll_account.poll_id, 42);
    assert_eq!(new_poll_account.poll_voting_end, 10_000);
}

#[test]
fn checked_names_pad_and_cut() {
    assert_eq!(CandidateAccount::checked_name("A good boy"), "A good boy\0\0\0\0\0\0");
    assert_eq!(CandidateAccount::checked_name(&"x".repeat(40)), "x".repeat(16));
    assert_eq!(CandidateAccount::MAX_NAME_LENGTH, 16);
    assert_eq!(CandidateAccount::pad_string_null("abc".to_string(), 5), "abc\0\0");
    assert_eq!(CandidateAccount::pad_string_null("abcdef".to_string(), 2), "ab");
    assert_eq!(PollAccount::checked_name("Who's a good boy").len(), 50);
    assert_eq!(PollAccount::checked_desc("Poll").len(), 280);
    let once = CandidateAccount::checked_name("Rex");
    assert_eq!(CandidateAccount::checked_name(&once), once);
    let c = CandidateAccount::new("Rex".to_string());
    assert_eq!(c.candidate_name, once);
    assert_eq!(c.candidate_votes, 0);
}

#[test]
fn defaults() {
    let c = CandidateAccount::default();
    assert_eq!(c.candidate_name, "n".repeat(16));
    assert_eq!(c.candidate_votes, 0);
    let p = PollAccount::default();
    assert_eq!(p.poll_name, "a".repeat(50));
    assert_eq!(p.poll_description, "\0".repeat(280));
    assert_eq!((p.poll_id, p.poll_voting_start, p.poll_voting_end, p.poll_option_index), (0, 0, 0, 0));
}

#[test]
fn layouts_match_borsh() {
    let c = CandidateAccount { candidate_name: "Rex".to_string(), candidate_votes: 3 };
    assert_eq!(c.to_bytes(), borsh::to_vec(&("Rex".to_string(), 3u64)).unwrap());
    let p = poll(1, 2, 3);
    let expected = borsh::to_vec(&(
        42u64,
        p.poll_name.clone(),
        p.poll_description.clone(),
        1u64,
        2u64,
        3u64,
    ))
    .unwrap();
    assert_eq!(p.to_bytes(), expected);
    let i = VotingInstruction::Vote { poll_id: 9, candidate: "Rex".to_string() };
    assert_eq!(i.to_bytes(), borsh::to_vec(&(2u8, 9u64, "Rex".to_string())).unwrap());
    let i = VotingInstruction::InitializeCandidate { poll_id: 9, candidate: "Rex".to_string() };
    assert_eq!(i.to_bytes(), borsh::to_vec(&(1u8, 9u64, "Rex".to_string())).unwrap());
    let i = VotingInstruction::InitializePoll {
        poll_id: 1,
        name: "n".to_string(),
        description: "d".to_string(),
        start_time: 5,
        end_time: 6,
    };
    let expected =
        borsh::to_vec(&(0u8, 1u64, "n".to_string(), "d".to_string(), 5u64, 6u64)).unwrap();
    assert_eq!(i.to_bytes(), expected);
    assert!(VotingInstruction::try_from_slice(&expected).is_some());
    assert!(VotingInstruction::try_from_slice(&[3u8]).is_none());
}

#[test]
fn initialize_poll_limits() {
    let accounts = [meta(1, false, true)];
    let mut data = PollAccount::default().to_bytes();
    let before = data.clone();
    let mut none: Vec<u8> = Vec::new();
    let long_name = VotingInstruction::InitializePoll {
        poll_id: 1,
        name: "n".repeat(51),
        description: String::new(),
        start_time: 0,
        end_time: 1,
    };
    assert_eq!(
        process_instruction(&accounts, &long_name.to_bytes(), &mut data, &mut none, Ok(0)),
        Err(ProgramError::Custom(ErrorCode::NameTooLong.into()))
    );
    let long_desc = VotingInstruction::InitializePoll {
        poll_id: 1,
        name: String::new(),
        description: "d".repeat(281),
        start_time: 0,
        end_time: 1,
    };
    assert_eq!(
        process_instruction(&accounts, &long_desc.to_bytes(), &mut data, &mut none, Ok(0)),
        Err(ProgramError::Custom(3))
    );
    assert_eq!(data, before);
    let mut small = vec![0u8; 10];
    let ok_poll = VotingInstruction::InitializePoll {
        poll_id: 1,
        name: "n".to_string(),
        description: "d".to_string(),
        start_time: 0,
        end_time: 1,
    };
    assert_eq!(
        process_instruction(&accounts, &ok_poll.to_bytes(), &mut small, &mut none, Ok(0)),
        Err(ProgramError::InvalidAccountData)
    );
    assert_eq!(
        process_instruction(&accounts, &[9u8, 1, 2], &mut small, &mut none, Ok(0)),
        Err(ProgramError::InvalidInstructionData)
    );
}

#[test]
fn test_initialize_candidate() {
    let poll_account_pubkey = [8u8; 32];
    let cand_account_pubkey = [9u8; 32];
    let initialize_cand_ix = VotingInstruction::InitializeCandidate {
        poll_id: 42,
        candidate: CandidateAccount::checked_name("A good boy"),
    };
    let instr_data = initialize_cand_ix.to_bytes();
    let accounts = [
        AccountMeta { key: cand_account_pubkey, owner: [0; 32], is_signer: false, is_writable: true },
        AccountMeta { key: poll_account_pubkey, owner: [0; 32], is_signer: false, is_writable: true },
    ];
    let mut cand_data = CandidateAccount::default().to_bytes();
    let mut poll_data = PollAccount::default().to_bytes();
    let result = process_instruction(&accounts, &instr_data, &mut cand_data, &mut poll_data, Ok(0));
    assert_eq!(result, Ok(()));
    let new_cand_account = CandidateAccount::try_from_slice(&cand_data).unwrap();
    let new_poll_account = PollAccount::try_from_slice(&poll_data).unwrap();
    assert_eq!(new_cand_account.candidate_name, "A good boy\0\0\0\0\0\0");
    assert_eq!(new_poll_account.poll_option_index, 1);
}

#[test]
fn register_candidate_counts_it() {
    let accounts = [meta(1, false, true), meta(2, false, true)];
    let mut poll_data = poll(0, 100, 4).to_bytes();
    let mut cand_data = CandidateAccount::default().to_bytes();
    process_initialize_candidate(&accounts, &mut cand_data, &mut poll_data, 42, "A good boy".to_string())
        .unwrap();
    assert_eq!(PollAccount::try_from_slice(&poll_data).unwrap().poll_option_index, 5);
    let written = CandidateAccount { candidate_name: "A good boy".to_string(), candidate_votes: 0 }
        .to_bytes();
    assert_eq!(&cand_data[..written.len()], &written[..]);

    let mut poll_data = poll(0, 100, 0).to_bytes();
    let mut cand_data = CandidateAccount::default().to_bytes();
    initialize_candidate(&accounts, &mut poll_data, &mut cand_data, 42, CandidateAccount::checked_name("A good boy"))
        .unwrap();
    assert_eq!(PollAccount::try_from_slice(&poll_data).unwrap().poll_option_index, 1);
    let cand = CandidateAccount::try_from_slice(&cand_data).unwrap();
    assert_eq!(cand.candidate_name, CandidateAccount::checked_name("A good boy"));
}

#[test]
fn checked_names_pass_the_length_checks() {
    let accounts = [meta(1, false, true), meta(2, false, true)];
    for raw in ["", "Rex", "A good boy", "exactly sixteen!", "a name far longer than sixteen bytes"] {
        let name = CandidateAccount::checked_name(raw);
        let mut poll_data = poll(0, 100, 0).to_bytes();
        let mut cand_data = CandidateAccount::default().to_bytes();
        assert_eq!(initialize_candidate(&accounts, &mut poll_data, &mut cand_data, 0, name.clone()), Ok(()));
        let mut poll_data = poll(0, 100, 0).to_bytes();
        let mut cand_data = CandidateAccount::default().to_bytes();
        assert_eq!(process_initialize_candidate(&accounts, &mut cand_data, &mut poll_data, 0, name), Ok(()));
    }
    let mut poll_data = poll(0, 100, 0).to_bytes();
    let mut cand_data = CandidateAccount::default().to_bytes();
    let before = (poll_data.clone(), cand_data.clone());
    assert_eq!(
        initialize_candidate(&accounts, &mut poll_data, &mut cand_data, 0, "x".repeat(17)),
        Err(ProgramError::Custom(2))
    );
    assert_eq!((poll_data, cand_data), before);
}

#[test]
fn register_candidate_checks() {
    let mut poll_data = poll(0, 100, 0).to_bytes();
    let mut cand_data = CandidateAccount::default().to_bytes();
    let name = || "Rex".to_string();
    let cases = [
        ([meta(1, false, true), meta(2, false, false)], ProgramError::InvalidAccountData),
        ([meta(1, false, false), meta(2, false, true)], ProgramError::IncorrectAuthority),
        ([meta(1, false, false), meta(2, false, false)], ProgramError::InvalidAccountData),
        ([meta(1, true, true), meta(1, true, true)], ProgramError::InvalidAccountData),
    ];
    for (accounts, err) in cases.iter() {
        let mut p = poll_data.clone();
        let mut c = cand_data.clone();
        assert_eq!(process_initialize_candidate(accounts, &mut c, &mut p, 0, name()), Err(*err));
        assert_eq!(p, poll_data);
    }
    let accounts = [meta(1, false, true), meta(2, false, true)];
    assert_eq!(
        process_initialize_candidate(&accounts, &mut cand_data, &mut poll_data, 0, "x".repeat(33)),
        Err(ProgramError::Custom(2))
    );
    let mut tiny = vec![0u8; 4];
    assert_eq!(
        process_initialize_candidate(&accounts, &mut tiny, &mut poll_data, 0, name()),
        Err(ProgramError::InvalidAccountData)
    );
    let mut garbage = vec![0u8; 3];
    assert_eq!(
        process_initialize_candidate(&accounts, &mut cand_data, &mut garbage, 0, name()),
        Err(ProgramError::InvalidAccountData)
    );
    let signing = [meta(1, true, true), meta(2, true, true)];
    assert_eq!(process_initialize_candidate(&signing, &mut cand_data, &mut poll_data, 0, name()), Ok(()));
    assert_eq!(PollAccount::try_from_slice(&poll_data).unwrap().poll_option_index, 1);
}

#[test]
fn vote_inside_and_outside_window() {
    let accounts = [meta(1, false, false), meta(2, true, true)];
    let poll_data = poll(100, 200, 1).to_bytes();
    let cand = CandidateAccount { candidate_name: CandidateAccount::checked_name("Rex"), candidate_votes: 7 };
    let mut cand_data = cand.to_bytes();
    process_vote(&accounts, &poll_data, &mut cand_data, 42, "Rex".to_string(), Ok(150)).unwrap();
    assert_eq!(CandidateAccount::try_from_slice(&cand_data).unwrap().candidate_votes, 8);
    process_vote(&accounts, &poll_data, &mut cand_data, 42, "Rex".to_string(), Ok(200)).unwrap();
    assert_eq!(CandidateAccount::try_from_slice(&cand_data).unwrap().candidate_votes, 9);
    assert_eq!(
        process_vote(&accounts, &poll_data, &mut cand_data, 42, String::new(), Ok(201)),
        Err(ProgramError::Custom(1))
    );
    assert_eq!(
        process_vote(&accounts, &poll_data, &mut cand_data, 42, String::new(), Ok(100)),
        Err(ProgramError::Custom(0))
    );
    assert_eq!(
        process_vote(&accounts, &poll_data, &mut cand_data, 42, String::new(), Err(ProgramError::UnsupportedSysvar)),
        Err(ProgramError::UnsupportedSysvar)
    );
    assert_eq!(
        process_vote(&accounts, &[1, 2, 3], &mut cand_data, 42, String::new(), Ok(150)),
        Err(ProgramError::InvalidAccountData)
    );
    let same = [meta(2, true, true), meta(2, true, true)];
    assert_eq!(
        process_vote(&same, &poll_data, &mut cand_data, 42, String::new(), Ok(150)),
        Err(ProgramError::InvalidAccountData)
    );
    assert_eq!(CandidateAccount::try_from_slice(&cand_data).unwrap().candidate_votes, 9);
}

#[test]
fn vote_ignores_unreadable_poll() {
    let accounts = [meta(1, false, false), meta(2, true, true)];
    let mut cand_data = CandidateAccount { candidate_name: "Rex".to_string(), candidate_votes: 0 }.to_bytes();
    vote(&accounts, &[0u8; 3], &mut cand_data, 0, String::new(), Err(ProgramError::UnsupportedSysvar)).unwrap();
    assert_eq!(CandidateAccount::try_from_slice(&cand_data).unwrap().candidate_votes, 1);
    let poll_data = poll(10, 20, 0).to_bytes();
    assert_eq!(
        vote(&accounts, &poll_data, &mut cand_data, 0, String::new(), Ok(5)),
        Err(ProgramError::Custom(0))
    );
    let mut bad = vec![0u8; 2];
    assert_eq!(
        vote(&accounts, &poll_data, &mut bad, 0, String::new(), Ok(15)),
        Err(ProgramError::InvalidAccountData)
    );
}

#[test]
fn vote_through_instruction() {
    let accounts = [meta(1, false, false), meta(2, true, true)];
    let mut poll_data = poll(0, 50, 1).to_bytes();
    let mut cand_data = CandidateAccount { candidate_name: "Rex".to_string(), candidate_votes: 0 }.to_bytes();
    let ix = VotingInstruction::Vote { poll_id: 42, candidate: "Rex".to_string() }.to_bytes();
    process_instruction(&accounts, &ix, &mut poll_data, &mut cand_data, Ok(1)).unwrap();
    assert_eq!(CandidateAccount::try_from_slice(&cand_data).unwrap().candidate_votes, 1);
}

#[test]
fn time_casts_and_error_numbers() {
    assert_eq!(cast_to_i64(5), 5);
    assert_eq!(cast_to_i64(u64::MAX), -1);
    assert_eq!(cast_to_i64(1u64 << 63), i64::MIN);
    let far = poll(0, u64::MAX, 0);
    assert_eq!(check_time_bounds(far, Ok(1)), Err(ProgramError::Custom(1)));
    assert_eq!(u32::from(ErrorCode::VotingNotStarted), 0);
    assert_eq!(u32::from(ErrorCode::VotingEnded), 1);
    assert_eq!(u32::from(ErrorCode::NameTooLong), 2);
    assert_eq!(u32::from(ErrorCode::DescriptionTooLong), 3);
}

#[test]
fn initialize_poll_then_register_one_candidate() {
    let poll_meta = meta(2, false, true);
    let cand_meta = meta(1, false, true);
    let mut poll_data = PollAccount::default().to_bytes();
    let mut cand_data = CandidateAccount::default().to_bytes();
    let mut none: Vec<u8> = Vec::new();
    let init = VotingInstruction::InitializePoll {
        poll_id: 42,
        name: PollAccount::checked_name("Who's a good boy"),
        description: PollAccount::checked_desc("Poll to determine who's a good boy"),
        start_time: 0,
        end_time: 10,
    };
    process_instruction(&[poll_meta], &init.to_bytes(), &mut poll_data, &mut none, Ok(0)).unwrap();
    let register = VotingInstruction::InitializeCandidate {
        poll_id: 42,
        candidate: CandidateAccount::checked_name("A good boy"),
    };
    process_instruction(&[cand_meta, poll_meta], &register.to_bytes(), &mut cand_data, &mut poll_data, Ok(0))
        .unwrap();
    let poll = PollAccount::try_from_slice(&poll_data).unwrap();
    assert_eq!(poll.poll_option_index, 1);
    assert_eq!(poll.poll_voting_end, 10);
    let cand = CandidateAccount::try_from_slice(&cand_data).unwrap();
    assert_eq!(cand.candidate_name, CandidateAccount::checked_name("A good boy"));
    assert_eq!(cand.candidate_votes, 0);
}
