use solana_experiments::account::{AccountMeta, ProgramError};
use solana_experiments::anchor_counter;
use solana_experiments::counter::Counter;
use solana_experiments::counter_mollusk;
use solana_experiments::pinocchio_counter;

fn writable(key: u8, owner: [u8; 32]) -> AccountMeta {
    AccountMeta { key: [key; 32], owner, is_signer: false, is_writable: true }
}

#[test]
fn counter_test_addition_instruction() {
    let program_id = [7u8; 32];
    let count = 10;
    let instruction_off = Counter { count };
    let mut data = borsh::to_vec(&instruction_off.count).unwrap();
    let accounts = vec![writable(1, program_id)];
    counter_mollusk::process_instruction(&accounts, &mut data).unwrap();
    let updated_counter = Counter::try_from_slice(&data).unwrap();
    assert_eq!(updated_counter.count, count + 1);
}

#[test]
fn counter_test_counter_increment() {
    // The anchor counter: initialize, then increment once.
    let mut counter = Counter { count: 41 };
    anchor_counter::initialize(&mut counter).unwrap();
    assert_eq!(counter.count, 0);
    anchor_counter::increment(&mut counter).unwrap();
    assert_eq!(counter.count, 1);

    // A counter account holding 10, incremented once by the program.
    let program_id = [7u8; 32];
    let count = 10;
    let instruction_off = Counter { count };
    let mut data = instruction_off.to_bytes();
    let accounts = vec![writable(3, program_id)];
    counter_mollusk::process_instruction(&accounts, &mut data).unwrap();
    let updated_counter = Counter::try_from_slice(&data).unwrap();
    assert_eq!(updated_counter.count, 11);
}

#[test]
fn counter_layout_matches_borsh() {
    let c = Counter { count: 0x0102_0304_0506_0708 };
    assert_eq!(c.to_bytes(), borsh::to_vec(&c.count).unwrap());
    assert_eq!(Counter::try_from_slice(&c.to_bytes()), Some(c));
    assert_eq!(Counter::default().count, 0);
}

#[test]
fn counter_refuses_wrong_length() {
    assert_eq!(Counter::try_from_slice(&[1, 2, 3]), None);
    assert_eq!(Counter::try_from_slice(&[0; 9]), None);
    assert_eq!(Counter::try_from_slice(&[5, 0, 0, 0, 0, 0, 0, 0]), Some(Counter { count: 5 }));
}

#[test]
fn counter_mollusk_errors() {
    let mut data = vec![0u8; 8];
    assert_eq!(
        counter_mollusk::process_instruction(&[], &mut data),
        Err(ProgramError::NotEnoughAccountKeys)
    );
    let read_only = AccountMeta { key: [1; 32], owner: [0; 32], is_signer: false, is_writable: false };
    assert_eq!(
        counter_mollusk::process_instruction(&[read_only], &mut data),
        Err(ProgramError::InvalidAccountData)
    );
    let mut short = vec![0u8; 7];
    assert_eq!(
        counter_mollusk::process_instruction(&[writable(1, [0; 32])], &mut short),
        Err(ProgramError::BorshIoError)
    );
    assert_eq!(short, vec![0u8; 7]);
}

#[test]
fn pinocchio_counter_increments_and_errors() {
    let mut data = Counter { count: 99 }.to_bytes();
    pinocchio_counter::process_instruction(&[writable(1, [0; 32])], &mut data).unwrap();
    assert_eq!(Counter::try_from_slice(&data).unwrap().count, 100);
    let read_only = AccountMeta { key: [1; 32], owner: [0; 32], is_signer: false, is_writable: false };
    assert_eq!(
        pinocchio_counter::process_instruction(&[read_only], &mut data),
        Err(ProgramError::InvalidAccountData)
    );
    let mut long = vec![0u8; 9];
    assert_eq!(
        pinocchio_counter::process_instruction(&[writable(1, [0; 32])], &mut long),
        Err(ProgramError::Custom(1))
    );
}
