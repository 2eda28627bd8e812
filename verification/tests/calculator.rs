use solana_experiments::account::{AccountMeta, ProgramError};
use solana_experiments::calculator::{process_instruction, Calculator, CalculatorInstructions};

fn account(owner: [u8; 32]) -> AccountMeta {
    AccountMeta { key: [9; 32], owner, is_signer: false, is_writable: true }
}

#[test]
fn calculator_test_addition_instruction() {
    let program_id = [3u8; 32];
    let calculator = Calculator { value: 10 };
    let mut calc_data = calculator.to_bytes();
    let instr = CalculatorInstructions { operation: 1, operating_value: 5 };
    let instr_data = instr.to_bytes();
    process_instruction(&program_id, &[account(program_id)], &mut calc_data, &instr_data).unwrap();
    let updated_counter = Calculator::try_from_slice(&calc_data).unwrap();
    assert_eq!(updated_counter.value, 15);
}

#[test]
fn calculator_operations() {
    let i = |operation, operating_value| CalculatorInstructions { operation, operating_value };
    assert_eq!(i(1, 5).evaluate(10), 15);
    assert_eq!(i(2, 4).evaluate(10), 6);
    assert_eq!(i(3, 4).evaluate(10), 40);
    assert_eq!(i(9, 4).evaluate(10), 0);
}

#[test]
fn calculator_errors() {
    let program_id = [3u8; 32];
    let mut data = Calculator { value: 1 }.to_bytes();
    let instr = CalculatorInstructions { operation: 1, operating_value: 1 }.to_bytes();
    assert_eq!(
        process_instruction(&program_id, &[account([4; 32])], &mut data, &instr),
        Err(ProgramError::IncorrectProgramId)
    );
    assert_eq!(
        process_instruction(&program_id, &[account(program_id)], &mut data, &instr[..7]),
        Err(ProgramError::BorshIoError)
    );
    let mut bad = vec![0u8; 3];
    assert_eq!(
        process_instruction(&program_id, &[account(program_id)], &mut bad, &instr),
        Err(ProgramError::BorshIoError)
    );
    assert_eq!(Calculator::try_from_slice(&data).unwrap().value, 1);
}

#[test]
fn calculator_layout_matches_borsh() {
    let c = Calculator { value: 77 };
    assert_eq!(c.to_bytes(), borsh::to_vec(&77u32).unwrap());
    let i = CalculatorInstructions { operation: 2, operating_value: 300 };
    assert_eq!(i.to_bytes(), borsh::to_vec(&(2u32, 300u32)).unwrap());
    assert_eq!(CalculatorInstructions::try_from_slice(&i.to_bytes()), Some(i));
}

#[test]
fn subtract_undoes_add() {
    let add = CalculatorInstructions { operation: 1, operating_value: 123 };
    let sub = CalculatorInstructions { operation: 2, operating_value: 123 };
    assert_eq!(sub.evaluate(add.evaluate(1000)), 1000);
}
