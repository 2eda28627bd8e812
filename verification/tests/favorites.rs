use solana_experiments::account::{AccountMeta, ProgramError};
use solana_experiments::favorites::{check, process_instruction, set_color_blue, Favorites};

fn hobbies(n: usize) -> Vec<String> {
    (0..n).map(|i| format!("hobby{}", i)).collect()
}

fn account(owner: [u8; 32], is_writable: bool) -> AccountMeta {
    AccountMeta { key: [1; 32], owner, is_signer: false, is_writable }
}

#[test]
fn favorites_layout_matches_borsh() {
    let f = Favorites { number: 7, color: "green".to_string(), hobbies: hobbies(5) };
    let expected = borsh::to_vec(&(7u64, "green".to_string(), hobbies(5))).unwrap();
    assert_eq!(f.to_bytes(), expected);
    let back = Favorites::try_from_slice(&expected).unwrap();
    assert_eq!(back.number, 7);
    assert_eq!(back.color, "green");
    assert_eq!(back.hobbies, hobbies(5));
}

#[test]
fn favorites_sets_color_to_blue() {
    let program_id = [5u8; 32];
    let f = Favorites { number: 3, color: "purple".to_string(), hobbies: hobbies(6) };
    let mut data = f.to_bytes();
    let len = data.len();
    assert_eq!(check(&program_id, &[account([0; 32], true)], &data), Ok(()));
    set_color_blue(&mut data).unwrap();
    assert_eq!(data.len(), len);
    let written = Favorites { number: 3, color: "blue".to_string(), hobbies: hobbies(6) }.to_bytes();
    assert_eq!(&data[..written.len()], &written[..]);
    assert_eq!(&data[written.len()..], &f.to_bytes()[written.len()..]);
}

#[test]
fn favorites_short_color_does_not_fit() {
    let program_id = [5u8; 32];
    let f = Favorites { number: 3, color: "red".to_string(), hobbies: hobbies(5) };
    let mut data = f.to_bytes();
    assert_eq!(check(&program_id, &[account([0; 32], true)], &data), Ok(()));
    assert_eq!(set_color_blue(&mut data), Err(ProgramError::Custom(1)));
}

#[test]
fn favorites_checks() {
    let program_id = [5u8; 32];
    let good = Favorites { number: 1, color: "yellow".to_string(), hobbies: hobbies(5) }.to_bytes();
    let mut data = good.clone();
    assert_eq!(
        process_instruction(&program_id, &[account([0; 32], false)], &mut data),
        Err(ProgramError::InvalidAccountData)
    );
    assert_eq!(
        process_instruction(&program_id, &[account(program_id, true)], &mut data),
        Err(ProgramError::IncorrectProgramId)
    );
    let mut garbage = vec![1u8, 2, 3];
    assert_eq!(
        process_instruction(&program_id, &[account([0; 32], true)], &mut garbage),
        Err(ProgramError::Custom(1))
    );
    let mut few = Favorites { number: 1, color: "yellow".to_string(), hobbies: hobbies(4) }.to_bytes();
    assert_eq!(
        process_instruction(&program_id, &[account([0; 32], true)], &mut few),
        Err(ProgramError::Custom(2))
    );
    let mut many = Favorites { number: 1, color: "yellow".to_string(), hobbies: hobbies(51) }.to_bytes();
    assert_eq!(
        process_instruction(&program_id, &[account([0; 32], true)], &mut many),
        Err(ProgramError::Custom(2))
    );
    let mut long = Favorites { number: 1, color: "x".repeat(51), hobbies: hobbies(5) }.to_bytes();
    assert_eq!(
        process_instruction(&program_id, &[account([0; 32], true)], &mut long),
        Err(ProgramError::Custom(2))
    );
    assert_eq!(data, good);
}

#[test]
fn four_byte_color_reads_back_blue() {
    let program_id = [5u8; 32];
    let mut data = Favorites { number: 8, color: "pink".to_string(), hobbies: hobbies(7) }.to_bytes();
    assert_eq!(check(&program_id, &[account([0; 32], true)], &data), Ok(()));
    set_color_blue(&mut data).unwrap();
    let back = Favorites::try_from_slice(&data).unwrap();
    assert_eq!((back.number, back.color.as_str(), back.hobbies), (8, "blue", hobbies(7)));
}

#[test]
fn longer_color_leaves_trailing_bytes() {
    let program_id = [5u8; 32];
    let mut data = Favorites { number: 8, color: "orange".to_string(), hobbies: hobbies(7) }.to_bytes();
    assert_eq!(check(&program_id, &[account([0; 32], true)], &data), Ok(()));
    set_color_blue(&mut data).unwrap();
    assert!(Favorites::try_from_slice(&data).is_none());
}
