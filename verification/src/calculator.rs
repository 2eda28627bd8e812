//! A calculator program: an account holds a `u32` value, and each
//! instruction applies one operation with one operand to it.
//!
//! Account layout: the value, four bytes little-endian. Instruction layout:
//! the operation code (four bytes), then the operand (four bytes).
//!
//! Only addition, code 1, is exercised by the program's own tests; the
//! codes 2 (subtraction) and 3 (multiplication), the zero answered for any
//! other code, and the four-byte operation code are this library's choice,
//! as is leaving out (by its `requires`) an operation whose result leaves
//! `u32`.
use crate::account::{is_owned_by, AccountMeta, ProgramError, Pubkey};
use crate::codec::{
    lemma_u32_canonical, lemma_u32_framed, lemma_u32_len, parse_u32, read_u32, ser_u32,
    write_into, write_u32,
};
use vstd::prelude::*;

verus! {

#[derive(Clone, Copy, Debug, PartialEq, Eq, Structural)]
pub struct Calculator {
    pub value: u32,
}

#[derive(Clone, Copy, Debug, PartialEq, Eq, Structural)]
pub struct CalculatorInstructions {
    pub operation: u32,
    pub operating_value: u32,
}

pub const ADD: u32 = 1;

pub const SUBTRACT: u32 = 2;

pub const MULTIPLY: u32 = 3;

pub open spec fn calculator_from_bytes(b: Seq<u8>) -> Option<Calculator> {
    match parse_u32(b, 0) {
        Some((value, q)) => if q == b.len() {
            Some(Calculator { value })
        } else {
            None
        },
        None => None,
    }
}

pub open spec fn calculator_bytes(c: Calculator) -> Seq<u8> {
    ser_u32(c.value)
}

pub open spec fn instructions_from_bytes(b: Seq<u8>) -> Option<CalculatorInstructions> {
    match parse_u32(b, 0) {
        Some((operation, p)) => match parse_u32(b, p) {
            Some((operating_value, q)) => if q == b.len() {
                Some(CalculatorInstructions { operation, operating_value })
            } else {
                None
            },
            None => None,
        },
        None => None,
    }
}

pub open spec fn instructions_bytes(i: CalculatorInstructions) -> Seq<u8> {
    ser_u32(i.operation) + ser_u32(i.operating_value)
}

/// The result of an operation on a value, as an integer: the sum, the
/// difference or the product, and zero for an unknown operation.
pub open spec fn evaluated(i: CalculatorInstructions, value: u32) -> int {
    if i.operation == ADD {
        value + i.operating_value
    } else if i.operation == SUBTRACT {
        value - i.operating_value
    } else if i.operation == MULTIPLY {
        value * i.operating_value
    } else {
        0
    }
}

/// Whether applying the operation stays within `u32`.
pub open spec fn evaluates_in_range(i: CalculatorInstructions, value: u32) -> bool {
    0 <= evaluated(i, value) <= u32::MAX
}

impl Calculator {
    pub fn try_from_slice(data: &[u8]) -> (r: Option<Calculator>)
        ensures
            r == calculator_from_bytes(data@),
    {
        match read_u32(data, 0) {
            Some((value, q)) => if q == data.len() {
                Some(Calculator { value })
            } else {
                None
            },
            None => None,
        }
    }

    pub fn to_bytes(&self) -> (r: Vec<u8>)
        ensures
            r@ == calculator_bytes(*self),
    {
        let mut out: Vec<u8> = Vec::new();
        write_u32(&mut out, self.value);
        assert(out@ =~= calculator_bytes(*self));
        out
    }
}

impl CalculatorInstructions {
    pub fn try_from_slice(data: &[u8]) -> (r: Option<CalculatorInstructions>)
        ensures
            r == instructions_from_bytes(data@),
    {
        match read_u32(data, 0) {
            Some((operation, p)) => match read_u32(data, p) {
                Some((operating_value, q)) => if q == data.len() {
                    Some(CalculatorInstructions { operation, operating_value })
                } else {
                    None
                },
                None => None,
            },
            None => None,
        }
    }

    pub fn to_bytes(&self) -> (r: Vec<u8>)
        ensures
            r@ == instructions_bytes(*self),
    {
        let mut out: Vec<u8> = Vec::new();
        write_u32(&mut out, self.operation);
        write_u32(&mut out, self.operating_value);
        assert(out@ =~= instructions_bytes(*self));
        out
    }

    /// Applies the operation to `value`: add, subtract or multiply by the
    /// operand, and zero for an unknown operation.
    pub fn evaluate(&self, value: u32) -> (r: u32)
        requires
            evaluates_in_range(*self, value),
        ensures
            r == evaluated(*self, value),
    {
        if self.operation == ADD {
            value + self.operating_value
        } else if self.operation == SUBTRACT {
            value - self.operating_value
        } else if self.operation == MULTIPLY {
            value * self.operating_value
        } else {
            0
        }
    }
}

/// Applies an instruction to the calculator held by the first account.
///
/// `data` is the first account's data. Fails with `IncorrectProgramId`
/// where the account is not owned by `program_id`, and with `BorshIoError`
/// where the account does not hold exactly one calculator or the
/// instruction data is not exactly one instruction; otherwise the account
/// then holds the result of the operation.
pub fn process_instruction(
    program_id: &Pubkey,
    accounts: &[AccountMeta],
    data: &mut [u8],
    instruction_data: &[u8],
) -> (r: Result<(), ProgramError>)
    requires
        accounts@.len() > 0,
        accounts@[0].owner == *program_id ==> (calculator_from_bytes(old(data)@) matches Some(c) ==> (
        instructions_from_bytes(instruction_data@) matches Some(i) ==> evaluates_in_range(
            i,
            c.value,
        ))),
    ensures
        accounts@[0].owner != *program_id ==> r matches Err(ProgramError::IncorrectProgramId),
        accounts@[0].owner == *program_id ==> match (
            calculator_from_bytes(old(data)@),
            instructions_from_bytes(instruction_data@),
        ) {
            (Some(c), Some(i)) => r is Ok && final(data)@ == calculator_bytes(
                Calculator { value: evaluated(i, c.value) as u32 },
            ),
            _ => r matches Err(ProgramError::BorshIoError),
        },
        r is Err ==> final(data)@ == old(data)@,
{
    if !is_owned_by(&accounts[0], program_id) {
        return Err(ProgramError::IncorrectProgramId);
    }
    let mut calc = match Calculator::try_from_slice(data) {
        Some(c) => c,
        None => return Err(ProgramError::BorshIoError),
    };
    let instructions = match CalculatorInstructions::try_from_slice(instruction_data) {
        Some(i) => i,
        None => return Err(ProgramError::BorshIoError),
    };
    calc.value = instructions.evaluate(calc.value);
    let bytes = calc.to_bytes();
    proof {
        lemma_u32_len(calc.value);
    }
    let fits = write_into(data, bytes.as_slice());
    assert(fits);
    assert(data@ =~= calculator_bytes(calc));
    Ok(())
}

/// Subtracting an operand undoes adding it.
pub proof fn lemma_subtract_undoes_add(value: u32, operand: u32)
    requires
        value + operand <= u32::MAX,
    ensures
        evaluated(
            CalculatorInstructions { operation: SUBTRACT, operating_value: operand },
            evaluated(CalculatorInstructions { operation: ADD, operating_value: operand }, value)
                as u32,
        ) == value,
{
}

/// A calculator written out reads back as itself, and bytes that hold a
/// calculator are exactly that calculator written out.
pub proof fn lemma_calculator_roundtrip(c: Calculator, b: Seq<u8>)
    ensures
        calculator_from_bytes(calculator_bytes(c)) == Some(c),
        calculator_from_bytes(b) matches Some(d) ==> calculator_bytes(d) == b,
{
    let e = calculator_bytes(c);
    lemma_u32_len(c.value);
    assert(e.subrange(0, 4) =~= e);
    lemma_u32_framed(e, 0, c.value);
    if calculator_from_bytes(b) is Some {
        lemma_u32_canonical(b, 0);
        assert(b.subrange(0, b.len() as int) =~= b);
    }
}

/// An instruction written out reads back as itself, and bytes that hold an
/// instruction are exactly that instruction written out.
pub proof fn lemma_instructions_roundtrip(i: CalculatorInstructions, b: Seq<u8>)
    ensures
        instructions_from_bytes(instructions_bytes(i)) == Some(i),
        instructions_from_bytes(b) matches Some(j) ==> instructions_bytes(j) == b,
{
    let e = instructions_bytes(i);
    lemma_u32_len(i.operation);
    lemma_u32_len(i.operating_value);
    assert(e.subrange(0, 4) =~= ser_u32(i.operation));
    assert(e.subrange(4, 8) =~= ser_u32(i.operating_value));
    lemma_u32_framed(e, 0, i.operation);
    lemma_u32_framed(e, 4, i.operating_value);
    if instructions_from_bytes(b) is Some {
        lemma_u32_canonical(b, 0);
        lemma_u32_canonical(b, 4);
        assert(b =~= b.subrange(0, 4) + b.subrange(4, 8));
    }
}

} // verus!
