use vstd::prelude::*;
use vstd::bytes::{spec_u64_from_le_bytes, u64_from_le_bytes};
use crate::error::LendingError;

verus! {

/// Length of an encoded instruction: a tag byte and an 8-byte little-endian amount.
pub const INSTRUCTION_LEN: usize = 9;

/// The five operations, as named by an instruction's tag byte
/// (0 through 4, in this order).
#[derive(Clone, Copy, Debug, PartialEq, Eq, Structural)]
pub enum Instruction {
    Deposit,
    Borrow,
    Repay,
    Withdraw,
    Liquidate,
}

/// A decoded instruction: the operation together with its amount.
#[derive(Clone, Copy, Debug, PartialEq, Eq, Structural)]
pub enum LendingInstruction {
    Deposit(u64),
    Borrow(u64),
    Repay(u64),
    Withdraw(u64),
    Liquidate(u64),
}

/// The operation that a tag byte names, if any.
pub open spec fn op_of_tag(tag: u8) -> Option<Instruction> {
    if tag == 0 {
        Some(Instruction::Deposit)
    } else if tag == 1 {
        Some(Instruction::Borrow)
    } else if tag == 2 {
        Some(Instruction::Repay)
    } else if tag == 3 {
        Some(Instruction::Withdraw)
    } else if tag == 4 {
        Some(Instruction::Liquidate)
    } else {
        None
    }
}

/// The instruction for an operation and an amount.
pub open spec fn with_amount(op: Instruction, amount: u64) -> LendingInstruction {
    match op {
        Instruction::Deposit => LendingInstruction::Deposit(amount),
        Instruction::Borrow => LendingInstruction::Borrow(amount),
        Instruction::Repay => LendingInstruction::Repay(amount),
        Instruction::Withdraw => LendingInstruction::Withdraw(amount),
        Instruction::Liquidate => LendingInstruction::Liquidate(amount),
    }
}

/// What a byte string decodes to: a known tag followed by at least eight
/// bytes of amount; bytes after the amount are ignored.
pub open spec fn decode_instruction(s: Seq<u8>) -> Result<LendingInstruction, LendingError> {
    if s.len() < INSTRUCTION_LEN {
        Err(LendingError::MalformedInstruction)
    } else {
        match op_of_tag(s[0]) {
            None => Err(LendingError::MalformedInstruction),
            Some(op) => Ok(with_amount(op, spec_u64_from_le_bytes(s.subrange(1, 9)))),
        }
    }
}

impl Instruction {
    /// The operation named by `tag`, or `None` for an unknown tag.
    pub fn from_tag(tag: u8) -> (r: Option<Instruction>)
        ensures
            r == op_of_tag(tag),
    {
        match tag {
            0 => Some(Instruction::Deposit),
            1 => Some(Instruction::Borrow),
            2 => Some(Instruction::Repay),
            3 => Some(Instruction::Withdraw),
            4 => Some(Instruction::Liquidate),
            _ => None,
        }
    }
}

impl LendingInstruction {
    pub open spec fn spec_op(self) -> Instruction {
        match self {
            LendingInstruction::Deposit(_) => Instruction::Deposit,
            LendingInstruction::Borrow(_) => Instruction::Borrow,
            LendingInstruction::Repay(_) => Instruction::Repay,
            LendingInstruction::Withdraw(_) => Instruction::Withdraw,
            LendingInstruction::Liquidate(_) => Instruction::Liquidate,
        }
    }

    /// The operation this instruction performs.
    pub fn op(&self) -> (r: Instruction)
        ensures
            r == self.spec_op(),
    {
        match self {
            LendingInstruction::Deposit(_) => Instruction::Deposit,
            LendingInstruction::Borrow(_) => Instruction::Borrow,
            LendingInstruction::Repay(_) => Instruction::Repay,
            LendingInstruction::Withdraw(_) => Instruction::Withdraw,
            LendingInstruction::Liquidate(_) => Instruction::Liquidate,
        }
    }

    /// Decodes an instruction: tag byte, then the amount in 8 bytes little-endian.
    pub fn unpack(instruction_data: &[u8]) -> (r: Result<Self, LendingError>)
        ensures
            r == decode_instruction(instruction_data@),
    {
        if instruction_data.len() < INSTRUCTION_LEN {
            return Err(LendingError::MalformedInstruction);
        }
        let op = match Instruction::from_tag(instruction_data[0]) {
            Some(op) => op,
            None => return Err(LendingError::MalformedInstruction),
        };
        let amount = u64_from_le_bytes(vstd::slice::slice_subrange(instruction_data, 1, 9));
        let ins = match op {
            Instruction::Deposit => LendingInstruction::Deposit(amount),
            Instruction::Borrow => LendingInstruction::Borrow(amount),
            Instruction::Repay => LendingInstruction::Repay(amount),
            Instruction::Withdraw => LendingInstruction::Withdraw(amount),
            Instruction::Liquidate => LendingInstruction::Liquidate(amount),
        };
        Ok(ins)
    }
}

} // verus!
