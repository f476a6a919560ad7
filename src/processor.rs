use vstd::prelude::*;
use crate::error::LendingError;
use crate::instructions::{decode_instruction, Instruction, LendingInstruction};
use crate::ledger::{
    applied, borrow, borrow_spec, deposit, deposit_spec, liquidate, liquidate_spec, repay,
    repay_spec, withdraw, withdraw_spec,
};
use crate::state::{decode_record, record_bytes, UserAccount, RECORD_LEN};

verus! {

/// Whether a caller may perform `op` on a position: the owner's signature is
/// needed for every operation but liquidation, which any party may call.
pub open spec fn authorized(op: Instruction, owner_signed: bool) -> bool {
    op == Instruction::Liquidate || owner_signed
}

/// The result of applying an instruction to a position.
pub open spec fn execute_spec(a: UserAccount, instruction: LendingInstruction) -> Result<UserAccount, LendingError> {
    match instruction {
        LendingInstruction::Deposit(x) => deposit_spec(a, x),
        LendingInstruction::Borrow(x) => borrow_spec(a, x),
        LendingInstruction::Repay(x) => repay_spec(a, x),
        LendingInstruction::Withdraw(x) => withdraw_spec(a, x),
        LendingInstruction::Liquidate(x) => liquidate_spec(a, x),
    }
}

/// The result of decoding, authorizing and applying instruction bytes to a position.
pub open spec fn process_spec(a: UserAccount, owner_signed: bool, data: Seq<u8>) -> Result<UserAccount, LendingError> {
    match decode_instruction(data) {
        Err(e) => Err(e),
        Ok(ins) => if !authorized(ins.spec_op(), owner_signed) {
            Err(LendingError::Unauthorized)
        } else {
            execute_spec(a, ins)
        },
    }
}

/// Whether a caller may perform `op` on a position.
pub fn is_authorized(op: Instruction, owner_signed: bool) -> (r: bool)
    ensures
        r == authorized(op, owner_signed),
{
    match op {
        Instruction::Liquidate => true,
        _ => owner_signed,
    }
}

/// Applies a decoded instruction to a position.
pub fn execute(user_account: &mut UserAccount, instruction: LendingInstruction) -> (r: Result<(), LendingError>)
    ensures
        applied(r, *old(user_account), *final(user_account), execute_spec(*old(user_account), instruction)),
{
    match instruction {
        LendingInstruction::Deposit(x) => deposit(user_account, x),
        LendingInstruction::Borrow(x) => borrow(user_account, x),
        LendingInstruction::Repay(x) => repay(user_account, x),
        LendingInstruction::Withdraw(x) => withdraw(user_account, x),
        LendingInstruction::Liquidate(x) => liquidate(user_account, x),
    }
}

/// Decodes `instruction_data`, checks that the caller may perform it, and
/// applies it to the position. `owner_signed` tells whether the position's
/// owner signed the request.
pub fn process_instruction(
    user_account: &mut UserAccount,
    owner_signed: bool,
    instruction_data: &[u8],
) -> (r: Result<(), LendingError>)
    ensures
        applied(
            r,
            *old(user_account),
            *final(user_account),
            process_spec(*old(user_account), owner_signed, instruction_data@),
        ),
{
    let instruction = match LendingInstruction::unpack(instruction_data) {
        Ok(ins) => ins,
        Err(e) => return Err(e),
    };
    if !is_authorized(instruction.op(), owner_signed) {
        return Err(LendingError::Unauthorized);
    }
    execute(user_account, instruction)
}

/// One load, update and save cycle on a stored record. The instruction is
/// decoded and authorized before the record is read; then the record is
/// decoded, the instruction applied, and the record to store back returned.
/// On any error nothing is to be stored.
pub fn process_record(record: &[u8], owner_signed: bool, instruction_data: &[u8]) -> (r: Result<
    Vec<u8>,
    LendingError,
>)
    ensures
        match decode_instruction(instruction_data@) {
            Err(e) => r == Err::<Vec<u8>, LendingError>(e),
            Ok(ins) => if !authorized(ins.spec_op(), owner_signed) {
                r == Err::<Vec<u8>, LendingError>(LendingError::Unauthorized)
            } else if record@.len() != RECORD_LEN {
                r == Err::<Vec<u8>, LendingError>(LendingError::InvalidAccountData)
            } else {
                match execute_spec(decode_record(record@), ins) {
                    Ok(next) => r is Ok && r->Ok_0@ == record_bytes(next),
                    Err(e) => r == Err::<Vec<u8>, LendingError>(e),
                }
            },
        },
{
    let instruction = match LendingInstruction::unpack(instruction_data) {
        Ok(ins) => ins,
        Err(e) => return Err(e),
    };
    if !is_authorized(instruction.op(), owner_signed) {
        return Err(LendingError::Unauthorized);
    }
    let mut account = match UserAccount::unpack_from_slice(record) {
        Ok(a) => a,
        Err(e) => return Err(e),
    };
    match execute(&mut account, instruction) {
        Ok(()) => Ok(account.to_record()),
        Err(e) => Err(e),
    }
}

} // verus!
