//! Decoding of the instruction wire format.
//!
//! An instruction is carried as a byte buffer whose first byte is the tag;
//! any remaining bytes are ignored, since no operation carries a payload.

use vstd::prelude::*;

use crate::error::LotteryError;

verus! {

/// The three operations of the lottery state machine.
#[derive(Clone, Copy, Debug, PartialEq, Eq, Structural)]
pub enum LotteryInstruction {
    InitLottery,
    Play,
    Draw,
}

/// What `LotteryInstruction::unpack` returns for a given buffer: tag `0`,
/// `1`, `2` select the operation; an empty buffer or any other tag is
/// rejected.
pub open spec fn spec_unpack(input: Seq<u8>) -> Result<LotteryInstruction, LotteryError> {
    if input.len() == 0 {
        Err(LotteryError::InvalidInstruction)
    } else if input[0] == 0 {
        Ok(LotteryInstruction::InitLottery)
    } else if input[0] == 1 {
        Ok(LotteryInstruction::Play)
    } else if input[0] == 2 {
        Ok(LotteryInstruction::Draw)
    } else {
        Err(LotteryError::InvalidInstruction)
    }
}

impl LotteryInstruction {
    /// Parses a raw instruction buffer into one of the three operations.
    pub fn unpack(input: &[u8]) -> (r: Result<LotteryInstruction, LotteryError>)
        ensures
            r == spec_unpack(input@),
    {
        if input.len() == 0 {
            return Err(LotteryError::InvalidInstruction);
        }
        let tag: u8 = input[0];
        match tag {
            0 => Ok(LotteryInstruction::InitLottery),
            1 => Ok(LotteryInstruction::Play),
            2 => Ok(LotteryInstruction::Draw),
            _ => Err(LotteryError::InvalidInstruction),
        }
    }
}

} // verus!
