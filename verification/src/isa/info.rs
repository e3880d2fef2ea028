//! Static facts about instructions: mnemonic and duration.
//!
//! The table covers the move matrix and `HLT`.

use crate::isa::Instruction;
use vstd::prelude::*;

verus! {

/// The mnemonic of an instruction and the number of clock cycles it takes.
#[derive(Debug, Clone, Copy)]
pub struct InstructionInfo {
    pub name: &'static str,
    pub cycles: u32,
}

/// Whether the table has an entry for the instruction.
pub open spec fn has_info(instr: Instruction) -> bool {
    instr is MOVRegReg || instr is MOVRegMem || instr is MOVMemReg || instr is HLT
}

/// The mnemonic of an instruction that the table covers.
pub open spec fn mnemonic(instr: Instruction) -> Seq<char>
    recommends
        has_info(instr),
{
    if instr is HLT {
        "HLT"@
    } else {
        "MOV"@
    }
}

/// The duration in clock cycles of an instruction that the table covers:
/// five for a move between registers, seven where memory is involved or
/// the processor halts.
pub open spec fn cycles(instr: Instruction) -> u32
    recommends
        has_info(instr),
{
    if instr is MOVRegReg {
        5
    } else {
        7
    }
}

/// Look up the mnemonic and duration of a move or of `HLT`.
pub fn get_info(instr: Instruction) -> (info: InstructionInfo)
    requires
        has_info(instr),
    ensures
        info.name@ == mnemonic(instr),
        info.cycles == cycles(instr),
{
    match instr {
        Instruction::MOVRegReg { .. } => InstructionInfo { name: "MOV", cycles: 5 },
        Instruction::MOVRegMem { .. } => InstructionInfo { name: "MOV", cycles: 7 },
        Instruction::MOVMemReg { .. } => InstructionInfo { name: "MOV", cycles: 7 },
        Instruction::HLT => InstructionInfo { name: "HLT", cycles: 7 },
        _ => vstd::pervasive::unreached(),
    }
}

} // verus!
