//! The instruction decoder.
//!
//! An opcode byte is laid out as `qq yyy zzz`: two bits that pick a quarter
//! of the opcode map, and two three-bit fields. Where an opcode names a
//! register pair, the pair sits in the upper two bits of `yyy`. The opcode
//! table [`instruction_of`] is written over these fields as plain integers;
//! [`decode`] computes it with shifts and masks.

use crate::encoding::lemma_encoding_of_decoded;
use crate::isa::{Condition, Instruction, Pair, Register};
use vstd::prelude::*;

verus! {

/// Why a byte window holds no instruction.
#[derive(Debug, Clone, Copy, PartialEq, Eq, Structural)]
pub enum DecodeError {
    /// The window is empty.
    NoData,
    /// The opcode, given here, needs more operand bytes than the window holds.
    MissingTrailing(u8),
    /// The first byte, given here, is no 8080 opcode.
    UnknownOpcode(u8),
}

/// Bits 7-6 of an opcode: the quarter of the opcode map.
pub open spec fn quarter(op: u8) -> int {
    op as int / 64
}

/// Bits 5-3 of an opcode.
pub open spec fn mid_field(op: u8) -> int {
    op as int / 8 % 8
}

/// Bits 2-0 of an opcode.
pub open spec fn low_field(op: u8) -> int {
    op as int % 8
}

/// Bits 5-4 of an opcode, where a register pair is named.
pub open spec fn pair_field(op: u8) -> int {
    op as int / 16 % 4
}

/// The opcode byte `qq yyy zzz` with the given quarter and fields.
pub open spec fn opcode(q: int, y: int, z: int) -> u8
    recommends
        0 <= q < 4,
        0 <= y < 8,
        0 <= z < 8,
{
    (64 * q + 8 * y + z) as u8
}

/// The 16-bit value that two operand bytes spell, low byte first.
pub open spec fn word(lo: u8, hi: u8) -> u16 {
    (lo as int + 256 * hi as int) as u16
}

/// The accumulator operation numbered `operation`, applied to a register.
pub open spec fn alu_reg(operation: int, r: Register) -> Instruction {
    if operation == 0 {
        Instruction::ADDReg(r)
    } else if operation == 1 {
        Instruction::ADCReg(r)
    } else if operation == 2 {
        Instruction::SUBReg(r)
    } else if operation == 3 {
        Instruction::SBBReg(r)
    } else if operation == 4 {
        Instruction::ANAReg(r)
    } else if operation == 5 {
        Instruction::XRAReg(r)
    } else if operation == 6 {
        Instruction::ORAReg(r)
    } else {
        Instruction::CMPReg(r)
    }
}

/// The accumulator operation numbered `operation`, applied to the memory
/// cell that H:L points to.
pub open spec fn alu_mem(operation: int) -> Instruction {
    if operation == 0 {
        Instruction::ADDMem
    } else if operation == 1 {
        Instruction::ADCMem
    } else if operation == 2 {
        Instruction::SUBMem
    } else if operation == 3 {
        Instruction::SBBMem
    } else if operation == 4 {
        Instruction::ANAMem
    } else if operation == 5 {
        Instruction::XRAMem
    } else if operation == 6 {
        Instruction::ORAMem
    } else {
        Instruction::CMPMem
    }
}

/// The accumulator operation numbered `operation`, applied to an immediate
/// byte.
pub open spec fn alu_imm(operation: int, value: u8) -> Instruction {
    if operation == 0 {
        Instruction::ADI(value)
    } else if operation == 1 {
        Instruction::ACI(value)
    } else if operation == 2 {
        Instruction::SUI(value)
    } else if operation == 3 {
        Instruction::SBI(value)
    } else if operation == 4 {
        Instruction::ANI(value)
    } else if operation == 5 {
        Instruction::XRI(value)
    } else if operation == 6 {
        Instruction::ORI(value)
    } else {
        Instruction::CPI(value)
    }
}

/// Opcodes `00 yyy zzz`: loads and stores, 16-bit arithmetic, increments,
/// immediate moves and the accumulator rotate and flag group.
pub open spec fn quarter0(op: u8, b1: u8, b2: u8) -> Instruction {
    let y: int = mid_field(op);
    let z: int = low_field(op);
    let pair: Pair = Pair::of_field(pair_field(op));
    let odd: bool = y % 2 == 1;
    if z == 0 {
        if y == 0 {
            Instruction::NOP
        } else {
            Instruction::Unknown(Some(op))
        }
    } else if z == 1 {
        if odd {
            Instruction::DAD(pair)
        } else {
            Instruction::LXI { dest: pair, src: word(b1, b2) }
        }
    } else if z == 2 {
        if y == 0 {
            Instruction::STAX { dest: Pair::B }
        } else if y == 1 {
            Instruction::LDAX { src: Pair::B }
        } else if y == 2 {
            Instruction::STAX { dest: Pair::D }
        } else if y == 3 {
            Instruction::LDAX { src: Pair::D }
        } else if y == 4 {
            Instruction::SHLD { dest: word(b1, b2) }
        } else if y == 5 {
            Instruction::LHLD { src: word(b1, b2) }
        } else if y == 6 {
            Instruction::STA { dest: word(b1, b2) }
        } else {
            Instruction::LDA { src: word(b1, b2) }
        }
    } else if z == 3 {
        if odd {
            Instruction::DCX(pair)
        } else {
            Instruction::INX(pair)
        }
    } else if z == 4 {
        if y == 6 {
            Instruction::INRMem
        } else {
            Instruction::INRReg(Register::of_field(y))
        }
    } else if z == 5 {
        if y == 6 {
            Instruction::DCRMem
        } else {
            Instruction::DCRReg(Register::of_field(y))
        }
    } else if z == 6 {
        if y == 6 {
            Instruction::MVIMem { src: b1 }
        } else {
            Instruction::MVIReg { dest: Register::of_field(y), src: b1 }
        }
    } else {
        if y == 0 {
            Instruction::RLC
        } else if y == 1 {
            Instruction::RRC
        } else if y == 2 {
            Instruction::RAL
        } else if y == 3 {
            Instruction::RAR
        } else if y == 4 {
            Instruction::DAA
        } else if y == 5 {
            Instruction::CMA
        } else if y == 6 {
            Instruction::STC
        } else {
            Instruction::CMC
        }
    }
}

/// Opcodes `01 ddd sss`: the move matrix. A field value of 6 stands for
/// memory; the slot that would move memory to memory is `HLT`.
pub open spec fn quarter1(op: u8) -> Instruction {
    let dest: int = mid_field(op);
    let src: int = low_field(op);
    if dest == 6 && src == 6 {
        Instruction::HLT
    } else if src == 6 {
        Instruction::MOVMemReg { dest: Register::of_field(dest) }
    } else if dest == 6 {
        Instruction::MOVRegMem { src: Register::of_field(src) }
    } else {
        Instruction::MOVRegReg { dest: Register::of_field(dest), src: Register::of_field(src) }
    }
}

/// Opcodes `10 ooo sss`: accumulator operation `ooo` with a register or
/// with memory.
pub open spec fn quarter2(op: u8) -> Instruction {
    let operation: int = mid_field(op);
    let src: int = low_field(op);
    if src == 6 {
        alu_mem(operation)
    } else {
        alu_reg(operation, Register::of_field(src))
    }
}

/// Opcodes `11 yyy zzz`: control transfer, the stack, I/O, interrupt
/// control and accumulator operations with an immediate byte.
pub open spec fn quarter3(op: u8, b1: u8, b2: u8) -> Instruction {
    let y: int = mid_field(op);
    let z: int = low_field(op);
    let p: int = pair_field(op);
    let odd: bool = y % 2 == 1;
    if z == 0 {
        Instruction::RCond(Condition::of_field(y))
    } else if z == 1 {
        if !odd {
            if p == 3 {
                Instruction::POPPSW
            } else {
                Instruction::POP(Pair::of_field(p))
            }
        } else if p == 0 {
            Instruction::RET
        } else if p == 1 {
            Instruction::Unknown(Some(op))
        } else if p == 2 {
            Instruction::PCHL
        } else {
            Instruction::SPHL
        }
    } else if z == 2 {
        Instruction::JCond(Condition::of_field(y), word(b1, b2))
    } else if z == 3 {
        if y == 0 {
            Instruction::JMP(word(b1, b2))
        } else if y == 1 {
            Instruction::Unknown(Some(op))
        } else if y == 2 {
            Instruction::OUT(b1)
        } else if y == 3 {
            Instruction::IN(b1)
        } else if y == 4 {
            Instruction::XTHL
        } else if y == 5 {
            Instruction::XCHG
        } else if y == 6 {
            Instruction::DI
        } else {
            Instruction::EI
        }
    } else if z == 4 {
        Instruction::CCond(Condition::of_field(y), word(b1, b2))
    } else if z == 5 {
        if !odd {
            if p == 3 {
                Instruction::PUSHPSW
            } else {
                Instruction::PUSH(Pair::of_field(p))
            }
        } else if p == 0 {
            Instruction::CALL(word(b1, b2))
        } else {
            Instruction::Unknown(Some(op))
        }
    } else if z == 6 {
        alu_imm(y, b1)
    } else {
        Instruction::RST(y as u8)
    }
}

/// The opcode table: the instruction that opcode `op` denotes when followed
/// by the operand bytes `b1` and `b2`.
///
/// Which variant comes out depends on `op` alone. An instruction with a
/// one-byte operand takes it from `b1`; one with a two-byte operand takes
/// `word(b1, b2)`. A byte that is no 8080 opcode yields
/// `Unknown(Some(op))`.
pub open spec fn instruction_of(op: u8, b1: u8, b2: u8) -> Instruction {
    let q: int = quarter(op);
    if q == 0 {
        quarter0(op, b1, b2)
    } else if q == 1 {
        quarter1(op)
    } else if q == 2 {
        quarter2(op)
    } else {
        quarter3(op, b1, b2)
    }
}

/// Whether `op` is an opcode of the 8080.
pub open spec fn is_defined(op: u8) -> bool {
    !(instruction_of(op, 0, 0) is Unknown)
}

/// The number of operand bytes that opcode `op` requires.
pub open spec fn operand_len(op: u8) -> nat {
    instruction_of(op, 0, 0).operand_len()
}

/// The byte at position `i` of the window, or 0 where the window has ended.
pub open spec fn byte_or_zero(bytes: Seq<u8>, i: int) -> u8 {
    if 0 <= i < bytes.len() {
        bytes[i]
    } else {
        0
    }
}

/// What decoding a byte window yields.
///
/// The opcode is looked up first, so an undefined first byte is reported as
/// such however short the window is; only then is the window's length held
/// against the operand bytes the opcode needs. Bytes past the operand play
/// no part.
pub open spec fn spec_decode(bytes: Seq<u8>) -> Result<Instruction, DecodeError> {
    if bytes.len() == 0 {
        Err(DecodeError::NoData)
    } else if !is_defined(bytes[0]) {
        Err(DecodeError::UnknownOpcode(bytes[0]))
    } else if bytes.len() < 1 + operand_len(bytes[0]) {
        Err(DecodeError::MissingTrailing(bytes[0]))
    } else {
        Ok(instruction_of(bytes[0], byte_or_zero(bytes, 1), byte_or_zero(bytes, 2)))
    }
}

/// The fields of an opcode built from a quarter and two field values are
/// those values.
pub proof fn lemma_opcode_fields(q: int, y: int, z: int)
    requires
        0 <= q < 4,
        0 <= y < 8,
        0 <= z < 8,
    ensures
        opcode(q, y, z) == 64 * q + 8 * y + z,
        quarter(opcode(q, y, z)) == q,
        mid_field(opcode(q, y, z)) == y,
        low_field(opcode(q, y, z)) == z,
        pair_field(opcode(q, y, z)) == y / 2,
{
    let op: u8 = opcode(q, y, z);
    let qb: u8 = q as u8;
    let yb: u8 = y as u8;
    let zb: u8 = z as u8;
    assert(op == 64 * qb + 8 * yb + zb);
    assert(op / 64 == qb && op / 8 % 8 == yb && op % 8 == zb && op / 16 % 4 == yb / 2)
        by (bit_vector)
        requires
            qb < 4,
            yb < 8,
            zb < 8,
            op == 64 * qb + 8 * yb + zb,
    ;
}

/// Every opcode is built from its own fields.
pub proof fn lemma_fields_opcode(op: u8)
    ensures
        0 <= quarter(op) < 4,
        0 <= mid_field(op) < 8,
        0 <= low_field(op) < 8,
        0 <= pair_field(op) < 4,
        pair_field(op) == mid_field(op) / 2,
        opcode(quarter(op), mid_field(op), low_field(op)) == op,
{
    assert(op / 64 < 4 && op / 8 % 8 < 8 && op % 8 < 8 && op / 16 % 4 < 4) by (bit_vector);
    assert(op / 16 % 4 == op / 8 % 8 / 2) by (bit_vector);
    assert(64 * (op / 64) + 8 * (op / 8 % 8) + op % 8 == op) by (bit_vector);
}

/// Which instruction an opcode denotes, and so whether it is defined and how
/// many operand bytes it takes, does not depend on the bytes that follow it.
pub proof fn lemma_shape(op: u8, b1: u8, b2: u8)
    ensures
        instruction_of(op, b1, b2) is Unknown <==> !is_defined(op),
        instruction_of(op, b1, b2).operand_len() == operand_len(op),
{
}

/// No first byte is left unhandled. A window that holds the operand bytes
/// its first byte calls for, and any window of three bytes or more does,
/// decodes to an instruction other than `Unknown` if that byte is an 8080
/// opcode, and to `UnknownOpcode` with that byte if it is not.
pub proof fn lemma_decode_total(bytes: Seq<u8>)
    requires
        bytes.len() >= 1,
        bytes.len() >= 1 + operand_len(bytes[0]),
    ensures
        operand_len(bytes[0]) <= 2,
        is_defined(bytes[0]) ==> spec_decode(bytes) is Ok && !(spec_decode(bytes)->Ok_0 is Unknown),
        !is_defined(bytes[0]) ==> spec_decode(bytes) == Err::<Instruction, DecodeError>(
            DecodeError::UnknownOpcode(bytes[0]),
        ),
{
    instruction_of(bytes[0], 0, 0).lemma_operand_len();
}

/// A defined opcode decodes successfully exactly if the window holds all of
/// its operand bytes; with fewer, be it one fewer or none at all, the
/// result is `MissingTrailing` with the opcode.
pub proof fn lemma_decode_truncated(bytes: Seq<u8>)
    requires
        bytes.len() >= 1,
        is_defined(bytes[0]),
    ensures
        bytes.len() >= 1 + operand_len(bytes[0]) ==> spec_decode(bytes) is Ok,
        bytes.len() < 1 + operand_len(bytes[0]) ==> spec_decode(bytes) == Err::<
            Instruction,
            DecodeError,
        >(DecodeError::MissingTrailing(bytes[0])),
{
}

/// The move matrix resolves its two fields by the register table. For
/// field values `dest` and `src`, not both 6, the opcode `01 dest src`
/// decodes to a move between the registers that the fields select; where
/// one field is 6, that side of the move is memory and the instruction
/// holds the other register only.
pub proof fn lemma_decode_move(dest: int, src: int, rest: Seq<u8>)
    requires
        0 <= dest < 8,
        0 <= src < 8,
        !(dest == 6 && src == 6),
    ensures
        dest != 6 && src != 6 ==> spec_decode(seq![opcode(1, dest, src)] + rest) == Ok::<
            Instruction,
            DecodeError,
        >(Instruction::MOVRegReg { dest: Register::of_field(dest), src: Register::of_field(src) }),
        dest != 6 ==> Register::of_field(dest).code() == dest,
        src != 6 ==> Register::of_field(src).code() == src,
        src == 6 ==> spec_decode(seq![opcode(1, dest, src)] + rest) == Ok::<
            Instruction,
            DecodeError,
        >(Instruction::MOVMemReg { dest: Register::of_field(dest) }),
        dest == 6 ==> spec_decode(seq![opcode(1, dest, src)] + rest) == Ok::<
            Instruction,
            DecodeError,
        >(Instruction::MOVRegMem { src: Register::of_field(src) }),
{
    let bytes = seq![opcode(1, dest, src)] + rest;
    assert(bytes[0] == opcode(1, dest, src));
    assert(instruction_of(bytes[0], 0, 0) == quarter1(bytes[0]));
}

/// Operands are read in stream order, a 16-bit operand low byte first. For
/// an opcode that takes two operand bytes `lo` and `hi` the decoded
/// instruction holds the value `lo + 256 * hi`; for one that takes a single
/// byte it holds that byte.
pub proof fn lemma_decode_operand(op: u8, lo: u8, hi: u8, rest: Seq<u8>)
    requires
        is_defined(op),
    ensures
        operand_len(op) == 2 ==> {
            &&& spec_decode(seq![op, lo, hi] + rest) is Ok
            &&& spec_decode(seq![op, lo, hi] + rest)->Ok_0.word_operand() == Some(
                (lo + 256 * hi) as u16,
            )
        },
        operand_len(op) == 1 ==> {
            &&& spec_decode(seq![op, lo] + rest) is Ok
            &&& spec_decode(seq![op, lo] + rest)->Ok_0.byte_operand() == Some(lo)
        },
{
    if operand_len(op) == 2 {
        let bytes = seq![op, lo, hi] + rest;
        assert(bytes[0] == op && bytes[1] == lo && bytes[2] == hi);
        instruction_of(op, lo, hi).lemma_operand_len();
    }
    if operand_len(op) == 1 {
        let bytes = seq![op, lo] + rest;
        assert(bytes[0] == op && bytes[1] == lo);
        instruction_of(op, lo, byte_or_zero(bytes, 2)).lemma_operand_len();
    }
}

/// The first operand byte, or `MissingTrailing` with the opcode if the
/// window ends before it.
fn fetch_one(data: &[u8]) -> (r: Result<u8, DecodeError>)
    requires
        data.len() >= 1,
    ensures
        data.len() >= 2 ==> r == Ok::<u8, DecodeError>(data[1]),
        data.len() < 2 ==> r == Err::<u8, DecodeError>(DecodeError::MissingTrailing(data[0])),
{
    if data.len() >= 2 {
        Ok(data[1])
    } else {
        Err(DecodeError::MissingTrailing(data[0]))
    }
}

/// The 16-bit operand, assembled low byte first, or `MissingTrailing` with
/// the opcode if the window ends before its second byte.
fn fetch_two(data: &[u8]) -> (r: Result<u16, DecodeError>)
    requires
        data.len() >= 1,
    ensures
        data.len() >= 3 ==> r == Ok::<u16, DecodeError>(word(data[1], data[2])),
        data.len() < 3 ==> r == Err::<u16, DecodeError>(DecodeError::MissingTrailing(data[0])),
{
    if data.len() >= 3 {
        let lo: u8 = data[1];
        let hi: u8 = data[2];
        assert((hi as u16) << 8 | (lo as u16) == lo as u16 + 256 * hi as u16) by (bit_vector);
        Ok((hi as u16) << 8 | (lo as u16))
    } else {
        Err(DecodeError::MissingTrailing(data[0]))
    }
}

/// The shifts and masks that [`decode`] uses pick out the fields that the
/// opcode table is written over.
proof fn lemma_fields(op: u8)
    ensures
        op >> 6 == quarter(op),
        (op >> 3) & 0x07 == mid_field(op),
        op & 0x07 == low_field(op),
        (op >> 4) & 0x03 == pair_field(op),
        (op >> 3) % 8 == mid_field(op),
        (op >> 4) % 4 == pair_field(op),
        (op & 0x08 == 0) == (mid_field(op) % 2 == 0),
{
    assert(op >> 6 == op / 64) by (bit_vector);
    assert((op >> 3) & 0x07 == op / 8 % 8) by (bit_vector);
    assert(op & 0x07 == op % 8) by (bit_vector);
    assert((op >> 4) & 0x03 == op / 16 % 4) by (bit_vector);
    assert((op >> 3) % 8 == op / 8 % 8) by (bit_vector);
    assert((op >> 4) % 4 == op / 16 % 4) by (bit_vector);
    assert((op & 0x08 == 0) == (op / 8 % 2 == 0)) by (bit_vector);
}

/// The accumulator operation with a register operand.
fn alu_reg_instruction(operation: u8, r: Register) -> (i: Instruction)
    requires
        operation < 8,
    ensures
        i == alu_reg(operation as int, r),
{
    match operation {
        0 => Instruction::ADDReg(r),
        1 => Instruction::ADCReg(r),
        2 => Instruction::SUBReg(r),
        3 => Instruction::SBBReg(r),
        4 => Instruction::ANAReg(r),
        5 => Instruction::XRAReg(r),
        6 => Instruction::ORAReg(r),
        _ => Instruction::CMPReg(r),
    }
}

/// The accumulator operation with a memory operand.
fn alu_mem_instruction(operation: u8) -> (i: Instruction)
    requires
        operation < 8,
    ensures
        i == alu_mem(operation as int),
{
    match operation {
        0 => Instruction::ADDMem,
        1 => Instruction::ADCMem,
        2 => Instruction::SUBMem,
        3 => Instruction::SBBMem,
        4 => Instruction::ANAMem,
        5 => Instruction::XRAMem,
        6 => Instruction::ORAMem,
        _ => Instruction::CMPMem,
    }
}

/// The accumulator operation with an immediate operand.
fn alu_imm_instruction(operation: u8, value: u8) -> (i: Instruction)
    requires
        operation < 8,
    ensures
        i == alu_imm(operation as int, value),
{
    match operation {
        0 => Instruction::ADI(value),
        1 => Instruction::ACI(value),
        2 => Instruction::SUI(value),
        3 => Instruction::SBI(value),
        4 => Instruction::ANI(value),
        5 => Instruction::XRI(value),
        6 => Instruction::ORI(value),
        _ => Instruction::CPI(value),
    }
}

/// Decode an opcode of the form `00 yyy zzz`.
fn decode_quarter0(data: &[u8]) -> (r: Result<Instruction, DecodeError>)
    requires
        data.len() >= 1,
        quarter(data[0]) == 0,
    ensures
        r == spec_decode(data@),
{
    let op: u8 = data[0];
    proof {
        lemma_fields(op);
    }
    let y: u8 = (op >> 3) & 0x07;
    let even: bool = op & 0x08 == 0;
    Ok(
        match op & 0x07 {
            0 => {
                if y != 0 {
                    return Err(DecodeError::UnknownOpcode(op));
                }
                Instruction::NOP
            },
            1 => {
                if even {
                    Instruction::LXI { dest: Pair::from_code(op >> 4), src: fetch_two(data)? }
                } else {
                    Instruction::DAD(Pair::from_code(op >> 4))
                }
            },
            2 => match y {
                0 => Instruction::STAX { dest: Pair::B },
                1 => Instruction::LDAX { src: Pair::B },
                2 => Instruction::STAX { dest: Pair::D },
                3 => Instruction::LDAX { src: Pair::D },
                4 => Instruction::SHLD { dest: fetch_two(data)? },
                5 => Instruction::LHLD { src: fetch_two(data)? },
                6 => Instruction::STA { dest: fetch_two(data)? },
                _ => Instruction::LDA { src: fetch_two(data)? },
            },
            3 => {
                if even {
                    Instruction::INX(Pair::from_code(op >> 4))
                } else {
                    Instruction::DCX(Pair::from_code(op >> 4))
                }
            },
            4 => {
                if y == 6 {
                    Instruction::INRMem
                } else {
                    Instruction::INRReg(Register::from_code(op >> 3))
                }
            },
            5 => {
                if y == 6 {
                    Instruction::DCRMem
                } else {
                    Instruction::DCRReg(Register::from_code(op >> 3))
                }
            },
            6 => {
                if y == 6 {
                    Instruction::MVIMem { src: fetch_one(data)? }
                } else {
                    Instruction::MVIReg { dest: Register::from_code(op >> 3), src: fetch_one(data)? }
                }
            },
            _ => match y {
                0 => Instruction::RLC,
                1 => Instruction::RRC,
                2 => Instruction::RAL,
                3 => Instruction::RAR,
                4 => Instruction::DAA,
                5 => Instruction::CMA,
                6 => Instruction::STC,
                _ => Instruction::CMC,
            },
        },
    )
}

/// Decode an opcode of the form `01 ddd sss`.
fn decode_quarter1(op: u8) -> (i: Instruction)
    requires
        quarter(op) == 1,
    ensures
        i == quarter1(op),
{
    proof {
        lemma_fields(op);
    }
    let dest: u8 = (op >> 3) & 0x07;
    let src: u8 = op & 0x07;
    if dest == 6 && src == 6 {
        Instruction::HLT
    } else if src == 6 {
        Instruction::MOVMemReg { dest: Register::from_code(op >> 3) }
    } else if dest == 6 {
        Instruction::MOVRegMem { src: Register::from_code(op) }
    } else {
        Instruction::MOVRegReg { dest: Register::from_code(op >> 3), src: Register::from_code(op) }
    }
}

/// Decode an opcode of the form `10 ooo sss`.
fn decode_quarter2(op: u8) -> (i: Instruction)
    requires
        quarter(op) == 2,
    ensures
        i == quarter2(op),
{
    proof {
        lemma_fields(op);
    }
    let operation: u8 = (op >> 3) & 0x07;
    if op & 0x07 == 6 {
        alu_mem_instruction(operation)
    } else {
        alu_reg_instruction(operation, Register::from_code(op))
    }
}

/// Decode an opcode of the form `11 yyy zzz`.
fn decode_quarter3(data: &[u8]) -> (r: Result<Instruction, DecodeError>)
    requires
        data.len() >= 1,
        quarter(data[0]) == 3,
    ensures
        r == spec_decode(data@),
{
    let op: u8 = data[0];
    proof {
        lemma_fields(op);
    }
    let y: u8 = (op >> 3) & 0x07;
    let p: u8 = (op >> 4) & 0x03;
    let even: bool = op & 0x08 == 0;
    Ok(
        match op & 0x07 {
            0 => Instruction::RCond(Condition::from_code(op >> 3)),
            1 => {
                if even {
                    if p == 3 {
                        Instruction::POPPSW
                    } else {
                        Instruction::POP(Pair::from_code(op >> 4))
                    }
                } else {
                    match p {
                        0 => Instruction::RET,
                        1 => {
                            return Err(DecodeError::UnknownOpcode(op));
                        },
                        2 => Instruction::PCHL,
                        _ => Instruction::SPHL,
                    }
                }
            },
            2 => Instruction::JCond(Condition::from_code(op >> 3), fetch_two(data)?),
            3 => match y {
                0 => Instruction::JMP(fetch_two(data)?),
                1 => {
                    return Err(DecodeError::UnknownOpcode(op));
                },
                2 => Instruction::OUT(fetch_one(data)?),
                3 => Instruction::IN(fetch_one(data)?),
                4 => Instruction::XTHL,
                5 => Instruction::XCHG,
                6 => Instruction::DI,
                _ => Instruction::EI,
            },
            4 => Instruction::CCond(Condition::from_code(op >> 3), fetch_two(data)?),
            5 => {
                if even {
                    if p == 3 {
                        Instruction::PUSHPSW
                    } else {
                        Instruction::PUSH(Pair::from_code(op >> 4))
                    }
                } else if p == 0 {
                    Instruction::CALL(fetch_two(data)?)
                } else {
                    return Err(DecodeError::UnknownOpcode(op));
                }
            },
            6 => alu_imm_instruction(y, fetch_one(data)?),
            _ => Instruction::RST(y),
        },
    )
}

/// Decode the instruction that starts at the first byte of `data`.
///
/// Reads the opcode and the one or two operand bytes that it calls for, and
/// nothing after them. An empty window gives `NoData`, a first byte that is
/// no 8080 opcode gives `UnknownOpcode` with that byte, and a window that
/// ends inside the operand gives `MissingTrailing` with the opcode.
pub fn decode(data: &[u8]) -> (r: Result<Instruction, DecodeError>)
    ensures
        r == spec_decode(data@),
        r matches Ok(i) ==> {
            &&& i.encodable()
            &&& i.len() <= data.len()
            &&& i.encoding() == data@.subrange(0, i.len() as int)
        },
{
    if data.len() == 0 {
        return Err(DecodeError::NoData);
    }
    let op: u8 = data[0];
    proof {
        lemma_fields(op);
        if spec_decode(data@) is Ok {
            lemma_encoding_of_decoded(data@);
        }
    }
    match op >> 6 {
        0 => decode_quarter0(data),
        1 => Ok(decode_quarter1(op)),
        2 => Ok(decode_quarter2(op)),
        _ => decode_quarter3(data),
    }
}

} // verus!
