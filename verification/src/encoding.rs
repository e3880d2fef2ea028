//! The byte encoding of each instruction, and the proof that the decoder
//! inverts it.
//!
//! [`Instruction::encoding`] lists, instruction by instruction, the bytes
//! that the 8080 reads for it. The theorems below tie the opcode table of
//! [`crate::disas`] to that list: decoding an encoding gives the instruction
//! back, whatever follows it in memory; a successful decode consumed exactly
//! the encoding of what it returned; and the bytes that the decoder rejects
//! start no encoding.

use crate::disas::{
    byte_or_zero, instruction_of, is_defined, lemma_fields_opcode, lemma_opcode_fields,
    lemma_shape, low_field, mid_field, opcode, pair_field, quarter, quarter0, quarter1, quarter2,
    quarter3, spec_decode, word, DecodeError,
};
use crate::isa::{Condition, Instruction, Pair, Register};
use vstd::prelude::*;

verus! {

/// The low byte of a 16-bit operand, which comes first in the byte stream.
pub open spec fn low_byte(value: u16) -> u8 {
    (value as int % 256) as u8
}

/// The high byte of a 16-bit operand, which comes second.
pub open spec fn high_byte(value: u16) -> u8 {
    (value as int / 256) as u8
}

impl Instruction {
    /// Whether the 8080 has an encoding for this value.
    ///
    /// `LDAX` and `STAX` address through B:C or D:E only, `PUSH` and `POP`
    /// have no stack-pointer form, there are eight restart vectors, and
    /// `Unknown` is no instruction.
    pub open spec fn encodable(self) -> bool {
        match self {
            Instruction::LDAX { src } => src == Pair::B || src == Pair::D,
            Instruction::STAX { dest } => dest == Pair::B || dest == Pair::D,
            Instruction::PUSH(pair) => pair != Pair::SP,
            Instruction::POP(pair) => pair != Pair::SP,
            Instruction::RST(vector) => vector < 8,
            Instruction::Unknown(_) => false,
            _ => true,
        }
    }

    /// The bytes of this instruction: its opcode, then its operand with the
    /// low byte first. Meaningful for encodable instructions.
    pub open spec fn encoding(self) -> Seq<u8>
        recommends
            self.encodable(),
    {
        match self {
            Instruction::MOVRegReg { dest, src } => seq![opcode(1, dest.code(), src.code())],
            Instruction::MOVMemReg { dest } => seq![opcode(1, dest.code(), 6)],
            Instruction::MOVRegMem { src } => seq![opcode(1, 6, src.code())],
            Instruction::MVIReg { dest, src } => seq![opcode(0, dest.code(), 6), src],
            Instruction::MVIMem { src } => seq![0x36, src],
            Instruction::LXI { dest, src } => seq![
                opcode(0, 2 * dest.code(), 1),
                low_byte(src),
                high_byte(src),
            ],
            Instruction::LDA { src } => seq![0x3a, low_byte(src), high_byte(src)],
            Instruction::STA { dest } => seq![0x32, low_byte(dest), high_byte(dest)],
            Instruction::LHLD { src } => seq![0x2a, low_byte(src), high_byte(src)],
            Instruction::SHLD { dest } => seq![0x22, low_byte(dest), high_byte(dest)],
            Instruction::LDAX { src } => seq![opcode(0, 2 * src.code() + 1, 2)],
            Instruction::STAX { dest } => seq![opcode(0, 2 * dest.code(), 2)],
            Instruction::XCHG => seq![0xeb],
            Instruction::ADDReg(r) => seq![opcode(2, 0, r.code())],
            Instruction::ADDMem => seq![0x86],
            Instruction::ADI(value) => seq![0xc6, value],
            Instruction::ADCReg(r) => seq![opcode(2, 1, r.code())],
            Instruction::ADCMem => seq![0x8e],
            Instruction::ACI(value) => seq![0xce, value],
            Instruction::SUBReg(r) => seq![opcode(2, 2, r.code())],
            Instruction::SUBMem => seq![0x96],
            Instruction::SUI(value) => seq![0xd6, value],
            Instruction::SBBReg(r) => seq![opcode(2, 3, r.code())],
            Instruction::SBBMem => seq![0x9e],
            Instruction::SBI(value) => seq![0xde, value],
            Instruction::INRReg(r) => seq![opcode(0, r.code(), 4)],
            Instruction::INRMem => seq![0x34],
            Instruction::DCRReg(r) => seq![opcode(0, r.code(), 5)],
            Instruction::DCRMem => seq![0x35],
            Instruction::INX(pair) => seq![opcode(0, 2 * pair.code(), 3)],
            Instruction::DCX(pair) => seq![opcode(0, 2 * pair.code() + 1, 3)],
            Instruction::DAD(pair) => seq![opcode(0, 2 * pair.code() + 1, 1)],
            Instruction::DAA => seq![0x27],
            Instruction::ANAReg(r) => seq![opcode(2, 4, r.code())],
            Instruction::ANAMem => seq![0xa6],
            Instruction::ANI(value) => seq![0xe6, value],
            Instruction::XRAReg(r) => seq![opcode(2, 5, r.code())],
            Instruction::XRAMem => seq![0xae],
            Instruction::XRI(value) => seq![0xee, value],
            Instruction::ORAReg(r) => seq![opcode(2, 6, r.code())],
            Instruction::ORAMem => seq![0xb6],
            Instruction::ORI(value) => seq![0xf6, value],
            Instruction::CMPReg(r) => seq![opcode(2, 7, r.code())],
            Instruction::CMPMem => seq![0xbe],
            Instruction::CPI(value) => seq![0xfe, value],
            Instruction::RLC => seq![0x07],
            Instruction::RRC => seq![0x0f],
            Instruction::RAL => seq![0x17],
            Instruction::RAR => seq![0x1f],
            Instruction::CMA => seq![0x2f],
            Instruction::CMC => seq![0x3f],
            Instruction::STC => seq![0x37],
            Instruction::JMP(target) => seq![0xc3, low_byte(target), high_byte(target)],
            Instruction::JCond(condition, target) => seq![
                opcode(3, condition.code(), 2),
                low_byte(target),
                high_byte(target),
            ],
            Instruction::CALL(target) => seq![0xcd, low_byte(target), high_byte(target)],
            Instruction::CCond(condition, target) => seq![
                opcode(3, condition.code(), 4),
                low_byte(target),
                high_byte(target),
            ],
            Instruction::RET => seq![0xc9],
            Instruction::RCond(condition) => seq![opcode(3, condition.code(), 0)],
            Instruction::RST(vector) => seq![opcode(3, vector as int, 7)],
            Instruction::PCHL => seq![0xe9],
            Instruction::PUSH(pair) => seq![opcode(3, 2 * pair.code(), 5)],
            Instruction::PUSHPSW => seq![0xf5],
            Instruction::POP(pair) => seq![opcode(3, 2 * pair.code(), 1)],
            Instruction::POPPSW => seq![0xf1],
            Instruction::XTHL => seq![0xe3],
            Instruction::SPHL => seq![0xf9],
            Instruction::IN(port) => seq![0xdb, port],
            Instruction::OUT(port) => seq![0xd3, port],
            Instruction::EI => seq![0xfb],
            Instruction::DI => seq![0xf3],
            Instruction::HLT => seq![0x76],
            Instruction::NOP => seq![0x00],
            Instruction::Unknown(_) => Seq::empty(),
        }
    }
}

/// Splitting a 16-bit value into its two bytes and spelling it from them
/// are inverse to each other.
pub proof fn lemma_word_bytes(value: u16, lo: u8, hi: u8)
    ensures
        word(low_byte(value), high_byte(value)) == value,
        low_byte(word(lo, hi)) == lo,
        high_byte(word(lo, hi)) == hi,
        word(lo, hi) == lo + 256 * hi,
{
}

/// An encoding is the opcode followed by as many operand bytes as the
/// instruction takes.
pub proof fn lemma_encoding_len(i: Instruction)
    requires
        i.encodable(),
    ensures
        i.encoding().len() == i.len(),
{
}

/// The move matrix maps each move opcode back to its move.
proof fn lemma_table_moves(dest: Register, src: Register, b1: u8, b2: u8)
    ensures
        instruction_of(opcode(1, dest.code(), src.code()), b1, b2) == (Instruction::MOVRegReg {
            dest,
            src,
        }),
        instruction_of(opcode(1, dest.code(), 6), b1, b2) == (Instruction::MOVMemReg { dest }),
        instruction_of(opcode(1, 6, src.code()), b1, b2) == (Instruction::MOVRegMem { src }),
{
    dest.lemma_code_of_field(0);
    src.lemma_code_of_field(0);
    lemma_opcode_fields(1, dest.code(), src.code());
    lemma_opcode_fields(1, dest.code(), 6);
    lemma_opcode_fields(1, 6, src.code());
}

/// The opcode table maps each accumulator operation on a register back to
/// that operation.
proof fn lemma_table_alu_reg(r: Register, b1: u8, b2: u8)
    ensures
        instruction_of(opcode(2, 0, r.code()), b1, b2) == Instruction::ADDReg(r),
        instruction_of(opcode(2, 1, r.code()), b1, b2) == Instruction::ADCReg(r),
        instruction_of(opcode(2, 2, r.code()), b1, b2) == Instruction::SUBReg(r),
        instruction_of(opcode(2, 3, r.code()), b1, b2) == Instruction::SBBReg(r),
        instruction_of(opcode(2, 4, r.code()), b1, b2) == Instruction::ANAReg(r),
        instruction_of(opcode(2, 5, r.code()), b1, b2) == Instruction::XRAReg(r),
        instruction_of(opcode(2, 6, r.code()), b1, b2) == Instruction::ORAReg(r),
        instruction_of(opcode(2, 7, r.code()), b1, b2) == Instruction::CMPReg(r),
{
    r.lemma_code_of_field(0);
    lemma_opcode_fields(2, 0, r.code());
    lemma_opcode_fields(2, 1, r.code());
    lemma_opcode_fields(2, 2, r.code());
    lemma_opcode_fields(2, 3, r.code());
    lemma_opcode_fields(2, 4, r.code());
    lemma_opcode_fields(2, 5, r.code());
    lemma_opcode_fields(2, 6, r.code());
    lemma_opcode_fields(2, 7, r.code());
}

/// The opcode table maps each single-register opcode of the first quarter
/// back to its instruction.
proof fn lemma_table_reg(r: Register, b1: u8, b2: u8)
    ensures
        instruction_of(opcode(0, r.code(), 4), b1, b2) == Instruction::INRReg(r),
        instruction_of(opcode(0, r.code(), 5), b1, b2) == Instruction::DCRReg(r),
        instruction_of(opcode(0, r.code(), 6), b1, b2) == (Instruction::MVIReg {
            dest: r,
            src: b1,
        }),
{
    r.lemma_code_of_field(0);
    lemma_opcode_fields(0, r.code(), 4);
    lemma_opcode_fields(0, r.code(), 5);
    lemma_opcode_fields(0, r.code(), 6);
}

/// The opcode table maps each pair-indexed opcode back to its instruction.
proof fn lemma_table_pair(pair: Pair, b1: u8, b2: u8)
    ensures
        instruction_of(opcode(0, 2 * pair.code(), 1), b1, b2) == (Instruction::LXI {
            dest: pair,
            src: word(b1, b2),
        }),
        instruction_of(opcode(0, 2 * pair.code() + 1, 1), b1, b2) == Instruction::DAD(pair),
        instruction_of(opcode(0, 2 * pair.code(), 3), b1, b2) == Instruction::INX(pair),
        instruction_of(opcode(0, 2 * pair.code() + 1, 3), b1, b2) == Instruction::DCX(pair),
        pair != Pair::SP ==> instruction_of(opcode(3, 2 * pair.code(), 1), b1, b2)
            == Instruction::POP(pair),
        pair != Pair::SP ==> instruction_of(opcode(3, 2 * pair.code(), 5), b1, b2)
            == Instruction::PUSH(pair),
        pair == Pair::B || pair == Pair::D ==> instruction_of(
            opcode(0, 2 * pair.code(), 2),
            b1,
            b2,
        ) == (Instruction::STAX { dest: pair }),
        pair == Pair::B || pair == Pair::D ==> instruction_of(
            opcode(0, 2 * pair.code() + 1, 2),
            b1,
            b2,
        ) == (Instruction::LDAX { src: pair }),
{
    pair.lemma_code_of_field(0);
    lemma_opcode_fields(0, 2 * pair.code(), 1);
    lemma_opcode_fields(0, 2 * pair.code() + 1, 1);
    lemma_opcode_fields(0, 2 * pair.code(), 2);
    lemma_opcode_fields(0, 2 * pair.code() + 1, 2);
    lemma_opcode_fields(0, 2 * pair.code(), 3);
    lemma_opcode_fields(0, 2 * pair.code() + 1, 3);
    lemma_opcode_fields(3, 2 * pair.code(), 1);
    lemma_opcode_fields(3, 2 * pair.code(), 5);
}

/// The opcode table maps each conditional opcode and each restart back to
/// its instruction.
proof fn lemma_table_condition(condition: Condition, vector: u8, b1: u8, b2: u8)
    ensures
        instruction_of(opcode(3, condition.code(), 0), b1, b2) == Instruction::RCond(condition),
        instruction_of(opcode(3, condition.code(), 2), b1, b2) == Instruction::JCond(
            condition,
            word(b1, b2),
        ),
        instruction_of(opcode(3, condition.code(), 4), b1, b2) == Instruction::CCond(
            condition,
            word(b1, b2),
        ),
        vector < 8 ==> instruction_of(opcode(3, vector as int, 7), b1, b2) == Instruction::RST(
            vector,
        ),
{
    condition.lemma_code_of_field(0);
    lemma_opcode_fields(3, condition.code(), 0);
    lemma_opcode_fields(3, condition.code(), 2);
    lemma_opcode_fields(3, condition.code(), 4);
    if vector < 8 {
        lemma_opcode_fields(3, vector as int, 7);
    }
}

/// The opcode table at the opcodes of the first three quarters that encode
/// no register, pair or condition.
proof fn lemma_table_fixed_low(b1: u8, b2: u8)
    ensures
        instruction_of(0x00, b1, b2) == Instruction::NOP,
        instruction_of(0x07, b1, b2) == Instruction::RLC,
        instruction_of(0x0f, b1, b2) == Instruction::RRC,
        instruction_of(0x17, b1, b2) == Instruction::RAL,
        instruction_of(0x1f, b1, b2) == Instruction::RAR,
        instruction_of(0x22, b1, b2) == (Instruction::SHLD { dest: word(b1, b2) }),
        instruction_of(0x27, b1, b2) == Instruction::DAA,
        instruction_of(0x2a, b1, b2) == (Instruction::LHLD { src: word(b1, b2) }),
        instruction_of(0x2f, b1, b2) == Instruction::CMA,
        instruction_of(0x32, b1, b2) == (Instruction::STA { dest: word(b1, b2) }),
        instruction_of(0x34, b1, b2) == Instruction::INRMem,
        instruction_of(0x35, b1, b2) == Instruction::DCRMem,
        instruction_of(0x36, b1, b2) == (Instruction::MVIMem { src: b1 }),
        instruction_of(0x37, b1, b2) == Instruction::STC,
        instruction_of(0x3a, b1, b2) == (Instruction::LDA { src: word(b1, b2) }),
        instruction_of(0x3f, b1, b2) == Instruction::CMC,
        instruction_of(0x76, b1, b2) == Instruction::HLT,
        instruction_of(0x86, b1, b2) == Instruction::ADDMem,
        instruction_of(0x8e, b1, b2) == Instruction::ADCMem,
        instruction_of(0x96, b1, b2) == Instruction::SUBMem,
        instruction_of(0x9e, b1, b2) == Instruction::SBBMem,
        instruction_of(0xa6, b1, b2) == Instruction::ANAMem,
        instruction_of(0xae, b1, b2) == Instruction::XRAMem,
        instruction_of(0xb6, b1, b2) == Instruction::ORAMem,
        instruction_of(0xbe, b1, b2) == Instruction::CMPMem,
{
}

/// The opcode table at the opcodes of the last quarter that encode no
/// register, pair or condition.
proof fn lemma_table_fixed_high(b1: u8, b2: u8)
    ensures
        instruction_of(0xc3, b1, b2) == Instruction::JMP(word(b1, b2)),
        instruction_of(0xc6, b1, b2) == Instruction::ADI(b1),
        instruction_of(0xc9, b1, b2) == Instruction::RET,
        instruction_of(0xcd, b1, b2) == Instruction::CALL(word(b1, b2)),
        instruction_of(0xce, b1, b2) == Instruction::ACI(b1),
        instruction_of(0xd3, b1, b2) == Instruction::OUT(b1),
        instruction_of(0xd6, b1, b2) == Instruction::SUI(b1),
        instruction_of(0xdb, b1, b2) == Instruction::IN(b1),
        instruction_of(0xde, b1, b2) == Instruction::SBI(b1),
        instruction_of(0xe3, b1, b2) == Instruction::XTHL,
        instruction_of(0xe6, b1, b2) == Instruction::ANI(b1),
        instruction_of(0xe9, b1, b2) == Instruction::PCHL,
        instruction_of(0xeb, b1, b2) == Instruction::XCHG,
        instruction_of(0xee, b1, b2) == Instruction::XRI(b1),
        instruction_of(0xf1, b1, b2) == Instruction::POPPSW,
        instruction_of(0xf3, b1, b2) == Instruction::DI,
        instruction_of(0xf5, b1, b2) == Instruction::PUSHPSW,
        instruction_of(0xf6, b1, b2) == Instruction::ORI(b1),
        instruction_of(0xf9, b1, b2) == Instruction::SPHL,
        instruction_of(0xfb, b1, b2) == Instruction::EI,
        instruction_of(0xfe, b1, b2) == Instruction::CPI(b1),
{
}

/// Whether the operand of the instruction, if it has one, is spelled by the
/// bytes `b1` and `b2`.
pub open spec fn spells_operand(i: Instruction, b1: u8, b2: u8) -> bool {
    &&& i.operand_len() >= 1 ==> b1 == i.encoding()[1]
    &&& i.operand_len() == 2 ==> b2 == i.encoding()[2]
}

/// The opcode table inverts the encoding of the instructions that name a
/// register.
proof fn lemma_table_inverts_register_forms(i: Instruction, b1: u8, b2: u8)
    requires
        spells_operand(i, b1, b2),
        i is MOVRegReg || i is MOVMemReg || i is MOVRegMem || i is MVIReg || i is INRReg
            || i is DCRReg || i is ADDReg || i is ADCReg || i is SUBReg || i is SBBReg
            || i is ANAReg || i is XRAReg || i is ORAReg || i is CMPReg,
    ensures
        instruction_of(i.encoding()[0], b1, b2) == i,
{
    match i {
        Instruction::MOVRegReg { dest, src } => {
            lemma_table_moves(dest, src, b1, b2);
        },
        Instruction::MOVMemReg { dest } => {
            lemma_table_moves(dest, dest, b1, b2);
        },
        Instruction::MOVRegMem { src } => {
            lemma_table_moves(src, src, b1, b2);
        },
        Instruction::MVIReg { dest, src } => {
            lemma_table_reg(dest, b1, b2);
        },
        Instruction::INRReg(r) | Instruction::DCRReg(r) => {
            lemma_table_reg(r, b1, b2);
        },
        Instruction::ADDReg(r)
        | Instruction::ADCReg(r)
        | Instruction::SUBReg(r)
        | Instruction::SBBReg(r)
        | Instruction::ANAReg(r)
        | Instruction::XRAReg(r)
        | Instruction::ORAReg(r)
        | Instruction::CMPReg(r) => {
            lemma_table_alu_reg(r, b1, b2);
        },
        _ => {},
    }
}

/// The opcode table inverts the encoding of the instructions that name a
/// pair.
proof fn lemma_table_inverts_pair_forms(i: Instruction, b1: u8, b2: u8)
    requires
        i.encodable(),
        spells_operand(i, b1, b2),
        i is LXI || i is LDAX || i is STAX || i is INX || i is DCX || i is DAD || i is PUSH
            || i is POP,
    ensures
        instruction_of(i.encoding()[0], b1, b2) == i,
{
    match i {
        Instruction::LXI { dest, src } => {
            lemma_table_pair(dest, b1, b2);
            lemma_word_bytes(src, 0, 0);
        },
        Instruction::LDAX { src } => {
            lemma_table_pair(src, b1, b2);
        },
        Instruction::STAX { dest } => {
            lemma_table_pair(dest, b1, b2);
        },
        Instruction::INX(pair)
        | Instruction::DCX(pair)
        | Instruction::DAD(pair)
        | Instruction::PUSH(pair)
        | Instruction::POP(pair) => {
            lemma_table_pair(pair, b1, b2);
        },
        _ => {},
    }
}

/// The opcode table inverts the encoding of the instructions that name a
/// condition or a restart vector.
proof fn lemma_table_inverts_condition_forms(i: Instruction, b1: u8, b2: u8)
    requires
        i.encodable(),
        spells_operand(i, b1, b2),
        i is JCond || i is CCond || i is RCond || i is RST,
    ensures
        instruction_of(i.encoding()[0], b1, b2) == i,
{
    match i {
        Instruction::JCond(condition, target) | Instruction::CCond(condition, target) => {
            lemma_table_condition(condition, 0, b1, b2);
            lemma_word_bytes(target, 0, 0);
        },
        Instruction::RCond(condition) => {
            lemma_table_condition(condition, 0, b1, b2);
        },
        Instruction::RST(vector) => {
            lemma_table_condition(Condition::NZ, vector, b1, b2);
        },
        _ => {},
    }
}

/// The opcode table inverts the encoding of the instructions of the first
/// three quarters whose opcode is fixed.
proof fn lemma_table_inverts_fixed_low(i: Instruction, b1: u8, b2: u8)
    requires
        spells_operand(i, b1, b2),
        i is NOP || i is RLC || i is RRC || i is RAL || i is RAR || i is SHLD || i is DAA
            || i is LHLD || i is CMA || i is STA || i is INRMem || i is DCRMem || i is MVIMem
            || i is STC || i is LDA || i is CMC || i is HLT || i is ADDMem || i is ADCMem
            || i is SUBMem || i is SBBMem || i is ANAMem || i is XRAMem || i is ORAMem
            || i is CMPMem,
    ensures
        instruction_of(i.encoding()[0], b1, b2) == i,
{
    lemma_table_fixed_low(b1, b2);
    match i {
        Instruction::LDA { src } | Instruction::LHLD { src } => {
            lemma_word_bytes(src, 0, 0);
        },
        Instruction::STA { dest } | Instruction::SHLD { dest } => {
            lemma_word_bytes(dest, 0, 0);
        },
        _ => {},
    }
}

/// The opcode table inverts the encoding of the instructions of the last
/// quarter whose opcode is fixed.
proof fn lemma_table_inverts_fixed_high(i: Instruction, b1: u8, b2: u8)
    requires
        spells_operand(i, b1, b2),
        i is JMP || i is ADI || i is RET || i is CALL || i is ACI || i is OUT || i is SUI
            || i is IN || i is SBI || i is XTHL || i is ANI || i is PCHL || i is XCHG
            || i is XRI || i is POPPSW || i is DI || i is PUSHPSW || i is ORI || i is SPHL
            || i is EI || i is CPI,
    ensures
        instruction_of(i.encoding()[0], b1, b2) == i,
{
    lemma_table_fixed_high(b1, b2);
    match i {
        Instruction::JMP(target) | Instruction::CALL(target) => {
            lemma_word_bytes(target, 0, 0);
        },
        _ => {},
    }
}

/// The opcode table maps the opcode and operand bytes of an instruction
/// back to the instruction.
pub proof fn lemma_table_inverts_encoding(i: Instruction, b1: u8, b2: u8)
    requires
        i.encodable(),
        spells_operand(i, b1, b2),
    ensures
        instruction_of(i.encoding()[0], b1, b2) == i,
{
    if i is MOVRegReg || i is MOVMemReg || i is MOVRegMem || i is MVIReg || i is INRReg
        || i is DCRReg || i is ADDReg || i is ADCReg || i is SUBReg || i is SBBReg
        || i is ANAReg || i is XRAReg || i is ORAReg || i is CMPReg {
        lemma_table_inverts_register_forms(i, b1, b2);
    } else if i is LXI || i is LDAX || i is STAX || i is INX || i is DCX || i is DAD
        || i is PUSH || i is POP {
        lemma_table_inverts_pair_forms(i, b1, b2);
    } else if i is JCond || i is CCond || i is RCond || i is RST {
        lemma_table_inverts_condition_forms(i, b1, b2);
    } else if i is NOP || i is RLC || i is RRC || i is RAL || i is RAR || i is SHLD || i is DAA
        || i is LHLD || i is CMA || i is STA || i is INRMem || i is DCRMem || i is MVIMem
        || i is STC || i is LDA || i is CMC || i is HLT || i is ADDMem || i is ADCMem
        || i is SUBMem || i is SBBMem || i is ANAMem || i is XRAMem || i is ORAMem
        || i is CMPMem {
        lemma_table_inverts_fixed_low(i, b1, b2);
    } else {
        lemma_table_inverts_fixed_high(i, b1, b2);
    }
}

/// Decoding inverts encoding: a window that starts with the encoding of an
/// instruction decodes to that instruction, whatever bytes follow.
pub proof fn lemma_decode_encoding(i: Instruction, rest: Seq<u8>)
    requires
        i.encodable(),
    ensures
        spec_decode(i.encoding() + rest) == Ok::<Instruction, DecodeError>(i),
{
    let bytes = i.encoding() + rest;
    let b1 = byte_or_zero(bytes, 1);
    let b2 = byte_or_zero(bytes, 2);
    lemma_encoding_len(i);
    assert(bytes[0] == i.encoding()[0]);
    assert(i.operand_len() >= 1 ==> bytes[1] == i.encoding()[1]);
    assert(i.operand_len() == 2 ==> bytes[2] == i.encoding()[2]);
    assert(spells_operand(i, b1, b2));
    lemma_table_inverts_encoding(i, b1, b2);
    lemma_shape(bytes[0], b1, b2);
}

/// Whether the instruction `i`, read from opcode `op` and the operand bytes
/// `b1` and `b2`, encodes back to those bytes.
pub open spec fn encodes_to(i: Instruction, op: u8, b1: u8, b2: u8) -> bool {
    &&& i.encodable()
    &&& i.encoding().len() == i.len()
    &&& i.encoding()[0] == op
    &&& i.operand_len() >= 1 ==> i.encoding()[1] == b1
    &&& i.operand_len() == 2 ==> i.encoding()[2] == b2
}

/// The first quarter of the opcode table yields instructions that encode
/// back to the opcode.
proof fn lemma_encoding_inverts_quarter0(op: u8, b1: u8, b2: u8)
    requires
        quarter(op) == 0,
        !(quarter0(op, b1, b2) is Unknown),
    ensures
        encodes_to(quarter0(op, b1, b2), op, b1, b2),
{
    lemma_fields_opcode(op);
    lemma_word_bytes(0, b1, b2);
    Register::B.lemma_code_of_field(mid_field(op));
    Pair::B.lemma_code_of_field(pair_field(op));
}

/// The move matrix yields instructions that encode back to the opcode.
proof fn lemma_encoding_inverts_quarter1(op: u8, b1: u8, b2: u8)
    requires
        quarter(op) == 1,
    ensures
        encodes_to(quarter1(op), op, b1, b2),
{
    lemma_fields_opcode(op);
    Register::B.lemma_code_of_field(mid_field(op));
    Register::B.lemma_code_of_field(low_field(op));
}

/// The third quarter of the opcode table yields instructions that encode
/// back to the opcode.
proof fn lemma_encoding_inverts_quarter2(op: u8, b1: u8, b2: u8)
    requires
        quarter(op) == 2,
    ensures
        encodes_to(quarter2(op), op, b1, b2),
{
    lemma_fields_opcode(op);
    Register::B.lemma_code_of_field(low_field(op));
}

/// The last quarter of the opcode table yields instructions that encode
/// back to the opcode.
proof fn lemma_encoding_inverts_quarter3(op: u8, b1: u8, b2: u8)
    requires
        quarter(op) == 3,
        !(quarter3(op, b1, b2) is Unknown),
    ensures
        encodes_to(quarter3(op, b1, b2), op, b1, b2),
{
    lemma_fields_opcode(op);
    lemma_word_bytes(0, b1, b2);
    Pair::B.lemma_code_of_field(pair_field(op));
    Condition::NZ.lemma_code_of_field(mid_field(op));
}

/// What the opcode table yields for a defined opcode is encodable, and its
/// encoding is that opcode followed by the operand bytes that were used.
pub proof fn lemma_encoding_inverts_table(op: u8, b1: u8, b2: u8)
    requires
        is_defined(op),
    ensures
        encodes_to(instruction_of(op, b1, b2), op, b1, b2),
{
    lemma_shape(op, b1, b2);
    lemma_fields_opcode(op);
    if quarter(op) == 0 {
        lemma_encoding_inverts_quarter0(op, b1, b2);
    } else if quarter(op) == 1 {
        lemma_encoding_inverts_quarter1(op, b1, b2);
    } else if quarter(op) == 2 {
        lemma_encoding_inverts_quarter2(op, b1, b2);
    } else {
        lemma_encoding_inverts_quarter3(op, b1, b2);
    }
}

/// Encoding inverts decoding: a successful decode returns an encodable
/// instruction, and the bytes it consumed, the opcode and the operand that
/// the instruction takes, are exactly the encoding of that instruction.
pub proof fn lemma_encoding_of_decoded(bytes: Seq<u8>)
    requires
        spec_decode(bytes) is Ok,
    ensures
        ({
            let i = spec_decode(bytes)->Ok_0;
            &&& i.encodable()
            &&& i.len() <= bytes.len()
            &&& i.encoding() == bytes.subrange(0, i.len() as int)
        }),
{
    let b1 = byte_or_zero(bytes, 1);
    let b2 = byte_or_zero(bytes, 2);
    let i = instruction_of(bytes[0], b1, b2);
    lemma_shape(bytes[0], b1, b2);
    lemma_encoding_inverts_table(bytes[0], b1, b2);
    assert(i.encoding() =~= bytes.subrange(0, i.len() as int));
}

/// A byte that the decoder rejects as unknown starts no encoding.
pub proof fn lemma_unknown_starts_no_encoding(op: u8, i: Instruction)
    requires
        !is_defined(op),
        i.encodable(),
    ensures
        i.encoding()[0] != op,
{
    let b1 = i.encoding()[1];
    let b2 = i.encoding()[2];
    lemma_table_inverts_encoding(i, b1, b2);
    lemma_shape(op, b1, b2);
}

/// Decoding looks at the instruction's own bytes and no further: two
/// windows that agree on the bytes that a successful decode of the first
/// one consumed decode alike.
pub proof fn lemma_decode_reads_prefix(a: Seq<u8>, b: Seq<u8>)
    requires
        spec_decode(a) is Ok,
        b.len() >= spec_decode(a)->Ok_0.len(),
        b.subrange(0, spec_decode(a)->Ok_0.len() as int) == a.subrange(
            0,
            spec_decode(a)->Ok_0.len() as int,
        ),
    ensures
        spec_decode(b) == spec_decode(a),
{
    let i = spec_decode(a)->Ok_0;
    lemma_encoding_of_decoded(a);
    let rest = b.subrange(i.len() as int, b.len() as int);
    assert(b =~= i.encoding() + rest);
    lemma_decode_encoding(i, rest);
}

/// No encoding is the beginning of another: two instructions of which one's
/// encoding starts with the other's are the same instruction. A byte stream
/// therefore splits into instructions in one way only.
pub proof fn lemma_encoding_prefix_free(i: Instruction, j: Instruction)
    requires
        i.encodable(),
        j.encodable(),
        i.encoding().is_prefix_of(j.encoding()),
    ensures
        i == j,
{
    let rest = j.encoding().subrange(i.encoding().len() as int, j.encoding().len() as int);
    assert(j.encoding() =~= i.encoding() + rest);
    assert(j.encoding() =~= j.encoding() + Seq::<u8>::empty());
    lemma_decode_encoding(i, rest);
    lemma_decode_encoding(j, Seq::empty());
}

} // verus!
