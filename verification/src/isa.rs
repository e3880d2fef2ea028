//! The 8080 instruction set and the bit-field encodings of its operands.
//!
//! Opcodes name registers, register pairs and conditions through small bit
//! fields. Each of the three enumerations below comes with the field value
//! that selects it (`code`), the inverse table (`of_field`) and an executable
//! resolver (`from_code`) that masks a raw byte down to the field.

use vstd::prelude::*;

pub mod info;

pub use self::info::{get_info, InstructionInfo};

verus! {

/// A 16-bit memory address. In the byte stream the low byte comes first.
pub type Address = u16;

/// An 8-bit I/O port number.
pub type Port = u8;

/// An 8-bit register that an opcode can name directly.
#[derive(Debug, Clone, Copy, PartialEq, Eq, Structural)]
pub enum Register {
    A,
    B,
    C,
    D,
    E,
    H,
    L,
}

/// A 16-bit register pair, or the stack pointer.
#[derive(Debug, Clone, Copy, PartialEq, Eq, Structural)]
pub enum Pair {
    /// B:C
    B,
    /// D:E
    D,
    /// H:L
    H,
    /// The stack pointer.
    SP,
}

/// A flag test that gates a conditional jump, call or return.
#[derive(Debug, Clone, Copy, PartialEq, Eq, Structural)]
pub enum Condition {
    /// Zero flag clear.
    NZ,
    /// Zero flag set.
    Z,
    /// Carry flag clear.
    NC,
    /// Carry flag set.
    C,
    /// Parity flag clear (odd parity).
    PO,
    /// Parity flag set (even parity).
    PE,
    /// Sign flag clear (plus).
    P,
    /// Sign flag set (minus).
    M,
}

/// One decoded instruction, with exactly the operands its opcode encodes.
///
/// Variants ending in `Mem` operate on the memory cell that H:L points to;
/// they carry no address because the opcode holds none.
#[derive(Debug, Clone, Copy, PartialEq, Eq, Structural)]
#[allow(inconsistent_fields)]
pub enum Instruction {
    // Data transfer
    /// `MOV dest, src` between registers.
    MOVRegReg { dest: Register, src: Register },
    /// `MOV dest, M`: load a register from memory.
    MOVMemReg { dest: Register },
    /// `MOV M, src`: store a register to memory.
    MOVRegMem { src: Register },
    /// `MVI dest, src`: load a register with an immediate byte.
    MVIReg { dest: Register, src: u8 },
    /// `MVI M, src`: store an immediate byte to memory.
    MVIMem { src: u8 },
    /// `LXI dest, src`: load a pair with a 16-bit immediate.
    LXI { dest: Pair, src: u16 },
    /// Load the accumulator from a direct address.
    LDA { src: Address },
    /// Store the accumulator to a direct address.
    STA { dest: Address },
    /// Load H:L from a direct address.
    LHLD { src: Address },
    /// Store H:L to a direct address.
    SHLD { dest: Address },
    /// Load the accumulator from the address in B:C or D:E.
    LDAX { src: Pair },
    /// Store the accumulator to the address in B:C or D:E.
    STAX { dest: Pair },
    /// Exchange D:E with H:L.
    XCHG,
    // Arithmetic
    ADDReg(Register),
    ADDMem,
    ADI(u8),
    ADCReg(Register),
    ADCMem,
    ACI(u8),
    SUBReg(Register),
    SUBMem,
    SUI(u8),
    SBBReg(Register),
    SBBMem,
    SBI(u8),
    INRReg(Register),
    INRMem,
    DCRReg(Register),
    DCRMem,
    INX(Pair),
    DCX(Pair),
    /// Add a pair to H:L.
    DAD(Pair),
    /// Decimal-adjust the accumulator.
    DAA,
    // Logic
    ANAReg(Register),
    ANAMem,
    ANI(u8),
    XRAReg(Register),
    XRAMem,
    XRI(u8),
    ORAReg(Register),
    ORAMem,
    ORI(u8),
    CMPReg(Register),
    CMPMem,
    CPI(u8),
    RLC,
    RRC,
    RAL,
    RAR,
    /// Complement the accumulator.
    CMA,
    /// Complement the carry flag.
    CMC,
    /// Set the carry flag.
    STC,
    // Control transfer
    JMP(Address),
    JCond(Condition, Address),
    CALL(Address),
    CCond(Condition, Address),
    RET,
    RCond(Condition),
    /// Restart: call the fixed vector numbered by the operand (0 to 7).
    RST(u8),
    /// Jump to the address in H:L.
    PCHL,
    // Stack, I/O and machine control
    /// Push B:C, D:E or H:L.
    PUSH(Pair),
    /// Push the accumulator and flags.
    PUSHPSW,
    /// Pop B:C, D:E or H:L.
    POP(Pair),
    /// Pop the accumulator and flags.
    POPPSW,
    /// Exchange the top of the stack with H:L.
    XTHL,
    /// Load the stack pointer from H:L.
    SPHL,
    IN(Port),
    OUT(Port),
    EI,
    DI,
    HLT,
    NOP,
    /// A byte that is no instruction: the opcode table's entry for the byte
    /// values the 8080 leaves undefined.
    Unknown(Option<u8>),
}

impl Instruction {
    /// The number of operand bytes that follow the opcode of this
    /// instruction: one for an 8-bit immediate or port, two for a 16-bit
    /// immediate or address, none otherwise.
    pub open spec fn operand_len(self) -> nat {
        match self {
            Instruction::MVIReg { .. }
            | Instruction::MVIMem { .. }
            | Instruction::ADI(_)
            | Instruction::ACI(_)
            | Instruction::SUI(_)
            | Instruction::SBI(_)
            | Instruction::ANI(_)
            | Instruction::XRI(_)
            | Instruction::ORI(_)
            | Instruction::CPI(_)
            | Instruction::IN(_)
            | Instruction::OUT(_) => 1,
            Instruction::LXI { .. }
            | Instruction::LDA { .. }
            | Instruction::STA { .. }
            | Instruction::LHLD { .. }
            | Instruction::SHLD { .. }
            | Instruction::JMP(_)
            | Instruction::JCond(..)
            | Instruction::CALL(_)
            | Instruction::CCond(..) => 2,
            _ => 0,
        }
    }

    /// The number of bytes that this instruction occupies: the opcode and
    /// the operand.
    pub open spec fn len(self) -> nat {
        1 + self.operand_len()
    }

    /// The 8-bit immediate or port number that follows the opcode, for the
    /// instructions that take one.
    pub open spec fn byte_operand(self) -> Option<u8> {
        match self {
            Instruction::MVIReg { src, .. } => Some(src),
            Instruction::MVIMem { src } => Some(src),
            Instruction::ADI(value)
            | Instruction::ACI(value)
            | Instruction::SUI(value)
            | Instruction::SBI(value)
            | Instruction::ANI(value)
            | Instruction::XRI(value)
            | Instruction::ORI(value)
            | Instruction::CPI(value) => Some(value),
            Instruction::IN(port) | Instruction::OUT(port) => Some(port),
            _ => None,
        }
    }

    /// The 16-bit immediate or address that follows the opcode, for the
    /// instructions that take one.
    pub open spec fn word_operand(self) -> Option<u16> {
        match self {
            Instruction::LXI { src, .. } => Some(src),
            Instruction::LDA { src } | Instruction::LHLD { src } => Some(src),
            Instruction::STA { dest } | Instruction::SHLD { dest } => Some(dest),
            Instruction::JMP(target) | Instruction::CALL(target) => Some(target),
            Instruction::JCond(_, target) | Instruction::CCond(_, target) => Some(target),
            _ => None,
        }
    }

    /// An instruction has a byte operand exactly if one byte follows its
    /// opcode, and a word operand exactly if two do.
    pub proof fn lemma_operand_len(self)
        ensures
            self.operand_len() <= 2,
            self.byte_operand() is Some <==> self.operand_len() == 1,
            self.word_operand() is Some <==> self.operand_len() == 2,
    {
    }
}

impl Register {
    /// The three-bit field value that selects this register.
    ///
    /// The value 6 is missing: it selects the memory cell that H:L points
    /// to, which is not a register.
    pub open spec fn code(self) -> int {
        match self {
            Register::B => 0,
            Register::C => 1,
            Register::D => 2,
            Register::E => 3,
            Register::H => 4,
            Register::L => 5,
            Register::A => 7,
        }
    }

    /// The register that a three-bit field value selects.
    pub open spec fn of_field(field: int) -> Register
        recommends
            0 <= field < 8,
            field != 6,
    {
        if field == 0 {
            Register::B
        } else if field == 1 {
            Register::C
        } else if field == 2 {
            Register::D
        } else if field == 3 {
            Register::E
        } else if field == 4 {
            Register::H
        } else if field == 5 {
            Register::L
        } else {
            Register::A
        }
    }

    /// `code` and `of_field` are inverse to each other on the seven field
    /// values that name a register.
    pub proof fn lemma_code_of_field(self, field: int)
        ensures
            0 <= self.code() < 8,
            self.code() != 6,
            Register::of_field(self.code()) == self,
            0 <= field < 8 && field != 6 ==> Register::of_field(field).code() == field,
    {
    }

    /// Determine the register from the three least-significant bits of `code`.
    ///
    /// All higher bits are ignored. The field value 6 names no register;
    /// a caller has to route it to a memory operand before asking for one.
    pub fn from_code(code: u8) -> (r: Register)
        requires
            code % 8 != 6,
        ensures
            r == Register::of_field(code as int % 8),
            r.code() == code % 8,
    {
        assert(code & 0x07 == code % 8) by (bit_vector);
        match code & 0x07 {
            0x07 => Register::A,
            0x00 => Register::B,
            0x01 => Register::C,
            0x02 => Register::D,
            0x03 => Register::E,
            0x04 => Register::H,
            0x05 => Register::L,
            _ => vstd::pervasive::unreached(),
        }
    }
}

impl Pair {
    /// The two-bit field value that selects this pair.
    pub open spec fn code(self) -> int {
        match self {
            Pair::B => 0,
            Pair::D => 1,
            Pair::H => 2,
            Pair::SP => 3,
        }
    }

    /// The pair that a two-bit field value selects.
    pub open spec fn of_field(field: int) -> Pair
        recommends
            0 <= field < 4,
    {
        if field == 0 {
            Pair::B
        } else if field == 1 {
            Pair::D
        } else if field == 2 {
            Pair::H
        } else {
            Pair::SP
        }
    }

    /// `code` and `of_field` are inverse to each other on the four field
    /// values.
    pub proof fn lemma_code_of_field(self, field: int)
        ensures
            0 <= self.code() < 4,
            Pair::of_field(self.code()) == self,
            0 <= field < 4 ==> Pair::of_field(field).code() == field,
    {
    }

    /// Determine the register pair from the two least-significant bits of
    /// `code`. All higher bits are ignored.
    pub fn from_code(code: u8) -> (p: Pair)
        ensures
            p == Pair::of_field(code as int % 4),
            p.code() == code % 4,
    {
        assert(code & 0x03 == code % 4) by (bit_vector);
        match code & 0x03 {
            0x00 => Pair::B,
            0x01 => Pair::D,
            0x02 => Pair::H,
            _ => Pair::SP,
        }
    }
}

impl Condition {
    /// The three-bit field value that selects this condition.
    pub open spec fn code(self) -> int {
        match self {
            Condition::NZ => 0,
            Condition::Z => 1,
            Condition::NC => 2,
            Condition::C => 3,
            Condition::PO => 4,
            Condition::PE => 5,
            Condition::P => 6,
            Condition::M => 7,
        }
    }

    /// The condition that a three-bit field value selects.
    pub open spec fn of_field(field: int) -> Condition
        recommends
            0 <= field < 8,
    {
        if field == 0 {
            Condition::NZ
        } else if field == 1 {
            Condition::Z
        } else if field == 2 {
            Condition::NC
        } else if field == 3 {
            Condition::C
        } else if field == 4 {
            Condition::PO
        } else if field == 5 {
            Condition::PE
        } else if field == 6 {
            Condition::P
        } else {
            Condition::M
        }
    }

    /// `code` and `of_field` are inverse to each other on the eight field
    /// values.
    pub proof fn lemma_code_of_field(self, field: int)
        ensures
            0 <= self.code() < 8,
            Condition::of_field(self.code()) == self,
            0 <= field < 8 ==> Condition::of_field(field).code() == field,
    {
    }

    /// Determine the condition from the three least-significant bits of
    /// `code`. All higher bits are ignored.
    pub fn from_code(code: u8) -> (c: Condition)
        ensures
            c == Condition::of_field(code as int % 8),
            c.code() == code % 8,
    {
        assert(code & 0x07 == code % 8) by (bit_vector);
        match code & 0x07 {
            0x00 => Condition::NZ,
            0x01 => Condition::Z,
            0x02 => Condition::NC,
            0x03 => Condition::C,
            0x04 => Condition::PO,
            0x05 => Condition::PE,
            0x06 => Condition::P,
            _ => Condition::M,
        }
    }
}

} // verus!
