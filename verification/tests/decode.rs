use i8080::disas::{decode, DecodeError};
use i8080::isa::{Condition, Instruction, Pair, Register};

const REGISTERS: [(u8, Register); 7] = [
    (0, Register::B),
    (1, Register::C),
    (2, Register::D),
    (3, Register::E),
    (4, Register::H),
    (5, Register::L),
    (7, Register::A),
];

const PAIRS: [(u8, Pair); 4] = [(0, Pair::B), (1, Pair::D), (2, Pair::H), (3, Pair::SP)];

const CONDITIONS: [(u8, Condition); 8] = [
    (0, Condition::NZ),
    (1, Condition::Z),
    (2, Condition::NC),
    (3, Condition::C),
    (4, Condition::PO),
    (5, Condition::PE),
    (6, Condition::P),
    (7, Condition::M),
];

const UNDEFINED: [u8; 12] =
    [0x08, 0x10, 0x18, 0x20, 0x28, 0x30, 0x38, 0xcb, 0xd9, 0xdd, 0xed, 0xfd];

/// Operand bytes that each opcode takes, by the 8080 data sheet.
fn operand_bytes(op: u8) -> usize {
    match op {
        0x01 | 0x11 | 0x21 | 0x31 => 2,
        0x22 | 0x2a | 0x32 | 0x3a => 2,
        0xc3 | 0xcd => 2,
        0xc2 | 0xca | 0xd2 | 0xda | 0xe2 | 0xea | 0xf2 | 0xfa => 2,
        0xc4 | 0xcc | 0xd4 | 0xdc | 0xe4 | 0xec | 0xf4 | 0xfc => 2,
        0x06 | 0x0e | 0x16 | 0x1e | 0x26 | 0x2e | 0x36 | 0x3e => 1,
        0xc6 | 0xce | 0xd6 | 0xde | 0xe6 | 0xee | 0xf6 | 0xfe => 1,
        0xd3 | 0xdb => 1,
        _ => 0,
    }
}

#[test]
fn nop() {
    assert_eq!(decode(&[0x00]), Ok(Instruction::NOP));
}

#[test]
fn move_immediate_into_b() {
    assert_eq!(decode(&[0x06, 0x2A]), Ok(Instruction::MVIReg { dest: Register::B, src: 0x2A }));
}

#[test]
fn load_hl_immediate() {
    assert_eq!(decode(&[0x21, 0x00, 0x10]), Ok(Instruction::LXI { dest: Pair::H, src: 0x1000 }));
}

#[test]
fn halt() {
    assert_eq!(decode(&[0x76]), Ok(Instruction::HLT));
}

#[test]
fn immediate_byte_missing() {
    assert_eq!(decode(&[0x06]), Err(DecodeError::MissingTrailing(0x06)));
}

#[test]
fn empty_window() {
    assert_eq!(decode(&[]), Err(DecodeError::NoData));
}

#[test]
fn undefined_opcode_08() {
    assert_eq!(decode(&[0x08]), Err(DecodeError::UnknownOpcode(0x08)));
}

#[test]
fn every_first_byte_is_handled() {
    for op in 0u8..=255 {
        match decode(&[op, 0x34, 0x12]) {
            Ok(Instruction::Unknown(_)) => panic!("{:#04x} decoded to Unknown", op),
            Ok(_) => assert!(!UNDEFINED.contains(&op), "{:#04x} is undefined", op),
            Err(e) => {
                assert_eq!(e, DecodeError::UnknownOpcode(op));
                assert!(UNDEFINED.contains(&op), "{:#04x} is defined", op);
            }
        }
    }
}

#[test]
fn undefined_opcodes_are_reported_whatever_follows() {
    for op in UNDEFINED {
        assert_eq!(decode(&[op]), Err(DecodeError::UnknownOpcode(op)));
        assert_eq!(decode(&[op, 0xff]), Err(DecodeError::UnknownOpcode(op)));
        assert_eq!(decode(&[op, 0xff, 0xff]), Err(DecodeError::UnknownOpcode(op)));
    }
}

#[test]
fn truncated_operand_reports_the_opcode() {
    for op in 0u8..=255 {
        if UNDEFINED.contains(&op) {
            continue;
        }
        let needed = operand_bytes(op);
        let window = [op, 0xa5, 0x5a];
        assert!(decode(&window[..1 + needed]).is_ok(), "{:#04x} with its operand", op);
        for held in 0..needed {
            assert_eq!(
                decode(&window[..1 + held]),
                Err(DecodeError::MissingTrailing(op)),
                "{:#04x} with {} of {} operand bytes",
                op,
                held,
                needed
            );
        }
    }
}

#[test]
fn bytes_after_the_instruction_are_ignored() {
    for op in 0u8..=255 {
        if UNDEFINED.contains(&op) {
            continue;
        }
        let needed = operand_bytes(op);
        let short = [op, 0xa5, 0x5a];
        let mut long = vec![op, 0xa5, 0x5a];
        for k in needed..2 {
            long[1 + k] = 0x99;
        }
        long.push(0x08);
        long.push(0x76);
        assert_eq!(decode(&long), decode(&short[..1 + needed]));
    }
}

#[test]
fn move_matrix_resolves_both_fields() {
    for (d, dest) in REGISTERS {
        for (s, src) in REGISTERS {
            let op = 0x40 | (d << 3) | s;
            assert_eq!(decode(&[op]), Ok(Instruction::MOVRegReg { dest, src }));
        }
    }
}

#[test]
fn move_matrix_routes_field_6_to_memory() {
    for (field, register) in REGISTERS {
        let load = 0x40 | (field << 3) | 6;
        assert_eq!(decode(&[load]), Ok(Instruction::MOVMemReg { dest: register }));
        let store = 0x40 | (6 << 3) | field;
        assert_eq!(decode(&[store]), Ok(Instruction::MOVRegMem { src: register }));
    }
}

#[test]
fn move_examples() {
    assert_eq!(
        decode(&[0x41]),
        Ok(Instruction::MOVRegReg { dest: Register::B, src: Register::C })
    );
    assert_eq!(
        decode(&[0x7c]),
        Ok(Instruction::MOVRegReg { dest: Register::A, src: Register::H })
    );
    assert_eq!(decode(&[0x46]), Ok(Instruction::MOVMemReg { dest: Register::B }));
    assert_eq!(decode(&[0x7e]), Ok(Instruction::MOVMemReg { dest: Register::A }));
    assert_eq!(decode(&[0x70]), Ok(Instruction::MOVRegMem { src: Register::B }));
    assert_eq!(decode(&[0x77]), Ok(Instruction::MOVRegMem { src: Register::A }));
}

#[test]
fn sixteen_bit_operands_are_little_endian() {
    let tail = [0x34, 0x12];
    assert_eq!(decode(&[0x01, 0x34, 0x12]), Ok(Instruction::LXI { dest: Pair::B, src: 0x1234 }));
    assert_eq!(decode(&[0x11, 0x34, 0x12]), Ok(Instruction::LXI { dest: Pair::D, src: 0x1234 }));
    assert_eq!(decode(&[0x21, 0x34, 0x12]), Ok(Instruction::LXI { dest: Pair::H, src: 0x1234 }));
    assert_eq!(decode(&[0x31, 0x34, 0x12]), Ok(Instruction::LXI { dest: Pair::SP, src: 0x1234 }));
    assert_eq!(decode(&[0x22, 0x34, 0x12]), Ok(Instruction::SHLD { dest: 0x1234 }));
    assert_eq!(decode(&[0x2a, 0x34, 0x12]), Ok(Instruction::LHLD { src: 0x1234 }));
    assert_eq!(decode(&[0x32, 0x34, 0x12]), Ok(Instruction::STA { dest: 0x1234 }));
    assert_eq!(decode(&[0x3a, 0x34, 0x12]), Ok(Instruction::LDA { src: 0x1234 }));
    assert_eq!(decode(&[0xc3, 0x34, 0x12]), Ok(Instruction::JMP(0x1234)));
    assert_eq!(decode(&[0xcd, 0x34, 0x12]), Ok(Instruction::CALL(0x1234)));
    for (field, condition) in CONDITIONS {
        let jump = 0xc2 | (field << 3);
        assert_eq!(
            decode(&[jump, tail[0], tail[1]]),
            Ok(Instruction::JCond(condition, 0x1234))
        );
        let call = 0xc4 | (field << 3);
        assert_eq!(
            decode(&[call, tail[0], tail[1]]),
            Ok(Instruction::CCond(condition, 0x1234))
        );
    }
}

#[test]
fn sixteen_bit_operand_extremes() {
    assert_eq!(decode(&[0xc3, 0x00, 0x00]), Ok(Instruction::JMP(0x0000)));
    assert_eq!(decode(&[0xc3, 0xff, 0x00]), Ok(Instruction::JMP(0x00ff)));
    assert_eq!(decode(&[0xc3, 0x00, 0xff]), Ok(Instruction::JMP(0xff00)));
    assert_eq!(decode(&[0xc3, 0xff, 0xff]), Ok(Instruction::JMP(0xffff)));
}

#[test]
fn pair_indexed_opcodes() {
    for (field, pair) in PAIRS {
        let bits = field << 4;
        assert_eq!(decode(&[0x03 | bits]), Ok(Instruction::INX(pair)));
        assert_eq!(decode(&[0x0b | bits]), Ok(Instruction::DCX(pair)));
        assert_eq!(decode(&[0x09 | bits]), Ok(Instruction::DAD(pair)));
    }
    assert_eq!(decode(&[0x02]), Ok(Instruction::STAX { dest: Pair::B }));
    assert_eq!(decode(&[0x12]), Ok(Instruction::STAX { dest: Pair::D }));
    assert_eq!(decode(&[0x0a]), Ok(Instruction::LDAX { src: Pair::B }));
    assert_eq!(decode(&[0x1a]), Ok(Instruction::LDAX { src: Pair::D }));
}

#[test]
fn stack_opcodes() {
    assert_eq!(decode(&[0xc5]), Ok(Instruction::PUSH(Pair::B)));
    assert_eq!(decode(&[0xd5]), Ok(Instruction::PUSH(Pair::D)));
    assert_eq!(decode(&[0xe5]), Ok(Instruction::PUSH(Pair::H)));
    assert_eq!(decode(&[0xf5]), Ok(Instruction::PUSHPSW));
    assert_eq!(decode(&[0xc1]), Ok(Instruction::POP(Pair::B)));
    assert_eq!(decode(&[0xd1]), Ok(Instruction::POP(Pair::D)));
    assert_eq!(decode(&[0xe1]), Ok(Instruction::POP(Pair::H)));
    assert_eq!(decode(&[0xf1]), Ok(Instruction::POPPSW));
    assert_eq!(decode(&[0xe3]), Ok(Instruction::XTHL));
    assert_eq!(decode(&[0xf9]), Ok(Instruction::SPHL));
}

#[test]
fn increments_and_immediate_moves() {
    for (field, register) in REGISTERS {
        let bits = field << 3;
        assert_eq!(decode(&[0x04 | bits]), Ok(Instruction::INRReg(register)));
        assert_eq!(decode(&[0x05 | bits]), Ok(Instruction::DCRReg(register)));
        assert_eq!(
            decode(&[0x06 | bits, 0x80 | field]),
            Ok(Instruction::MVIReg { dest: register, src: 0x80 | field })
        );
    }
    assert_eq!(decode(&[0x34]), Ok(Instruction::INRMem));
    assert_eq!(decode(&[0x35]), Ok(Instruction::DCRMem));
    assert_eq!(decode(&[0x36, 0x7f]), Ok(Instruction::MVIMem { src: 0x7f }));
}

#[test]
fn accumulator_operations_with_a_register() {
    for (field, register) in REGISTERS {
        assert_eq!(decode(&[0x80 | field]), Ok(Instruction::ADDReg(register)));
        assert_eq!(decode(&[0x88 | field]), Ok(Instruction::ADCReg(register)));
        assert_eq!(decode(&[0x90 | field]), Ok(Instruction::SUBReg(register)));
        assert_eq!(decode(&[0x98 | field]), Ok(Instruction::SBBReg(register)));
        assert_eq!(decode(&[0xa0 | field]), Ok(Instruction::ANAReg(register)));
        assert_eq!(decode(&[0xa8 | field]), Ok(Instruction::XRAReg(register)));
        assert_eq!(decode(&[0xb0 | field]), Ok(Instruction::ORAReg(register)));
        assert_eq!(decode(&[0xb8 | field]), Ok(Instruction::CMPReg(register)));
    }
}

#[test]
fn accumulator_operations_with_memory() {
    assert_eq!(decode(&[0x86]), Ok(Instruction::ADDMem));
    assert_eq!(decode(&[0x8e]), Ok(Instruction::ADCMem));
    assert_eq!(decode(&[0x96]), Ok(Instruction::SUBMem));
    assert_eq!(decode(&[0x9e]), Ok(Instruction::SBBMem));
    assert_eq!(decode(&[0xa6]), Ok(Instruction::ANAMem));
    assert_eq!(decode(&[0xae]), Ok(Instruction::XRAMem));
    assert_eq!(decode(&[0xb6]), Ok(Instruction::ORAMem));
    assert_eq!(decode(&[0xbe]), Ok(Instruction::CMPMem));
}

#[test]
fn accumulator_operations_with_an_immediate() {
    assert_eq!(decode(&[0xc6, 0x01]), Ok(Instruction::ADI(0x01)));
    assert_eq!(decode(&[0xce, 0x02]), Ok(Instruction::ACI(0x02)));
    assert_eq!(decode(&[0xd6, 0x03]), Ok(Instruction::SUI(0x03)));
    assert_eq!(decode(&[0xde, 0x04]), Ok(Instruction::SBI(0x04)));
    assert_eq!(decode(&[0xe6, 0x05]), Ok(Instruction::ANI(0x05)));
    assert_eq!(decode(&[0xee, 0x06]), Ok(Instruction::XRI(0x06)));
    assert_eq!(decode(&[0xf6, 0x07]), Ok(Instruction::ORI(0x07)));
    assert_eq!(decode(&[0xfe, 0x08]), Ok(Instruction::CPI(0x08)));
}

#[test]
fn rotate_and_flag_group() {
    assert_eq!(decode(&[0x07]), Ok(Instruction::RLC));
    assert_eq!(decode(&[0x0f]), Ok(Instruction::RRC));
    assert_eq!(decode(&[0x17]), Ok(Instruction::RAL));
    assert_eq!(decode(&[0x1f]), Ok(Instruction::RAR));
    assert_eq!(decode(&[0x27]), Ok(Instruction::DAA));
    assert_eq!(decode(&[0x2f]), Ok(Instruction::CMA));
    assert_eq!(decode(&[0x37]), Ok(Instruction::STC));
    assert_eq!(decode(&[0x3f]), Ok(Instruction::CMC));
}

#[test]
fn control_transfer() {
    assert_eq!(decode(&[0xc9]), Ok(Instruction::RET));
    assert_eq!(decode(&[0xe9]), Ok(Instruction::PCHL));
    for (field, condition) in CONDITIONS {
        assert_eq!(decode(&[0xc0 | (field << 3)]), Ok(Instruction::RCond(condition)));
    }
    for vector in 0u8..8 {
        assert_eq!(decode(&[0xc7 | (vector << 3)]), Ok(Instruction::RST(vector)));
    }
}

#[test]
fn io_and_machine_control() {
    assert_eq!(decode(&[0xdb, 0x10]), Ok(Instruction::IN(0x10)));
    assert_eq!(decode(&[0xd3, 0x20]), Ok(Instruction::OUT(0x20)));
    assert_eq!(decode(&[0xfb]), Ok(Instruction::EI));
    assert_eq!(decode(&[0xf3]), Ok(Instruction::DI));
    assert_eq!(decode(&[0xeb]), Ok(Instruction::XCHG));
}

#[test]
fn each_error_kind() {
    assert_eq!(decode(&[]), Err(DecodeError::NoData));
    assert_eq!(decode(&[0xc3, 0x34]), Err(DecodeError::MissingTrailing(0xc3)));
    assert_eq!(decode(&[0xc3]), Err(DecodeError::MissingTrailing(0xc3)));
    assert_eq!(decode(&[0xd3]), Err(DecodeError::MissingTrailing(0xd3)));
    assert_eq!(decode(&[0xdd, 0x00, 0x00]), Err(DecodeError::UnknownOpcode(0xdd)));
}

#[test]
fn sequential_disassembly_stops_at_a_truncated_tail() {
    let program = [0x3e, 0x01, 0x21, 0x00, 0x20, 0x77, 0xc3, 0x05];
    let mut cursor = 0;
    let mut listing = Vec::new();
    let tail = loop {
        match decode(&program[cursor..]) {
            Ok(instruction) => {
                cursor += match instruction {
                    Instruction::MVIReg { .. } => 2,
                    Instruction::LXI { .. } => 3,
                    _ => 1,
                };
                listing.push(instruction);
            }
            Err(e) => break e,
        }
    };
    assert_eq!(
        listing,
        vec![
            Instruction::MVIReg { dest: Register::A, src: 0x01 },
            Instruction::LXI { dest: Pair::H, src: 0x2000 },
            Instruction::MOVRegMem { src: Register::A },
        ]
    );
    assert_eq!(cursor, 6);
    assert_eq!(tail, DecodeError::MissingTrailing(0xc3));
}
