use i8080::isa::{Condition, Pair, Register};

#[test]
fn correct_registers() {
    assert_eq!(Register::from_code(0xFF), Register::A);
    assert_eq!(Register::from_code(0), Register::B);
    assert_eq!(Register::from_code(65), Register::C);
    assert_eq!(Register::from_code(2), Register::D);
    assert_eq!(Register::from_code(99), Register::E);
    assert_eq!(Register::from_code(0xF4), Register::H);
    assert_eq!(Register::from_code(0xAD), Register::L);
}

#[test]
#[should_panic]
fn panics_on_register_6() {
    Register::from_code(70);
}

#[test]
fn correct_pairs() {
    assert_eq!(Pair::from_code(0), Pair::B);
    assert_eq!(Pair::from_code(97), Pair::D);
    assert_eq!(Pair::from_code(26), Pair::H);
    assert_eq!(Pair::from_code(0xFF), Pair::SP);
}

#[test]
fn correct_conditions() {
    assert_eq!(Condition::from_code(0), Condition::NZ);
    assert_eq!(Condition::from_code(1), Condition::Z);
    assert_eq!(Condition::from_code(2), Condition::NC);
    assert_eq!(Condition::from_code(3), Condition::C);
    assert_eq!(Condition::from_code(4), Condition::PO);
    assert_eq!(Condition::from_code(5), Condition::PE);
    assert_eq!(Condition::from_code(6), Condition::P);
    assert_eq!(Condition::from_code(7), Condition::M);
}

#[test]
fn register_table_in_field_order() {
    let expected = [
        (0u8, Register::B),
        (1, Register::C),
        (2, Register::D),
        (3, Register::E),
        (4, Register::H),
        (5, Register::L),
        (7, Register::A),
    ];
    for (field, register) in expected {
        assert_eq!(Register::from_code(field), register);
    }
}

#[test]
fn resolvers_ignore_high_bits() {
    for high in 0u8..32 {
        let bits = high << 3;
        for field in 0u8..8 {
            if field != 6 {
                assert_eq!(Register::from_code(bits | field), Register::from_code(field));
            }
            assert_eq!(Condition::from_code(bits | field), Condition::from_code(field));
        }
    }
    for high in 0u8..64 {
        let bits = high << 2;
        for field in 0u8..4 {
            assert_eq!(Pair::from_code(bits | field), Pair::from_code(field));
        }
    }
}
