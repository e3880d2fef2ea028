//! Decoder for Intel 8080 machine code.
//!
//! [`disas::decode`] turns the bytes at an instruction boundary into a
//! symbolic [`isa::Instruction`]. [`isa`] holds the instruction set and the
//! register, pair and condition encodings it is built from; [`encoding`]
//! gives each instruction its bytes and proves that the decoder inverts
//! that encoding.

pub mod disas;
pub mod encoding;
pub mod isa;
