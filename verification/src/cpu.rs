use vstd::prelude::*;
use crate::mmu::{spec_mmu_wf, spec_rb, spec_wb, MmuView, MMU};
use crate::registers::{Flag, Registers};
use crate::timer::spec_tick_n;
use crate::interrupts::IntReq;

verus! {

/// One decoded LR35902 instruction, parameterized by its operand tags.
#[derive(Debug, Copy, Clone, PartialEq, Eq, Structural)]
pub enum Instruction {
    LD(Target, Target),
    XOR(Target),
    OR(Target),
    AND(Target),
    INC(Target),
    DEC(Target),
    BIT(u8, Target),
    RES(u8, Target),
    SET(u8, Target),
    SWAP(Target),
    JR(JumpFlag),
    JP(JumpFlag),
    CALL(JumpFlag),
    RET(JumpFlag),
    PUSH(Target),
    POP(Target),
    RST(u8),
    RL(Target),
    RLC(Target),
    RRC(Target),
    RR(Target),
    SLA(Target),
    SRA(Target),
    SRL(Target),
    RLA,
    RLCA,
    RRCA,
    RRA,
    CP(Target),
    SUB(Target),
    SBC(Target),
    ADD(Target),
    ADC(Target),
    ADDHL(Target),
    ADDSP,
    CPL,
    SCF,
    CCF,
    NOP,
    STOP,
    HALT,
    DAA,
    DI,
    EI,
    RETI,
    NULL,
}

/// An operand tag: a register, a register pair, an immediate, a high-page
/// or indirect form, or the post-increment and post-decrement HL forms.
/// `AtHL` marks the memory cell at HL for INC and DEC.
#[derive(Debug, Copy, Clone, PartialEq, Eq, Structural)]
pub enum Target {
    A,
    AF,
    B,
    C,
    BC,
    D,
    E,
    DE,
    H,
    L,
    HL,
    HLI,
    HLD,
    SP,
    IMM8,
    IMM16,
    FFC,
    FFIMM8,
    AtHL,
}

/// The condition of a jump, call or return: unconditional, one of the four
/// flag conditions, or the jump-to-HL form.
#[derive(Debug, Copy, Clone, PartialEq, Eq, Structural)]
pub enum JumpFlag {
    A,
    NZ,
    Z,
    NC,
    C,
    AtHL,
}

/// Why the CPU stopped: an unused primary opcode was fetched, the STOP
/// instruction was executed, or an instruction carried an operand tag that
/// no encoding produces.
#[derive(Debug, Copy, Clone, PartialEq, Eq, Structural)]
pub enum CpuError {
    NullOpcode,
    Stop,
    BadOperand,
}

/// The primary decode table. The eleven unused opcodes decode to `NULL`;
/// so does 0xCB, which is not an instruction but the prefix of the second
/// table.
pub open spec fn spec_decode(opcode: u8) -> Instruction {
    match opcode {
        0x00 => Instruction::NOP,
        0x01 => Instruction::LD(Target::BC, Target::IMM16),
        0x02 => Instruction::LD(Target::BC, Target::A),
        0x03 => Instruction::INC(Target::BC),
        0x04 => Instruction::INC(Target::B),
        0x05 => Instruction::DEC(Target::B),
        0x06 => Instruction::LD(Target::B, Target::IMM8),
        0x07 => Instruction::RLCA,
        0x08 => Instruction::LD(Target::IMM16, Target::SP),
        0x09 => Instruction::ADDHL(Target::BC),
        0x0A => Instruction::LD(Target::A, Target::BC),
        0x0B => Instruction::DEC(Target::BC),
        0x0C => Instruction::INC(Target::C),
        0x0D => Instruction::DEC(Target::C),
        0x0E => Instruction::LD(Target::C, Target::IMM8),
        0x0F => Instruction::RRCA,
        0x10 => Instruction::STOP,
        0x11 => Instruction::LD(Target::DE, Target::IMM16),
        0x12 => Instruction::LD(Target::DE, Target::A),
        0x13 => Instruction::INC(Target::DE),
        0x14 => Instruction::INC(Target::D),
        0x15 => Instruction::DEC(Target::D),
        0x16 => Instruction::LD(Target::D, Target::IMM8),
        0x17 => Instruction::RLA,
        0x18 => Instruction::JR(JumpFlag::A),
        0x19 => Instruction::ADDHL(Target::DE),
        0x1A => Instruction::LD(Target::A, Target::DE),
        0x1B => Instruction::DEC(Target::DE),
        0x1C => Instruction::INC(Target::E),
        0x1D => Instruction::DEC(Target::E),
        0x1E => Instruction::LD(Target::E, Target::IMM8),
        0x1F => Instruction::RRA,
        0x20 => Instruction::JR(JumpFlag::NZ),
        0x21 => Instruction::LD(Target::HL, Target::IMM16),
        0x22 => Instruction::LD(Target::HLI, Target::A),
        0x23 => Instruction::INC(Target::HL),
        0x24 => Instruction::INC(Target::H),
        0x25 => Instruction::DEC(Target::H),
        0x26 => Instruction::LD(Target::H, Target::IMM8),
        0x27 => Instruction::DAA,
        0x28 => Instruction::JR(JumpFlag::Z),
        0x29 => Instruction::ADDHL(Target::HL),
        0x2A => Instruction::LD(Target::A, Target::HLI),
        0x2B => Instruction::DEC(Target::HL),
        0x2C => Instruction::INC(Target::L),
        0x2D => Instruction::DEC(Target::L),
        0x2E => Instruction::LD(Target::L, Target::IMM8),
        0x2F => Instruction::CPL,
        0x30 => Instruction::JR(JumpFlag::NC),
        0x31 => Instruction::LD(Target::SP, Target::IMM16),
        0x32 => Instruction::LD(Target::HLD, Target::A),
        0x33 => Instruction::INC(Target::SP),
        0x34 => Instruction::INC(Target::AtHL),
        0x35 => Instruction::DEC(Target::AtHL),
        0x36 => Instruction::LD(Target::HL, Target::IMM8),
        0x37 => Instruction::SCF,
        0x38 => Instruction::JR(JumpFlag::C),
        0x39 => Instruction::ADDHL(Target::SP),
        0x3A => Instruction::LD(Target::A, Target::HLD),
        0x3B => Instruction::DEC(Target::SP),
        0x3C => Instruction::INC(Target::A),
        0x3D => Instruction::DEC(Target::A),
        0x3E => Instruction::LD(Target::A, Target::IMM8),
        0x3F => Instruction::CCF,
        0x40 => Instruction::LD(Target::B, Target::B),
        0x41 => Instruction::LD(Target::B, Target::C),
        0x42 => Instruction::LD(Target::B, Target::D),
        0x43 => Instruction::LD(Target::B, Target::E),
        0x44 => Instruction::LD(Target::B, Target::H),
        0x45 => Instruction::LD(Target::B, Target::L),
        0x46 => Instruction::LD(Target::B, Target::HL),
        0x47 => Instruction::LD(Target::B, Target::A),
        0x48 => Instruction::LD(Target::C, Target::B),
        0x49 => Instruction::LD(Target::C, Target::C),
        0x4A => Instruction::LD(Target::C, Target::D),
        0x4B => Instruction::LD(Target::C, Target::E),
        0x4C => Instruction::LD(Target::C, Target::H),
        0x4D => Instruction::LD(Target::C, Target::L),
        0x4E => Instruction::LD(Target::C, Target::HL),
        0x4F => Instruction::LD(Target::C, Target::A),
        0x50 => Instruction::LD(Target::D, Target::B),
        0x51 => Instruction::LD(Target::D, Target::C),
        0x52 => Instruction::LD(Target::D, Target::D),
        0x53 => Instruction::LD(Target::D, Target::E),
        0x54 => Instruction::LD(Target::D, Target::H),
        0x55 => Instruction::LD(Target::D, Target::L),
        0x56 => Instruction::LD(Target::D, Target::HL),
        0x57 => Instruction::LD(Target::D, Target::A),
        0x58 => Instruction::LD(Target::E, Target::B),
        0x59 => Instruction::LD(Target::E, Target::C),
        0x5A => Instruction::LD(Target::E, Target::D),
        0x5B => Instruction::LD(Target::E, Target::E),
        0x5C => Instruction::LD(Target::E, Target::H),
        0x5D => Instruction::LD(Target::E, Target::L),
        0x5E => Instruction::LD(Target::E, Target::HL),
        0x5F => Instruction::LD(Target::E, Target::A),
        0x60 => Instruction::LD(Target::H, Target::B),
        0x61 => Instruction::LD(Target::H, Target::C),
        0x62 => Instruction::LD(Target::H, Target::D),
        0x63 => Instruction::LD(Target::H, Target::E),
        0x64 => Instruction::LD(Target::H, Target::H),
        0x65 => Instruction::LD(Target::H, Target::L),
        0x66 => Instruction::LD(Target::H, Target::HL),
        0x67 => Instruction::LD(Target::H, Target::A),
        0x68 => Instruction::LD(Target::L, Target::B),
        0x69 => Instruction::LD(Target::L, Target::C),
        0x6A => Instruction::LD(Target::L, Target::D),
        0x6B => Instruction::LD(Target::L, Target::E),
        0x6C => Instruction::LD(Target::L, Target::H),
        0x6D => Instruction::LD(Target::L, Target::L),
        0x6E => Instruction::LD(Target::L, Target::HL),
        0x6F => Instruction::LD(Target::L, Target::A),
        0x70 => Instruction::LD(Target::HL, Target::B),
        0x71 => Instruction::LD(Target::HL, Target::C),
        0x72 => Instruction::LD(Target::HL, Target::D),
        0x73 => Instruction::LD(Target::HL, Target::E),
        0x74 => Instruction::LD(Target::HL, Target::H),
        0x75 => Instruction::LD(Target::HL, Target::L),
        0x76 => Instruction::HALT,
        0x77 => Instruction::LD(Target::HL, Target::A),
        0x78 => Instruction::LD(Target::A, Target::B),
        0x79 => Instruction::LD(Target::A, Target::C),
        0x7A => Instruction::LD(Target::A, Target::D),
        0x7B => Instruction::LD(Target::A, Target::E),
        0x7C => Instruction::LD(Target::A, Target::H),
        0x7D => Instruction::LD(Target::A, Target::L),
        0x7E => Instruction::LD(Target::A, Target::HL),
        0x7F => Instruction::LD(Target::A, Target::A),
        0x80 => Instruction::ADD(Target::B),
        0x81 => Instruction::ADD(Target::C),
        0x82 => Instruction::ADD(Target::D),
        0x83 => Instruction::ADD(Target::E),
        0x84 => Instruction::ADD(Target::H),
        0x85 => Instruction::ADD(Target::L),
        0x86 => Instruction::ADD(Target::HL),
        0x87 => Instruction::ADD(Target::A),
        0x88 => Instruction::ADC(Target::B),
        0x89 => Instruction::ADC(Target::C),
        0x8A => Instruction::ADC(Target::D),
        0x8B => Instruction::ADC(Target::E),
        0x8C => Instruction::ADC(Target::H),
        0x8D => Instruction::ADC(Target::L),
        0x8E => Instruction::ADC(Target::HL),
        0x8F => Instruction::ADC(Target::A),
        0x90 => Instruction::SUB(Target::B),
        0x91 => Instruction::SUB(Target::C),
        0x92 => Instruction::SUB(Target::D),
        0x93 => Instruction::SUB(Target::E),
        0x94 => Instruction::SUB(Target::H),
        0x95 => Instruction::SUB(Target::L),
        0x96 => Instruction::SUB(Target::HL),
        0x97 => Instruction::SUB(Target::A),
        0x98 => Instruction::SBC(Target::B),
        0x99 => Instruction::SBC(Target::C),
        0x9A => Instruction::SBC(Target::D),
        0x9B => Instruction::SBC(Target::E),
        0x9C => Instruction::SBC(Target::H),
        0x9D => Instruction::SBC(Target::L),
        0x9E => Instruction::SBC(Target::HL),
        0x9F => Instruction::SBC(Target::A),
        0xA0 => Instruction::AND(Target::B),
        0xA1 => Instruction::AND(Target::C),
        0xA2 => Instruction::AND(Target::D),
        0xA3 => Instruction::AND(Target::E),
        0xA4 => Instruction::AND(Target::H),
        0xA5 => Instruction::AND(Target::L),
        0xA6 => Instruction::AND(Target::HL),
        0xA7 => Instruction::AND(Target::A),
        0xA8 => Instruction::XOR(Target::B),
        0xA9 => Instruction::XOR(Target::C),
        0xAA => Instruction::XOR(Target::D),
        0xAB => Instruction::XOR(Target::E),
        0xAC => Instruction::XOR(Target::H),
        0xAD => Instruction::XOR(Target::L),
        0xAE => Instruction::XOR(Target::HL),
        0xAF => Instruction::XOR(Target::A),
        0xB0 => Instruction::OR(Target::B),
        0xB1 => Instruction::OR(Target::C),
        0xB2 => Instruction::OR(Target::D),
        0xB3 => Instruction::OR(Target::E),
        0xB4 => Instruction::OR(Target::H),
        0xB5 => Instruction::OR(Target::L),
        0xB6 => Instruction::OR(Target::HL),
        0xB7 => Instruction::OR(Target::A),
        0xB8 => Instruction::CP(Target::B),
        0xB9 => Instruction::CP(Target::C),
        0xBA => Instruction::CP(Target::D),
        0xBB => Instruction::CP(Target::E),
        0xBC => Instruction::CP(Target::H),
        0xBD => Instruction::CP(Target::L),
        0xBE => Instruction::CP(Target::HL),
        0xBF => Instruction::CP(Target::A),
        0xC0 => Instruction::RET(JumpFlag::NZ),
        0xC1 => Instruction::POP(Target::BC),
        0xC2 => Instruction::JP(JumpFlag::NZ),
        0xC3 => Instruction::JP(JumpFlag::A),
        0xC4 => Instruction::CALL(JumpFlag::NZ),
        0xC5 => Instruction::PUSH(Target::BC),
        0xC6 => Instruction::ADD(Target::IMM8),
        0xC7 => Instruction::RST(0x00),
        0xC8 => Instruction::RET(JumpFlag::Z),
        0xC9 => Instruction::RET(JumpFlag::A),
        0xCA => Instruction::JP(JumpFlag::Z),
        0xCB => Instruction::NULL,
        0xCC => Instruction::CALL(JumpFlag::Z),
        0xCD => Instruction::CALL(JumpFlag::A),
        0xCE => Instruction::ADC(Target::IMM8),
        0xCF => Instruction::RST(0x08),
        0xD0 => Instruction::RET(JumpFlag::NC),
        0xD1 => Instruction::POP(Target::DE),
        0xD2 => Instruction::JP(JumpFlag::NC),
        0xD3 => Instruction::NULL,
        0xD4 => Instruction::CALL(JumpFlag::NC),
        0xD5 => Instruction::PUSH(Target::DE),
        0xD6 => Instruction::SUB(Target::IMM8),
        0xD7 => Instruction::RST(0x10),
        0xD8 => Instruction::RET(JumpFlag::C),
        0xD9 => Instruction::RETI,
        0xDA => Instruction::JP(JumpFlag::C),
        0xDB => Instruction::NULL,
        0xDC => Instruction::CALL(JumpFlag::C),
        0xDD => Instruction::NULL,
        0xDE => Instruction::SBC(Target::IMM8),
        0xDF => Instruction::RST(0x18),
        0xE0 => Instruction::LD(Target::FFIMM8, Target::A),
        0xE1 => Instruction::POP(Target::HL),
        0xE2 => Instruction::LD(Target::FFC, Target::A),
        0xE3 => Instruction::NULL,
        0xE4 => Instruction::NULL,
        0xE5 => Instruction::PUSH(Target::HL),
        0xE6 => Instruction::AND(Target::IMM8),
        0xE7 => Instruction::RST(0x20),
        0xE8 => Instruction::ADDSP,
        0xE9 => Instruction::JP(JumpFlag::AtHL),
        0xEA => Instruction::LD(Target::IMM16, Target::A),
        0xEB => Instruction::NULL,
        0xEC => Instruction::NULL,
        0xED => Instruction::NULL,
        0xEE => Instruction::XOR(Target::IMM8),
        0xEF => Instruction::RST(0x28),
        0xF0 => Instruction::LD(Target::A, Target::FFIMM8),
        0xF1 => Instruction::POP(Target::AF),
        0xF2 => Instruction::LD(Target::A, Target::FFC),
        0xF3 => Instruction::DI,
        0xF4 => Instruction::NULL,
        0xF5 => Instruction::PUSH(Target::AF),
        0xF6 => Instruction::OR(Target::IMM8),
        0xF7 => Instruction::RST(0x30),
        0xF8 => Instruction::LD(Target::HL, Target::SP),
        0xF9 => Instruction::LD(Target::SP, Target::HL),
        0xFA => Instruction::LD(Target::A, Target::IMM16),
        0xFB => Instruction::EI,
        0xFC => Instruction::NULL,
        0xFD => Instruction::NULL,
        0xFE => Instruction::CP(Target::IMM8),
        0xFF => Instruction::RST(0x38),
    }
}

/// The prefix (0xCB) decode table: rotates, shifts, SWAP, and the three
/// bit-indexed families over the eight operand slots.
pub open spec fn spec_decode_cb(opcode: u8) -> Instruction {
    match opcode {
        0x00 => Instruction::RLC(Target::B),
        0x01 => Instruction::RLC(Target::C),
        0x02 => Instruction::RLC(Target::D),
        0x03 => Instruction::RLC(Target::E),
        0x04 => Instruction::RLC(Target::H),
        0x05 => Instruction::RLC(Target::L),
        0x06 => Instruction::RLC(Target::HL),
        0x07 => Instruction::RLC(Target::A),
        0x08 => Instruction::RRC(Target::B),
        0x09 => Instruction::RRC(Target::C),
        0x0A => Instruction::RRC(Target::D),
        0x0B => Instruction::RRC(Target::E),
        0x0C => Instruction::RRC(Target::H),
        0x0D => Instruction::RRC(Target::L),
        0x0E => Instruction::RRC(Target::HL),
        0x0F => Instruction::RRC(Target::A),
        0x10 => Instruction::RL(Target::B),
        0x11 => Instruction::RL(Target::C),
        0x12 => Instruction::RL(Target::D),
        0x13 => Instruction::RL(Target::E),
        0x14 => Instruction::RL(Target::H),
        0x15 => Instruction::RL(Target::L),
        0x16 => Instruction::RL(Target::HL),
        0x17 => Instruction::RL(Target::A),
        0x18 => Instruction::RR(Target::B),
        0x19 => Instruction::RR(Target::C),
        0x1A => Instruction::RR(Target::D),
        0x1B => Instruction::RR(Target::E),
        0x1C => Instruction::RR(Target::H),
        0x1D => Instruction::RR(Target::L),
        0x1E => Instruction::RR(Target::HL),
        0x1F => Instruction::RR(Target::A),
        0x20 => Instruction::SLA(Target::B),
        0x21 => Instruction::SLA(Target::C),
        0x22 => Instruction::SLA(Target::D),
        0x23 => Instruction::SLA(Target::E),
        0x24 => Instruction::SLA(Target::H),
        0x25 => Instruction::SLA(Target::L),
        0x26 => Instruction::SLA(Target::HL),
        0x27 => Instruction::SLA(Target::A),
        0x28 => Instruction::SRA(Target::B),
        0x29 => Instruction::SRA(Target::C),
        0x2A => Instruction::SRA(Target::D),
        0x2B => Instruction::SRA(Target::E),
        0x2C => Instruction::SRA(Target::H),
        0x2D => Instruction::SRA(Target::L),
        0x2E => Instruction::SRA(Target::HL),
        0x2F => Instruction::SRA(Target::A),
        0x30 => Instruction::SWAP(Target::B),
        0x31 => Instruction::SWAP(Target::C),
        0x32 => Instruction::SWAP(Target::D),
        0x33 => Instruction::SWAP(Target::E),
        0x34 => Instruction::SWAP(Target::H),
        0x35 => Instruction::SWAP(Target::L),
        0x36 => Instruction::SWAP(Target::HL),
        0x37 => Instruction::SWAP(Target::A),
        0x38 => Instruction::SRL(Target::B),
        0x39 => Instruction::SRL(Target::C),
        0x3A => Instruction::SRL(Target::D),
        0x3B => Instruction::SRL(Target::E),
        0x3C => Instruction::SRL(Target::H),
        0x3D => Instruction::SRL(Target::L),
        0x3E => Instruction::SRL(Target::HL),
        0x3F => Instruction::SRL(Target::A),
        0x40 => Instruction::BIT(0, Target::B),
        0x41 => Instruction::BIT(0, Target::C),
        0x42 => Instruction::BIT(0, Target::D),
        0x43 => Instruction::BIT(0, Target::E),
        0x44 => Instruction::BIT(0, Target::H),
        0x45 => Instruction::BIT(0, Target::L),
        0x46 => Instruction::BIT(0, Target::HL),
        0x47 => Instruction::BIT(0, Target::A),
        0x48 => Instruction::BIT(1, Target::B),
        0x49 => Instruction::BIT(1, Target::C),
        0x4A => Instruction::BIT(1, Target::D),
        0x4B => Instruction::BIT(1, Target::E),
        0x4C => Instruction::BIT(1, Target::H),
        0x4D => Instruction::BIT(1, Target::L),
        0x4E => Instruction::BIT(1, Target::HL),
        0x4F => Instruction::BIT(1, Target::A),
        0x50 => Instruction::BIT(2, Target::B),
        0x51 => Instruction::BIT(2, Target::C),
        0x52 => Instruction::BIT(2, Target::D),
        0x53 => Instruction::BIT(2, Target::E),
        0x54 => Instruction::BIT(2, Target::H),
        0x55 => Instruction::BIT(2, Target::L),
        0x56 => Instruction::BIT(2, Target::HL),
        0x57 => Instruction::BIT(2, Target::A),
        0x58 => Instruction::BIT(3, Target::B),
        0x59 => Instruction::BIT(3, Target::C),
        0x5A => Instruction::BIT(3, Target::D),
        0x5B => Instruction::BIT(3, Target::E),
        0x5C => Instruction::BIT(3, Target::H),
        0x5D => Instruction::BIT(3, Target::L),
        0x5E => Instruction::BIT(3, Target::HL),
        0x5F => Instruction::BIT(3, Target::A),
        0x60 => Instruction::BIT(4, Target::B),
        0x61 => Instruction::BIT(4, Target::C),
        0x62 => Instruction::BIT(4, Target::D),
        0x63 => Instruction::BIT(4, Target::E),
        0x64 => Instruction::BIT(4, Target::H),
        0x65 => Instruction::BIT(4, Target::L),
        0x66 => Instruction::BIT(4, Target::HL),
        0x67 => Instruction::BIT(4, Target::A),
        0x68 => Instruction::BIT(5, Target::B),
        0x69 => Instruction::BIT(5, Target::C),
        0x6A => Instruction::BIT(5, Target::D),
        0x6B => Instruction::BIT(5, Target::E),
        0x6C => Instruction::BIT(5, Target::H),
        0x6D => Instruction::BIT(5, Target::L),
        0x6E => Instruction::BIT(5, Target::HL),
        0x6F => Instruction::BIT(5, Target::A),
        0x70 => Instruction::BIT(6, Target::B),
        0x71 => Instruction::BIT(6, Target::C),
        0x72 => Instruction::BIT(6, Target::D),
        0x73 => Instruction::BIT(6, Target::E),
        0x74 => Instruction::BIT(6, Target::H),
        0x75 => Instruction::BIT(6, Target::L),
        0x76 => Instruction::BIT(6, Target::HL),
        0x77 => Instruction::BIT(6, Target::A),
        0x78 => Instruction::BIT(7, Target::B),
        0x79 => Instruction::BIT(7, Target::C),
        0x7A => Instruction::BIT(7, Target::D),
        0x7B => Instruction::BIT(7, Target::E),
        0x7C => Instruction::BIT(7, Target::H),
        0x7D => Instruction::BIT(7, Target::L),
        0x7E => Instruction::BIT(7, Target::HL),
        0x7F => Instruction::BIT(7, Target::A),
        0x80 => Instruction::RES(0, Target::B),
        0x81 => Instruction::RES(0, Target::C),
        0x82 => Instruction::RES(0, Target::D),
        0x83 => Instruction::RES(0, Target::E),
        0x84 => Instruction::RES(0, Target::H),
        0x85 => Instruction::RES(0, Target::L),
        0x86 => Instruction::RES(0, Target::HL),
        0x87 => Instruction::RES(0, Target::A),
        0x88 => Instruction::RES(1, Target::B),
        0x89 => Instruction::RES(1, Target::C),
        0x8A => Instruction::RES(1, Target::D),
        0x8B => Instruction::RES(1, Target::E),
        0x8C => Instruction::RES(1, Target::H),
        0x8D => Instruction::RES(1, Target::L),
        0x8E => Instruction::RES(1, Target::HL),
        0x8F => Instruction::RES(1, Target::A),
        0x90 => Instruction::RES(2, Target::B),
        0x91 => Instruction::RES(2, Target::C),
        0x92 => Instruction::RES(2, Target::D),
        0x93 => Instruction::RES(2, Target::E),
        0x94 => Instruction::RES(2, Target::H),
        0x95 => Instruction::RES(2, Target::L),
        0x96 => Instruction::RES(2, Target::HL),
        0x97 => Instruction::RES(2, Target::A),
        0x98 => Instruction::RES(3, Target::B),
        0x99 => Instruction::RES(3, Target::C),
        0x9A => Instruction::RES(3, Target::D),
        0x9B => Instruction::RES(3, Target::E),
        0x9C => Instruction::RES(3, Target::H),
        0x9D => Instruction::RES(3, Target::L),
        0x9E => Instruction::RES(3, Target::HL),
        0x9F => Instruction::RES(3, Target::A),
        0xA0 => Instruction::RES(4, Target::B),
        0xA1 => Instruction::RES(4, Target::C),
        0xA2 => Instruction::RES(4, Target::D),
        0xA3 => Instruction::RES(4, Target::E),
        0xA4 => Instruction::RES(4, Target::H),
        0xA5 => Instruction::RES(4, Target::L),
        0xA6 => Instruction::RES(4, Target::HL),
        0xA7 => Instruction::RES(4, Target::A),
        0xA8 => Instruction::RES(5, Target::B),
        0xA9 => Instruction::RES(5, Target::C),
        0xAA => Instruction::RES(5, Target::D),
        0xAB => Instruction::RES(5, Target::E),
        0xAC => Instruction::RES(5, Target::H),
        0xAD => Instruction::RES(5, Target::L),
        0xAE => Instruction::RES(5, Target::HL),
        0xAF => Instruction::RES(5, Target::A),
        0xB0 => Instruction::RES(6, Target::B),
        0xB1 => Instruction::RES(6, Target::C),
        0xB2 => Instruction::RES(6, Target::D),
        0xB3 => Instruction::RES(6, Target::E),
        0xB4 => Instruction::RES(6, Target::H),
        0xB5 => Instruction::RES(6, Target::L),
        0xB6 => Instruction::RES(6, Target::HL),
        0xB7 => Instruction::RES(6, Target::A),
        0xB8 => Instruction::RES(7, Target::B),
        0xB9 => Instruction::RES(7, Target::C),
        0xBA => Instruction::RES(7, Target::D),
        0xBB => Instruction::RES(7, Target::E),
        0xBC => Instruction::RES(7, Target::H),
        0xBD => Instruction::RES(7, Target::L),
        0xBE => Instruction::RES(7, Target::HL),
        0xBF => Instruction::RES(7, Target::A),
        0xC0 => Instruction::SET(0, Target::B),
        0xC1 => Instruction::SET(0, Target::C),
        0xC2 => Instruction::SET(0, Target::D),
        0xC3 => Instruction::SET(0, Target::E),
        0xC4 => Instruction::SET(0, Target::H),
        0xC5 => Instruction::SET(0, Target::L),
        0xC6 => Instruction::SET(0, Target::HL),
        0xC7 => Instruction::SET(0, Target::A),
        0xC8 => Instruction::SET(1, Target::B),
        0xC9 => Instruction::SET(1, Target::C),
        0xCA => Instruction::SET(1, Target::D),
        0xCB => Instruction::SET(1, Target::E),
        0xCC => Instruction::SET(1, Target::H),
        0xCD => Instruction::SET(1, Target::L),
        0xCE => Instruction::SET(1, Target::HL),
        0xCF => Instruction::SET(1, Target::A),
        0xD0 => Instruction::SET(2, Target::B),
        0xD1 => Instruction::SET(2, Target::C),
        0xD2 => Instruction::SET(2, Target::D),
        0xD3 => Instruction::SET(2, Target::E),
        0xD4 => Instruction::SET(2, Target::H),
        0xD5 => Instruction::SET(2, Target::L),
        0xD6 => Instruction::SET(2, Target::HL),
        0xD7 => Instruction::SET(2, Target::A),
        0xD8 => Instruction::SET(3, Target::B),
        0xD9 => Instruction::SET(3, Target::C),
        0xDA => Instruction::SET(3, Target::D),
        0xDB => Instruction::SET(3, Target::E),
        0xDC => Instruction::SET(3, Target::H),
        0xDD => Instruction::SET(3, Target::L),
        0xDE => Instruction::SET(3, Target::HL),
        0xDF => Instruction::SET(3, Target::A),
        0xE0 => Instruction::SET(4, Target::B),
        0xE1 => Instruction::SET(4, Target::C),
        0xE2 => Instruction::SET(4, Target::D),
        0xE3 => Instruction::SET(4, Target::E),
        0xE4 => Instruction::SET(4, Target::H),
        0xE5 => Instruction::SET(4, Target::L),
        0xE6 => Instruction::SET(4, Target::HL),
        0xE7 => Instruction::SET(4, Target::A),
        0xE8 => Instruction::SET(5, Target::B),
        0xE9 => Instruction::SET(5, Target::C),
        0xEA => Instruction::SET(5, Target::D),
        0xEB => Instruction::SET(5, Target::E),
        0xEC => Instruction::SET(5, Target::H),
        0xED => Instruction::SET(5, Target::L),
        0xEE => Instruction::SET(5, Target::HL),
        0xEF => Instruction::SET(5, Target::A),
        0xF0 => Instruction::SET(6, Target::B),
        0xF1 => Instruction::SET(6, Target::C),
        0xF2 => Instruction::SET(6, Target::D),
        0xF3 => Instruction::SET(6, Target::E),
        0xF4 => Instruction::SET(6, Target::H),
        0xF5 => Instruction::SET(6, Target::L),
        0xF6 => Instruction::SET(6, Target::HL),
        0xF7 => Instruction::SET(6, Target::A),
        0xF8 => Instruction::SET(7, Target::B),
        0xF9 => Instruction::SET(7, Target::C),
        0xFA => Instruction::SET(7, Target::D),
        0xFB => Instruction::SET(7, Target::E),
        0xFC => Instruction::SET(7, Target::H),
        0xFD => Instruction::SET(7, Target::L),
        0xFE => Instruction::SET(7, Target::HL),
        0xFF => Instruction::SET(7, Target::A),
    }
}

/// The m-cycles of a primary opcode under the non-branching condition.
/// The unused opcodes and the prefix byte itself cost 0; HALT's cost is
/// accounted by `step` while halted.
pub open spec fn spec_clocks(opcode: u8) -> u8 {
    match opcode {
        0x00 => 1,
        0x01 => 3,
        0x02 => 2,
        0x03 => 2,
        0x04 => 1,
        0x05 => 1,
        0x06 => 2,
        0x07 => 1,
        0x08 => 5,
        0x09 => 2,
        0x0A => 2,
        0x0B => 2,
        0x0C => 1,
        0x0D => 1,
        0x0E => 2,
        0x0F => 1,
        0x10 => 0,
        0x11 => 3,
        0x12 => 2,
        0x13 => 2,
        0x14 => 1,
        0x15 => 1,
        0x16 => 2,
        0x17 => 1,
        0x18 => 3,
        0x19 => 2,
        0x1A => 2,
        0x1B => 2,
        0x1C => 1,
        0x1D => 1,
        0x1E => 2,
        0x1F => 1,
        0x20 => 2,
        0x21 => 3,
        0x22 => 2,
        0x23 => 2,
        0x24 => 1,
        0x25 => 1,
        0x26 => 2,
        0x27 => 1,
        0x28 => 2,
        0x29 => 2,
        0x2A => 2,
        0x2B => 2,
        0x2C => 1,
        0x2D => 1,
        0x2E => 2,
        0x2F => 1,
        0x30 => 2,
        0x31 => 3,
        0x32 => 2,
        0x33 => 2,
        0x34 => 3,
        0x35 => 3,
        0x36 => 3,
        0x37 => 1,
        0x38 => 2,
        0x39 => 2,
        0x3A => 2,
        0x3B => 2,
        0x3C => 1,
        0x3D => 1,
        0x3E => 2,
        0x3F => 1,
        0x40 => 1,
        0x41 => 1,
        0x42 => 1,
        0x43 => 1,
        0x44 => 1,
        0x45 => 1,
        0x46 => 2,
        0x47 => 1,
        0x48 => 1,
        0x49 => 1,
        0x4A => 1,
        0x4B => 1,
        0x4C => 1,
        0x4D => 1,
        0x4E => 2,
        0x4F => 1,
        0x50 => 1,
        0x51 => 1,
        0x52 => 1,
        0x53 => 1,
        0x54 => 1,
        0x55 => 1,
        0x56 => 2,
        0x57 => 1,
        0x58 => 1,
        0x59 => 1,
        0x5A => 1,
        0x5B => 1,
        0x5C => 1,
        0x5D => 1,
        0x5E => 2,
        0x5F => 1,
        0x60 => 1,
        0x61 => 1,
        0x62 => 1,
        0x63 => 1,
        0x64 => 1,
        0x65 => 1,
        0x66 => 2,
        0x67 => 1,
        0x68 => 1,
        0x69 => 1,
        0x6A => 1,
        0x6B => 1,
        0x6C => 1,
        0x6D => 1,
        0x6E => 2,
        0x6F => 1,
        0x70 => 2,
        0x71 => 2,
        0x72 => 2,
        0x73 => 2,
        0x74 => 2,
        0x75 => 2,
        0x76 => 0,
        0x77 => 2,
        0x78 => 1,
        0x79 => 1,
        0x7A => 1,
        0x7B => 1,
        0x7C => 1,
        0x7D => 1,
        0x7E => 2,
        0x7F => 1,
        0x80 => 1,
        0x81 => 1,
        0x82 => 1,
        0x83 => 1,
        0x84 => 1,
        0x85 => 1,
        0x86 => 2,
        0x87 => 1,
        0x88 => 1,
        0x89 => 1,
        0x8A => 1,
        0x8B => 1,
        0x8C => 1,
        0x8D => 1,
        0x8E => 2,
        0x8F => 1,
        0x90 => 1,
        0x91 => 1,
        0x92 => 1,
        0x93 => 1,
        0x94 => 1,
        0x95 => 1,
        0x96 => 2,
        0x97 => 1,
        0x98 => 1,
        0x99 => 1,
        0x9A => 1,
        0x9B => 1,
        0x9C => 1,
        0x9D => 1,
        0x9E => 2,
        0x9F => 1,
        0xA0 => 1,
        0xA1 => 1,
        0xA2 => 1,
        0xA3 => 1,
        0xA4 => 1,
        0xA5 => 1,
        0xA6 => 2,
        0xA7 => 1,
        0xA8 => 1,
        0xA9 => 1,
        0xAA => 1,
        0xAB => 1,
        0xAC => 1,
        0xAD => 1,
        0xAE => 2,
        0xAF => 1,
        0xB0 => 1,
        0xB1 => 1,
        0xB2 => 1,
        0xB3 => 1,
        0xB4 => 1,
        0xB5 => 1,
        0xB6 => 2,
        0xB7 => 1,
        0xB8 => 1,
        0xB9 => 1,
        0xBA => 1,
        0xBB => 1,
        0xBC => 1,
        0xBD => 1,
        0xBE => 2,
        0xBF => 1,
        0xC0 => 2,
        0xC1 => 3,
        0xC2 => 3,
        0xC3 => 4,
        0xC4 => 3,
        0xC5 => 4,
        0xC6 => 2,
        0xC7 => 4,
        0xC8 => 2,
        0xC9 => 4,
        0xCA => 3,
        0xCB => 0,
        0xCC => 3,
        0xCD => 6,
        0xCE => 2,
        0xCF => 4,
        0xD0 => 2,
        0xD1 => 3,
        0xD2 => 3,
        0xD3 => 0,
        0xD4 => 3,
        0xD5 => 4,
        0xD6 => 2,
        0xD7 => 4,
        0xD8 => 2,
        0xD9 => 4,
        0xDA => 3,
        0xDB => 0,
        0xDC => 3,
        0xDD => 0,
        0xDE => 2,
        0xDF => 4,
        0xE0 => 3,
        0xE1 => 3,
        0xE2 => 2,
        0xE3 => 0,
        0xE4 => 0,
        0xE5 => 4,
        0xE6 => 2,
        0xE7 => 4,
        0xE8 => 4,
        0xE9 => 1,
        0xEA => 4,
        0xEB => 0,
        0xEC => 0,
        0xED => 0,
        0xEE => 2,
        0xEF => 4,
        0xF0 => 3,
        0xF1 => 3,
        0xF2 => 2,
        0xF3 => 1,
        0xF4 => 0,
        0xF5 => 4,
        0xF6 => 2,
        0xF7 => 4,
        0xF8 => 3,
        0xF9 => 2,
        0xFA => 4,
        0xFB => 1,
        0xFC => 0,
        0xFD => 0,
        0xFE => 2,
        0xFF => 4,
    }
}

/// The m-cycles of a prefix opcode: 2 for register forms, 4 for the (HL)
/// forms, except 3 for the (HL) forms of BIT.
pub open spec fn spec_cb_clocks(opcode: u8) -> u8 {
    if opcode & 0x07 == 0x06 {
        if 0x40 <= opcode && opcode <= 0x7F {
            3u8
        } else {
            4u8
        }
    } else {
        2u8
    }
}

/// The m-cycles of a primary opcode.
pub fn clocks(opcode: u8) -> (r: u8)
    ensures
        r == spec_clocks(opcode),
        r <= 6,
{
    match opcode {
        0x00 => 1,
        0x01 => 3,
        0x02 => 2,
        0x03 => 2,
        0x04 => 1,
        0x05 => 1,
        0x06 => 2,
        0x07 => 1,
        0x08 => 5,
        0x09 => 2,
        0x0A => 2,
        0x0B => 2,
        0x0C => 1,
        0x0D => 1,
        0x0E => 2,
        0x0F => 1,
        0x10 => 0,
        0x11 => 3,
        0x12 => 2,
        0x13 => 2,
        0x14 => 1,
        0x15 => 1,
        0x16 => 2,
        0x17 => 1,
        0x18 => 3,
        0x19 => 2,
        0x1A => 2,
        0x1B => 2,
        0x1C => 1,
        0x1D => 1,
        0x1E => 2,
        0x1F => 1,
        0x20 => 2,
        0x21 => 3,
        0x22 => 2,
        0x23 => 2,
        0x24 => 1,
        0x25 => 1,
        0x26 => 2,
        0x27 => 1,
        0x28 => 2,
        0x29 => 2,
        0x2A => 2,
        0x2B => 2,
        0x2C => 1,
        0x2D => 1,
        0x2E => 2,
        0x2F => 1,
        0x30 => 2,
        0x31 => 3,
        0x32 => 2,
        0x33 => 2,
        0x34 => 3,
        0x35 => 3,
        0x36 => 3,
        0x37 => 1,
        0x38 => 2,
        0x39 => 2,
        0x3A => 2,
        0x3B => 2,
        0x3C => 1,
        0x3D => 1,
        0x3E => 2,
        0x3F => 1,
        0x40 => 1,
        0x41 => 1,
        0x42 => 1,
        0x43 => 1,
        0x44 => 1,
        0x45 => 1,
        0x46 => 2,
        0x47 => 1,
        0x48 => 1,
        0x49 => 1,
        0x4A => 1,
        0x4B => 1,
        0x4C => 1,
        0x4D => 1,
        0x4E => 2,
        0x4F => 1,
        0x50 => 1,
        0x51 => 1,
        0x52 => 1,
        0x53 => 1,
        0x54 => 1,
        0x55 => 1,
        0x56 => 2,
        0x57 => 1,
        0x58 => 1,
        0x59 => 1,
        0x5A => 1,
        0x5B => 1,
        0x5C => 1,
        0x5D => 1,
        0x5E => 2,
        0x5F => 1,
        0x60 => 1,
        0x61 => 1,
        0x62 => 1,
        0x63 => 1,
        0x64 => 1,
        0x65 => 1,
        0x66 => 2,
        0x67 => 1,
        0x68 => 1,
        0x69 => 1,
        0x6A => 1,
        0x6B => 1,
        0x6C => 1,
        0x6D => 1,
        0x6E => 2,
        0x6F => 1,
        0x70 => 2,
        0x71 => 2,
        0x72 => 2,
        0x73 => 2,
        0x74 => 2,
        0x75 => 2,
        0x76 => 0,
        0x77 => 2,
        0x78 => 1,
        0x79 => 1,
        0x7A => 1,
        0x7B => 1,
        0x7C => 1,
        0x7D => 1,
        0x7E => 2,
        0x7F => 1,
        0x80 => 1,
        0x81 => 1,
        0x82 => 1,
        0x83 => 1,
        0x84 => 1,
        0x85 => 1,
        0x86 => 2,
        0x87 => 1,
        0x88 => 1,
        0x89 => 1,
        0x8A => 1,
        0x8B => 1,
        0x8C => 1,
        0x8D => 1,
        0x8E => 2,
        0x8F => 1,
        0x90 => 1,
        0x91 => 1,
        0x92 => 1,
        0x93 => 1,
        0x94 => 1,
        0x95 => 1,
        0x96 => 2,
        0x97 => 1,
        0x98 => 1,
        0x99 => 1,
        0x9A => 1,
        0x9B => 1,
        0x9C => 1,
        0x9D => 1,
        0x9E => 2,
        0x9F => 1,
        0xA0 => 1,
        0xA1 => 1,
        0xA2 => 1,
        0xA3 => 1,
        0xA4 => 1,
        0xA5 => 1,
        0xA6 => 2,
        0xA7 => 1,
        0xA8 => 1,
        0xA9 => 1,
        0xAA => 1,
        0xAB => 1,
        0xAC => 1,
        0xAD => 1,
        0xAE => 2,
        0xAF => 1,
        0xB0 => 1,
        0xB1 => 1,
        0xB2 => 1,
        0xB3 => 1,
        0xB4 => 1,
        0xB5 => 1,
        0xB6 => 2,
        0xB7 => 1,
        0xB8 => 1,
        0xB9 => 1,
        0xBA => 1,
        0xBB => 1,
        0xBC => 1,
        0xBD => 1,
        0xBE => 2,
        0xBF => 1,
        0xC0 => 2,
        0xC1 => 3,
        0xC2 => 3,
        0xC3 => 4,
        0xC4 => 3,
        0xC5 => 4,
        0xC6 => 2,
        0xC7 => 4,
        0xC8 => 2,
        0xC9 => 4,
        0xCA => 3,
        0xCB => 0,
        0xCC => 3,
        0xCD => 6,
        0xCE => 2,
        0xCF => 4,
        0xD0 => 2,
        0xD1 => 3,
        0xD2 => 3,
        0xD3 => 0,
        0xD4 => 3,
        0xD5 => 4,
        0xD6 => 2,
        0xD7 => 4,
        0xD8 => 2,
        0xD9 => 4,
        0xDA => 3,
        0xDB => 0,
        0xDC => 3,
        0xDD => 0,
        0xDE => 2,
        0xDF => 4,
        0xE0 => 3,
        0xE1 => 3,
        0xE2 => 2,
        0xE3 => 0,
        0xE4 => 0,
        0xE5 => 4,
        0xE6 => 2,
        0xE7 => 4,
        0xE8 => 4,
        0xE9 => 1,
        0xEA => 4,
        0xEB => 0,
        0xEC => 0,
        0xED => 0,
        0xEE => 2,
        0xEF => 4,
        0xF0 => 3,
        0xF1 => 3,
        0xF2 => 2,
        0xF3 => 1,
        0xF4 => 0,
        0xF5 => 4,
        0xF6 => 2,
        0xF7 => 4,
        0xF8 => 3,
        0xF9 => 2,
        0xFA => 4,
        0xFB => 1,
        0xFC => 0,
        0xFD => 0,
        0xFE => 2,
        0xFF => 4,
    }
}

/// The m-cycles of a prefix opcode.
pub fn cb_clocks(opcode: u8) -> (r: u8)
    ensures
        r == spec_cb_clocks(opcode),
        r <= 4,
{
    if opcode & 0x07 == 0x06 {
        if 0x40 <= opcode && opcode <= 0x7F {
            3
        } else {
            4
        }
    } else {
        2
    }
}

impl Instruction {
    /// Decodes a primary opcode.
    pub fn decode(opcode: u8) -> (r: Instruction)
        ensures
            r == spec_decode(opcode),
    {
        match opcode {
            0x00 => Instruction::NOP,
            0x01 => Instruction::LD(Target::BC, Target::IMM16),
            0x02 => Instruction::LD(Target::BC, Target::A),
            0x03 => Instruction::INC(Target::BC),
            0x04 => Instruction::INC(Target::B),
            0x05 => Instruction::DEC(Target::B),
            0x06 => Instruction::LD(Target::B, Target::IMM8),
            0x07 => Instruction::RLCA,
            0x08 => Instruction::LD(Target::IMM16, Target::SP),
            0x09 => Instruction::ADDHL(Target::BC),
            0x0A => Instruction::LD(Target::A, Target::BC),
            0x0B => Instruction::DEC(Target::BC),
            0x0C => Instruction::INC(Target::C),
            0x0D => Instruction::DEC(Target::C),
            0x0E => Instruction::LD(Target::C, Target::IMM8),
            0x0F => Instruction::RRCA,
            0x10 => Instruction::STOP,
            0x11 => Instruction::LD(Target::DE, Target::IMM16),
            0x12 => Instruction::LD(Target::DE, Target::A),
            0x13 => Instruction::INC(Target::DE),
            0x14 => Instruction::INC(Target::D),
            0x15 => Instruction::DEC(Target::D),
            0x16 => Instruction::LD(Target::D, Target::IMM8),
            0x17 => Instruction::RLA,
            0x18 => Instruction::JR(JumpFlag::A),
            0x19 => Instruction::ADDHL(Target::DE),
            0x1A => Instruction::LD(Target::A, Target::DE),
            0x1B => Instruction::DEC(Target::DE),
            0x1C => Instruction::INC(Target::E),
            0x1D => Instruction::DEC(Target::E),
            0x1E => Instruction::LD(Target::E, Target::IMM8),
            0x1F => Instruction::RRA,
            0x20 => Instruction::JR(JumpFlag::NZ),
            0x21 => Instruction::LD(Target::HL, Target::IMM16),
            0x22 => Instruction::LD(Target::HLI, Target::A),
            0x23 => Instruction::INC(Target::HL),
            0x24 => Instruction::INC(Target::H),
            0x25 => Instruction::DEC(Target::H),
            0x26 => Instruction::LD(Target::H, Target::IMM8),
            0x27 => Instruction::DAA,
            0x28 => Instruction::JR(JumpFlag::Z),
            0x29 => Instruction::ADDHL(Target::HL),
            0x2A => Instruction::LD(Target::A, Target::HLI),
            0x2B => Instruction::DEC(Target::HL),
            0x2C => Instruction::INC(Target::L),
            0x2D => Instruction::DEC(Target::L),
            0x2E => Instruction::LD(Target::L, Target::IMM8),
            0x2F => Instruction::CPL,
            0x30 => Instruction::JR(JumpFlag::NC),
            0x31 => Instruction::LD(Target::SP, Target::IMM16),
            0x32 => Instruction::LD(Target::HLD, Target::A),
            0x33 => Instruction::INC(Target::SP),
            0x34 => Instruction::INC(Target::AtHL),
            0x35 => Instruction::DEC(Target::AtHL),
            0x36 => Instruction::LD(Target::HL, Target::IMM8),
            0x37 => Instruction::SCF,
            0x38 => Instruction::JR(JumpFlag::C),
            0x39 => Instruction::ADDHL(Target::SP),
            0x3A => Instruction::LD(Target::A, Target::HLD),
            0x3B => Instruction::DEC(Target::SP),
            0x3C => Instruction::INC(Target::A),
            0x3D => Instruction::DEC(Target::A),
            0x3E => Instruction::LD(Target::A, Target::IMM8),
            0x3F => Instruction::CCF,
            0x40 => Instruction::LD(Target::B, Target::B),
            0x41 => Instruction::LD(Target::B, Target::C),
            0x42 => Instruction::LD(Target::B, Target::D),
            0x43 => Instruction::LD(Target::B, Target::E),
            0x44 => Instruction::LD(Target::B, Target::H),
            0x45 => Instruction::LD(Target::B, Target::L),
            0x46 => Instruction::LD(Target::B, Target::HL),
            0x47 => Instruction::LD(Target::B, Target::A),
            0x48 => Instruction::LD(Target::C, Target::B),
            0x49 => Instruction::LD(Target::C, Target::C),
            0x4A => Instruction::LD(Target::C, Target::D),
            0x4B => Instruction::LD(Target::C, Target::E),
            0x4C => Instruction::LD(Target::C, Target::H),
            0x4D => Instruction::LD(Target::C, Target::L),
            0x4E => Instruction::LD(Target::C, Target::HL),
            0x4F => Instruction::LD(Target::C, Target::A),
            0x50 => Instruction::LD(Target::D, Target::B),
            0x51 => Instruction::LD(Target::D, Target::C),
            0x52 => Instruction::LD(Target::D, Target::D),
            0x53 => Instruction::LD(Target::D, Target::E),
            0x54 => Instruction::LD(Target::D, Target::H),
            0x55 => Instruction::LD(Target::D, Target::L),
            0x56 => Instruction::LD(Target::D, Target::HL),
            0x57 => Instruction::LD(Target::D, Target::A),
            0x58 => Instruction::LD(Target::E, Target::B),
            0x59 => Instruction::LD(Target::E, Target::C),
            0x5A => Instruction::LD(Target::E, Target::D),
            0x5B => Instruction::LD(Target::E, Target::E),
            0x5C => Instruction::LD(Target::E, Target::H),
            0x5D => Instruction::LD(Target::E, Target::L),
            0x5E => Instruction::LD(Target::E, Target::HL),
            0x5F => Instruction::LD(Target::E, Target::A),
            0x60 => Instruction::LD(Target::H, Target::B),
            0x61 => Instruction::LD(Target::H, Target::C),
            0x62 => Instruction::LD(Target::H, Target::D),
            0x63 => Instruction::LD(Target::H, Target::E),
            0x64 => Instruction::LD(Target::H, Target::H),
            0x65 => Instruction::LD(Target::H, Target::L),
            0x66 => Instruction::LD(Target::H, Target::HL),
            0x67 => Instruction::LD(Target::H, Target::A),
            0x68 => Instruction::LD(Target::L, Target::B),
            0x69 => Instruction::LD(Target::L, Target::C),
            0x6A => Instruction::LD(Target::L, Target::D),
            0x6B => Instruction::LD(Target::L, Target::E),
            0x6C => Instruction::LD(Target::L, Target::H),
            0x6D => Instruction::LD(Target::L, Target::L),
            0x6E => Instruction::LD(Target::L, Target::HL),
            0x6F => Instruction::LD(Target::L, Target::A),
            0x70 => Instruction::LD(Target::HL, Target::B),
            0x71 => Instruction::LD(Target::HL, Target::C),
            0x72 => Instruction::LD(Target::HL, Target::D),
            0x73 => Instruction::LD(Target::HL, Target::E),
            0x74 => Instruction::LD(Target::HL, Target::H),
            0x75 => Instruction::LD(Target::HL, Target::L),
            0x76 => Instruction::HALT,
            0x77 => Instruction::LD(Target::HL, Target::A),
            0x78 => Instruction::LD(Target::A, Target::B),
            0x79 => Instruction::LD(Target::A, Target::C),
            0x7A => Instruction::LD(Target::A, Target::D),
            0x7B => Instruction::LD(Target::A, Target::E),
            0x7C => Instruction::LD(Target::A, Target::H),
            0x7D => Instruction::LD(Target::A, Target::L),
            0x7E => Instruction::LD(Target::A, Target::HL),
            0x7F => Instruction::LD(Target::A, Target::A),
            0x80 => Instruction::ADD(Target::B),
            0x81 => Instruction::ADD(Target::C),
            0x82 => Instruction::ADD(Target::D),
            0x83 => Instruction::ADD(Target::E),
            0x84 => Instruction::ADD(Target::H),
            0x85 => Instruction::ADD(Target::L),
            0x86 => Instruction::ADD(Target::HL),
            0x87 => Instruction::ADD(Target::A),
            0x88 => Instruction::ADC(Target::B),
            0x89 => Instruction::ADC(Target::C),
            0x8A => Instruction::ADC(Target::D),
            0x8B => Instruction::ADC(Target::E),
            0x8C => Instruction::ADC(Target::H),
            0x8D => Instruction::ADC(Target::L),
            0x8E => Instruction::ADC(Target::HL),
            0x8F => Instruction::ADC(Target::A),
            0x90 => Instruction::SUB(Target::B),
            0x91 => Instruction::SUB(Target::C),
            0x92 => Instruction::SUB(Target::D),
            0x93 => Instruction::SUB(Target::E),
            0x94 => Instruction::SUB(Target::H),
            0x95 => Instruction::SUB(Target::L),
            0x96 => Instruction::SUB(Target::HL),
            0x97 => Instruction::SUB(Target::A),
            0x98 => Instruction::SBC(Target::B),
            0x99 => Instruction::SBC(Target::C),
            0x9A => Instruction::SBC(Target::D),
            0x9B => Instruction::SBC(Target::E),
            0x9C => Instruction::SBC(Target::H),
            0x9D => Instruction::SBC(Target::L),
            0x9E => Instruction::SBC(Target::HL),
            0x9F => Instruction::SBC(Target::A),
            0xA0 => Instruction::AND(Target::B),
            0xA1 => Instruction::AND(Target::C),
            0xA2 => Instruction::AND(Target::D),
            0xA3 => Instruction::AND(Target::E),
            0xA4 => Instruction::AND(Target::H),
            0xA5 => Instruction::AND(Target::L),
            0xA6 => Instruction::AND(Target::HL),
            0xA7 => Instruction::AND(Target::A),
            0xA8 => Instruction::XOR(Target::B),
            0xA9 => Instruction::XOR(Target::C),
            0xAA => Instruction::XOR(Target::D),
            0xAB => Instruction::XOR(Target::E),
            0xAC => Instruction::XOR(Target::H),
            0xAD => Instruction::XOR(Target::L),
            0xAE => Instruction::XOR(Target::HL),
            0xAF => Instruction::XOR(Target::A),
            0xB0 => Instruction::OR(Target::B),
            0xB1 => Instruction::OR(Target::C),
            0xB2 => Instruction::OR(Target::D),
            0xB3 => Instruction::OR(Target::E),
            0xB4 => Instruction::OR(Target::H),
            0xB5 => Instruction::OR(Target::L),
            0xB6 => Instruction::OR(Target::HL),
            0xB7 => Instruction::OR(Target::A),
            0xB8 => Instruction::CP(Target::B),
            0xB9 => Instruction::CP(Target::C),
            0xBA => Instruction::CP(Target::D),
            0xBB => Instruction::CP(Target::E),
            0xBC => Instruction::CP(Target::H),
            0xBD => Instruction::CP(Target::L),
            0xBE => Instruction::CP(Target::HL),
            0xBF => Instruction::CP(Target::A),
            0xC0 => Instruction::RET(JumpFlag::NZ),
            0xC1 => Instruction::POP(Target::BC),
            0xC2 => Instruction::JP(JumpFlag::NZ),
            0xC3 => Instruction::JP(JumpFlag::A),
            0xC4 => Instruction::CALL(JumpFlag::NZ),
            0xC5 => Instruction::PUSH(Target::BC),
            0xC6 => Instruction::ADD(Target::IMM8),
            0xC7 => Instruction::RST(0x00),
            0xC8 => Instruction::RET(JumpFlag::Z),
            0xC9 => Instruction::RET(JumpFlag::A),
            0xCA => Instruction::JP(JumpFlag::Z),
            0xCB => Instruction::NULL,
            0xCC => Instruction::CALL(JumpFlag::Z),
            0xCD => Instruction::CALL(JumpFlag::A),
            0xCE => Instruction::ADC(Target::IMM8),
            0xCF => Instruction::RST(0x08),
            0xD0 => Instruction::RET(JumpFlag::NC),
            0xD1 => Instruction::POP(Target::DE),
            0xD2 => Instruction::JP(JumpFlag::NC),
            0xD3 => Instruction::NULL,
            0xD4 => Instruction::CALL(JumpFlag::NC),
            0xD5 => Instruction::PUSH(Target::DE),
            0xD6 => Instruction::SUB(Target::IMM8),
            0xD7 => Instruction::RST(0x10),
            0xD8 => Instruction::RET(JumpFlag::C),
            0xD9 => Instruction::RETI,
            0xDA => Instruction::JP(JumpFlag::C),
            0xDB => Instruction::NULL,
            0xDC => Instruction::CALL(JumpFlag::C),
            0xDD => Instruction::NULL,
            0xDE => Instruction::SBC(Target::IMM8),
            0xDF => Instruction::RST(0x18),
            0xE0 => Instruction::LD(Target::FFIMM8, Target::A),
            0xE1 => Instruction::POP(Target::HL),
            0xE2 => Instruction::LD(Target::FFC, Target::A),
            0xE3 => Instruction::NULL,
            0xE4 => Instruction::NULL,
            0xE5 => Instruction::PUSH(Target::HL),
            0xE6 => Instruction::AND(Target::IMM8),
            0xE7 => Instruction::RST(0x20),
            0xE8 => Instruction::ADDSP,
            0xE9 => Instruction::JP(JumpFlag::AtHL),
            0xEA => Instruction::LD(Target::IMM16, Target::A),
            0xEB => Instruction::NULL,
            0xEC => Instruction::NULL,
            0xED => Instruction::NULL,
            0xEE => Instruction::XOR(Target::IMM8),
            0xEF => Instruction::RST(0x28),
            0xF0 => Instruction::LD(Target::A, Target::FFIMM8),
            0xF1 => Instruction::POP(Target::AF),
            0xF2 => Instruction::LD(Target::A, Target::FFC),
            0xF3 => Instruction::DI,
            0xF4 => Instruction::NULL,
            0xF5 => Instruction::PUSH(Target::AF),
            0xF6 => Instruction::OR(Target::IMM8),
            0xF7 => Instruction::RST(0x30),
            0xF8 => Instruction::LD(Target::HL, Target::SP),
            0xF9 => Instruction::LD(Target::SP, Target::HL),
            0xFA => Instruction::LD(Target::A, Target::IMM16),
            0xFB => Instruction::EI,
            0xFC => Instruction::NULL,
            0xFD => Instruction::NULL,
            0xFE => Instruction::CP(Target::IMM8),
            0xFF => Instruction::RST(0x38),
        }
    }

    /// Decodes a prefix opcode (the byte after 0xCB).
    pub fn decode_cb(opcode: u8) -> (r: Instruction)
        ensures
            r == spec_decode_cb(opcode),
    {
        match opcode {
            0x00 => Instruction::RLC(Target::B),
            0x01 => Instruction::RLC(Target::C),
            0x02 => Instruction::RLC(Target::D),
            0x03 => Instruction::RLC(Target::E),
            0x04 => Instruction::RLC(Target::H),
            0x05 => Instruction::RLC(Target::L),
            0x06 => Instruction::RLC(Target::HL),
            0x07 => Instruction::RLC(Target::A),
            0x08 => Instruction::RRC(Target::B),
            0x09 => Instruction::RRC(Target::C),
            0x0A => Instruction::RRC(Target::D),
            0x0B => Instruction::RRC(Target::E),
            0x0C => Instruction::RRC(Target::H),
            0x0D => Instruction::RRC(Target::L),
            0x0E => Instruction::RRC(Target::HL),
            0x0F => Instruction::RRC(Target::A),
            0x10 => Instruction::RL(Target::B),
            0x11 => Instruction::RL(Target::C),
            0x12 => Instruction::RL(Target::D),
            0x13 => Instruction::RL(Target::E),
            0x14 => Instruction::RL(Target::H),
            0x15 => Instruction::RL(Target::L),
            0x16 => Instruction::RL(Target::HL),
            0x17 => Instruction::RL(Target::A),
            0x18 => Instruction::RR(Target::B),
            0x19 => Instruction::RR(Target::C),
            0x1A => Instruction::RR(Target::D),
            0x1B => Instruction::RR(Target::E),
            0x1C => Instruction::RR(Target::H),
            0x1D => Instruction::RR(Target::L),
            0x1E => Instruction::RR(Target::HL),
            0x1F => Instruction::RR(Target::A),
            0x20 => Instruction::SLA(Target::B),
            0x21 => Instruction::SLA(Target::C),
            0x22 => Instruction::SLA(Target::D),
            0x23 => Instruction::SLA(Target::E),
            0x24 => Instruction::SLA(Target::H),
            0x25 => Instruction::SLA(Target::L),
            0x26 => Instruction::SLA(Target::HL),
            0x27 => Instruction::SLA(Target::A),
            0x28 => Instruction::SRA(Target::B),
            0x29 => Instruction::SRA(Target::C),
            0x2A => Instruction::SRA(Target::D),
            0x2B => Instruction::SRA(Target::E),
            0x2C => Instruction::SRA(Target::H),
            0x2D => Instruction::SRA(Target::L),
            0x2E => Instruction::SRA(Target::HL),
            0x2F => Instruction::SRA(Target::A),
            0x30 => Instruction::SWAP(Target::B),
            0x31 => Instruction::SWAP(Target::C),
            0x32 => Instruction::SWAP(Target::D),
            0x33 => Instruction::SWAP(Target::E),
            0x34 => Instruction::SWAP(Target::H),
            0x35 => Instruction::SWAP(Target::L),
            0x36 => Instruction::SWAP(Target::HL),
            0x37 => Instruction::SWAP(Target::A),
            0x38 => Instruction::SRL(Target::B),
            0x39 => Instruction::SRL(Target::C),
            0x3A => Instruction::SRL(Target::D),
            0x3B => Instruction::SRL(Target::E),
            0x3C => Instruction::SRL(Target::H),
            0x3D => Instruction::SRL(Target::L),
            0x3E => Instruction::SRL(Target::HL),
            0x3F => Instruction::SRL(Target::A),
            0x40 => Instruction::BIT(0, Target::B),
            0x41 => Instruction::BIT(0, Target::C),
            0x42 => Instruction::BIT(0, Target::D),
            0x43 => Instruction::BIT(0, Target::E),
            0x44 => Instruction::BIT(0, Target::H),
            0x45 => Instruction::BIT(0, Target::L),
            0x46 => Instruction::BIT(0, Target::HL),
            0x47 => Instruction::BIT(0, Target::A),
            0x48 => Instruction::BIT(1, Target::B),
            0x49 => Instruction::BIT(1, Target::C),
            0x4A => Instruction::BIT(1, Target::D),
            0x4B => Instruction::BIT(1, Target::E),
            0x4C => Instruction::BIT(1, Target::H),
            0x4D => Instruction::BIT(1, Target::L),
            0x4E => Instruction::BIT(1, Target::HL),
            0x4F => Instruction::BIT(1, Target::A),
            0x50 => Instruction::BIT(2, Target::B),
            0x51 => Instruction::BIT(2, Target::C),
            0x52 => Instruction::BIT(2, Target::D),
            0x53 => Instruction::BIT(2, Target::E),
            0x54 => Instruction::BIT(2, Target::H),
            0x55 => Instruction::BIT(2, Target::L),
            0x56 => Instruction::BIT(2, Target::HL),
            0x57 => Instruction::BIT(2, Target::A),
            0x58 => Instruction::BIT(3, Target::B),
            0x59 => Instruction::BIT(3, Target::C),
            0x5A => Instruction::BIT(3, Target::D),
            0x5B => Instruction::BIT(3, Target::E),
            0x5C => Instruction::BIT(3, Target::H),
            0x5D => Instruction::BIT(3, Target::L),
            0x5E => Instruction::BIT(3, Target::HL),
            0x5F => Instruction::BIT(3, Target::A),
            0x60 => Instruction::BIT(4, Target::B),
            0x61 => Instruction::BIT(4, Target::C),
            0x62 => Instruction::BIT(4, Target::D),
            0x63 => Instruction::BIT(4, Target::E),
            0x64 => Instruction::BIT(4, Target::H),
            0x65 => Instruction::BIT(4, Target::L),
            0x66 => Instruction::BIT(4, Target::HL),
            0x67 => Instruction::BIT(4, Target::A),
            0x68 => Instruction::BIT(5, Target::B),
            0x69 => Instruction::BIT(5, Target::C),
            0x6A => Instruction::BIT(5, Target::D),
            0x6B => Instruction::BIT(5, Target::E),
            0x6C => Instruction::BIT(5, Target::H),
            0x6D => Instruction::BIT(5, Target::L),
            0x6E => Instruction::BIT(5, Target::HL),
            0x6F => Instruction::BIT(5, Target::A),
            0x70 => Instruction::BIT(6, Target::B),
            0x71 => Instruction::BIT(6, Target::C),
            0x72 => Instruction::BIT(6, Target::D),
            0x73 => Instruction::BIT(6, Target::E),
            0x74 => Instruction::BIT(6, Target::H),
            0x75 => Instruction::BIT(6, Target::L),
            0x76 => Instruction::BIT(6, Target::HL),
            0x77 => Instruction::BIT(6, Target::A),
            0x78 => Instruction::BIT(7, Target::B),
            0x79 => Instruction::BIT(7, Target::C),
            0x7A => Instruction::BIT(7, Target::D),
            0x7B => Instruction::BIT(7, Target::E),
            0x7C => Instruction::BIT(7, Target::H),
            0x7D => Instruction::BIT(7, Target::L),
            0x7E => Instruction::BIT(7, Target::HL),
            0x7F => Instruction::BIT(7, Target::A),
            0x80 => Instruction::RES(0, Target::B),
            0x81 => Instruction::RES(0, Target::C),
            0x82 => Instruction::RES(0, Target::D),
            0x83 => Instruction::RES(0, Target::E),
            0x84 => Instruction::RES(0, Target::H),
            0x85 => Instruction::RES(0, Target::L),
            0x86 => Instruction::RES(0, Target::HL),
            0x87 => Instruction::RES(0, Target::A),
            0x88 => Instruction::RES(1, Target::B),
            0x89 => Instruction::RES(1, Target::C),
            0x8A => Instruction::RES(1, Target::D),
            0x8B => Instruction::RES(1, Target::E),
            0x8C => Instruction::RES(1, Target::H),
            0x8D => Instruction::RES(1, Target::L),
            0x8E => Instruction::RES(1, Target::HL),
            0x8F => Instruction::RES(1, Target::A),
            0x90 => Instruction::RES(2, Target::B),
            0x91 => Instruction::RES(2, Target::C),
            0x92 => Instruction::RES(2, Target::D),
            0x93 => Instruction::RES(2, Target::E),
            0x94 => Instruction::RES(2, Target::H),
            0x95 => Instruction::RES(2, Target::L),
            0x96 => Instruction::RES(2, Target::HL),
            0x97 => Instruction::RES(2, Target::A),
            0x98 => Instruction::RES(3, Target::B),
            0x99 => Instruction::RES(3, Target::C),
            0x9A => Instruction::RES(3, Target::D),
            0x9B => Instruction::RES(3, Target::E),
            0x9C => Instruction::RES(3, Target::H),
            0x9D => Instruction::RES(3, Target::L),
            0x9E => Instruction::RES(3, Target::HL),
            0x9F => Instruction::RES(3, Target::A),
            0xA0 => Instruction::RES(4, Target::B),
            0xA1 => Instruction::RES(4, Target::C),
            0xA2 => Instruction::RES(4, Target::D),
            0xA3 => Instruction::RES(4, Target::E),
            0xA4 => Instruction::RES(4, Target::H),
            0xA5 => Instruction::RES(4, Target::L),
            0xA6 => Instruction::RES(4, Target::HL),
            0xA7 => Instruction::RES(4, Target::A),
            0xA8 => Instruction::RES(5, Target::B),
            0xA9 => Instruction::RES(5, Target::C),
            0xAA => Instruction::RES(5, Target::D),
            0xAB => Instruction::RES(5, Target::E),
            0xAC => Instruction::RES(5, Target::H),
            0xAD => Instruction::RES(5, Target::L),
            0xAE => Instruction::RES(5, Target::HL),
            0xAF => Instruction::RES(5, Target::A),
            0xB0 => Instruction::RES(6, Target::B),
            0xB1 => Instruction::RES(6, Target::C),
            0xB2 => Instruction::RES(6, Target::D),
            0xB3 => Instruction::RES(6, Target::E),
            0xB4 => Instruction::RES(6, Target::H),
            0xB5 => Instruction::RES(6, Target::L),
            0xB6 => Instruction::RES(6, Target::HL),
            0xB7 => Instruction::RES(6, Target::A),
            0xB8 => Instruction::RES(7, Target::B),
            0xB9 => Instruction::RES(7, Target::C),
            0xBA => Instruction::RES(7, Target::D),
            0xBB => Instruction::RES(7, Target::E),
            0xBC => Instruction::RES(7, Target::H),
            0xBD => Instruction::RES(7, Target::L),
            0xBE => Instruction::RES(7, Target::HL),
            0xBF => Instruction::RES(7, Target::A),
            0xC0 => Instruction::SET(0, Target::B),
            0xC1 => Instruction::SET(0, Target::C),
            0xC2 => Instruction::SET(0, Target::D),
            0xC3 => Instruction::SET(0, Target::E),
            0xC4 => Instruction::SET(0, Target::H),
            0xC5 => Instruction::SET(0, Target::L),
            0xC6 => Instruction::SET(0, Target::HL),
            0xC7 => Instruction::SET(0, Target::A),
            0xC8 => Instruction::SET(1, Target::B),
            0xC9 => Instruction::SET(1, Target::C),
            0xCA => Instruction::SET(1, Target::D),
            0xCB => Instruction::SET(1, Target::E),
            0xCC => Instruction::SET(1, Target::H),
            0xCD => Instruction::SET(1, Target::L),
            0xCE => Instruction::SET(1, Target::HL),
            0xCF => Instruction::SET(1, Target::A),
            0xD0 => Instruction::SET(2, Target::B),
            0xD1 => Instruction::SET(2, Target::C),
            0xD2 => Instruction::SET(2, Target::D),
            0xD3 => Instruction::SET(2, Target::E),
            0xD4 => Instruction::SET(2, Target::H),
            0xD5 => Instruction::SET(2, Target::L),
            0xD6 => Instruction::SET(2, Target::HL),
            0xD7 => Instruction::SET(2, Target::A),
            0xD8 => Instruction::SET(3, Target::B),
            0xD9 => Instruction::SET(3, Target::C),
            0xDA => Instruction::SET(3, Target::D),
            0xDB => Instruction::SET(3, Target::E),
            0xDC => Instruction::SET(3, Target::H),
            0xDD => Instruction::SET(3, Target::L),
            0xDE => Instruction::SET(3, Target::HL),
            0xDF => Instruction::SET(3, Target::A),
            0xE0 => Instruction::SET(4, Target::B),
            0xE1 => Instruction::SET(4, Target::C),
            0xE2 => Instruction::SET(4, Target::D),
            0xE3 => Instruction::SET(4, Target::E),
            0xE4 => Instruction::SET(4, Target::H),
            0xE5 => Instruction::SET(4, Target::L),
            0xE6 => Instruction::SET(4, Target::HL),
            0xE7 => Instruction::SET(4, Target::A),
            0xE8 => Instruction::SET(5, Target::B),
            0xE9 => Instruction::SET(5, Target::C),
            0xEA => Instruction::SET(5, Target::D),
            0xEB => Instruction::SET(5, Target::E),
            0xEC => Instruction::SET(5, Target::H),
            0xED => Instruction::SET(5, Target::L),
            0xEE => Instruction::SET(5, Target::HL),
            0xEF => Instruction::SET(5, Target::A),
            0xF0 => Instruction::SET(6, Target::B),
            0xF1 => Instruction::SET(6, Target::C),
            0xF2 => Instruction::SET(6, Target::D),
            0xF3 => Instruction::SET(6, Target::E),
            0xF4 => Instruction::SET(6, Target::H),
            0xF5 => Instruction::SET(6, Target::L),
            0xF6 => Instruction::SET(6, Target::HL),
            0xF7 => Instruction::SET(6, Target::A),
            0xF8 => Instruction::SET(7, Target::B),
            0xF9 => Instruction::SET(7, Target::C),
            0xFA => Instruction::SET(7, Target::D),
            0xFB => Instruction::SET(7, Target::E),
            0xFC => Instruction::SET(7, Target::H),
            0xFD => Instruction::SET(7, Target::L),
            0xFE => Instruction::SET(7, Target::HL),
            0xFF => Instruction::SET(7, Target::A),
        }
    }
}

/// Exactly the eleven unused primary opcodes and the prefix byte decode to
/// `NULL`; every other primary opcode decodes to a real instruction.
pub proof fn lemma_decode_null(opcode: u8)
    ensures
        (spec_decode(opcode) is NULL) <==> (opcode == 0xD3 || opcode == 0xDB || opcode == 0xDD
            || opcode == 0xE3 || opcode == 0xE4 || opcode == 0xEB || opcode == 0xEC || opcode
            == 0xED || opcode == 0xF4 || opcode == 0xFC || opcode == 0xFD || opcode == 0xCB),
{
}

/// The CPU: the register file, the interrupt-master-enable and halt
/// latches, and the identity of the last executed instruction (to honour
/// EI's one-instruction delay).
#[derive(Debug)]
pub struct CPU {
    pub reg: Registers,
    pub ime: bool,
    pub halt: bool,
    pub last_instr: Instruction,
}

/// Whether `t` names one of the seven 8-bit registers.
pub open spec fn spec_is_r8(t: Target) -> bool {
    t is A || t is B || t is C || t is D || t is E || t is H || t is L
}

/// The value of 8-bit register `t`.
pub open spec fn spec_r8(reg: Registers, t: Target) -> u8 {
    match t {
        Target::A => reg.a,
        Target::B => reg.b,
        Target::C => reg.c,
        Target::D => reg.d,
        Target::E => reg.e,
        Target::H => reg.h,
        Target::L => reg.l,
        _ => 0u8,
    }
}

/// The register file with 8-bit register `t` set to `v`.
pub open spec fn spec_w8(reg: Registers, t: Target, v: u8) -> Registers {
    match t {
        Target::A => Registers { a: v, ..reg },
        Target::B => Registers { b: v, ..reg },
        Target::C => Registers { c: v, ..reg },
        Target::D => Registers { d: v, ..reg },
        Target::E => Registers { e: v, ..reg },
        Target::H => Registers { h: v, ..reg },
        Target::L => Registers { l: v, ..reg },
        _ => reg,
    }
}

/// The CPU with its program counter advanced by `k`, wrapping at 0xFFFF.
pub open spec fn spec_pc_add(cpu: CPU, k: int) -> CPU {
    CPU { reg: Registers { pc: ((cpu.reg.pc + k) % 0x10000) as u16, ..cpu.reg }, ..cpu }
}

/// Whether `t` is a valid 8-bit source: a register, the cell at HL, or the
/// immediate byte at PC.
pub open spec fn spec_operand8_ok(t: Target) -> bool {
    spec_is_r8(t) || t is HL || t is IMM8
}

/// The fetched 8-bit operand and the CPU after the fetch (PC advances only
/// for the immediate form).
pub open spec fn spec_operand8(cpu: CPU, m: MmuView, t: Target) -> (u8, CPU) {
    if spec_is_r8(t) {
        (spec_r8(cpu.reg, t), cpu)
    } else if t is HL {
        (spec_rb(m, cpu.reg.spec_hl()), cpu)
    } else {
        (spec_rb(m, cpu.reg.pc), spec_pc_add(cpu, 1))
    }
}

/// The fetched 16-bit little-endian immediate and the CPU after the fetch.
pub open spec fn spec_imm16(cpu: CPU, m: MmuView) -> (u16, CPU) {
    let lo = spec_rb(m, cpu.reg.pc);
    let hi = spec_rb(m, ((cpu.reg.pc + 1) % 0x10000) as u16);
    ((((hi as u16) << 8) | (lo as u16)) as u16, spec_pc_add(cpu, 2))
}

/// The sign extension of a relative-jump byte to 16 bits.
pub open spec fn spec_sign_ext(j: u8) -> u16 {
    if j >= 0x80 {
        (j + 0xFF00) as u16
    } else {
        j as u16
    }
}

/// ADD: A becomes the 8-bit sum; Z from the result, N clear, H from the
/// low-nibble sum, C from the byte carry.
pub open spec fn spec_alu_add(reg: Registers, v: u8) -> Registers {
    Registers {
        a: ((reg.a + v) % 256) as u8,
        zf: (reg.a + v) % 256 == 0,
        nf: false,
        hf: (reg.a & 0x0F) + (v & 0x0F) > 0x0F,
        cf: reg.a + v > 0xFF,
        ..reg
    }
}

/// ADC: as ADD with the carry flag added into the sum and the half-carry.
pub open spec fn spec_alu_adc(reg: Registers, v: u8) -> Registers {
    let cin: u8 = if reg.cf {
        1u8
    } else {
        0u8
    };
    Registers {
        a: ((reg.a + v + cin) % 256) as u8,
        zf: (reg.a + v + cin) % 256 == 0,
        nf: false,
        hf: (reg.a & 0x0F) + (v & 0x0F) + cin > 0x0F,
        cf: reg.a + v + cin > 0xFF,
        ..reg
    }
}

/// SUB: A becomes the 8-bit difference; Z from the result, N set, H from
/// the low-nibble borrow, C from the byte borrow.
pub open spec fn spec_alu_sub(reg: Registers, v: u8) -> Registers {
    Registers {
        a: ((256 + reg.a - v) % 256) as u8,
        zf: reg.a == v,
        nf: true,
        hf: (reg.a & 0x0F) < (v & 0x0F),
        cf: reg.a < v,
        ..reg
    }
}

/// SBC: as SUB with the carry flag added to the subtrahend.
pub open spec fn spec_alu_sbc(reg: Registers, v: u8) -> Registers {
    let cin: u8 = if reg.cf {
        1u8
    } else {
        0u8
    };
    Registers {
        a: ((512 + reg.a - v - cin) % 256) as u8,
        zf: (512 + reg.a - v - cin) % 256 == 0,
        nf: true,
        hf: (reg.a & 0x0F) < (v & 0x0F) + cin,
        cf: reg.a < v + cin,
        ..reg
    }
}

/// CP: the flags of SUB with A unchanged.
pub open spec fn spec_alu_cp(reg: Registers, v: u8) -> Registers {
    Registers {
        zf: reg.a == v,
        nf: true,
        hf: (reg.a & 0x0F) < (v & 0x0F),
        cf: reg.a < v,
        ..reg
    }
}

/// AND: A becomes the conjunction; Z from the result, H set, N and C clear.
pub open spec fn spec_alu_and(reg: Registers, v: u8) -> Registers {
    Registers { a: (reg.a & v) as u8, zf: reg.a & v == 0, nf: false, hf: true, cf: false, ..reg }
}

/// OR: A becomes the disjunction; Z from the result, N, H and C clear.
pub open spec fn spec_alu_or(reg: Registers, v: u8) -> Registers {
    Registers { a: (reg.a | v) as u8, zf: reg.a | v == 0, nf: false, hf: false, cf: false, ..reg }
}

/// XOR: A becomes the exclusive or; Z from the result, N, H and C clear.
pub open spec fn spec_alu_xor(reg: Registers, v: u8) -> Registers {
    Registers { a: (reg.a ^ v) as u8, zf: reg.a ^ v == 0, nf: false, hf: false, cf: false, ..reg }
}

/// The rotate and shift results, with the ejected bit.
pub open spec fn spec_rlc_val(v: u8) -> u8 {
    ((v << 1) | (if v & 0x80 != 0 {
        1u8
    } else {
        0u8
    })) as u8
}

pub open spec fn spec_rl_val(v: u8, cf: bool) -> u8 {
    ((v << 1) | (if cf {
        1u8
    } else {
        0u8
    })) as u8
}

pub open spec fn spec_rrc_val(v: u8) -> u8 {
    (((if v & 0x01 != 0 {
        0x80u8
    } else {
        0u8
    })) | (v >> 1)) as u8
}

pub open spec fn spec_rr_val(v: u8, cf: bool) -> u8 {
    (((if cf {
        0x80u8
    } else {
        0u8
    })) | (v >> 1)) as u8
}

pub open spec fn spec_sla_val(v: u8) -> u8 {
    (v << 1) as u8
}

pub open spec fn spec_sra_val(v: u8) -> u8 {
    ((v & 0x80) | (v >> 1)) as u8
}

pub open spec fn spec_srl_val(v: u8) -> u8 {
    (v >> 1) as u8
}

/// SWAP exchanges the two nibbles.
pub open spec fn spec_swap_val(v: u8) -> u8 {
    (((v & 0x0F) << 4) | ((v & 0xF0) >> 4)) as u8
}

/// DAA, the binary-coded-decimal adjustment: after an addition, 0x60 is
/// added when C is set or A exceeds 0x99 (setting C), then 0x06 when H is
/// set or the low nibble exceeds 9; after a subtraction, 0x60 and 0x06 are
/// subtracted under C and H alone. Z follows the result and H clears.
pub open spec fn spec_daa(reg: Registers) -> Registers {
    if !reg.nf {
        let carry1 = reg.cf || reg.a > 0x99;
        let a1: u8 = if carry1 {
            ((reg.a + 0x60) % 256) as u8
        } else {
            reg.a
        };
        let a2: u8 = if reg.hf || (a1 & 0x0F) > 0x09 {
            ((a1 + 0x06) % 256) as u8
        } else {
            a1
        };
        Registers { a: a2, zf: a2 == 0, hf: false, cf: carry1, ..reg }
    } else {
        let a1: u8 = if reg.cf {
            ((reg.a + 0xA0) % 256) as u8
        } else {
            reg.a
        };
        let a2: u8 = if reg.hf {
            ((a1 + 0xFA) % 256) as u8
        } else {
            a1
        };
        Registers { a: a2, zf: a2 == 0, hf: false, cf: reg.cf, ..reg }
    }
}

/// Whether `t` is a valid in-place 8-bit operand: a register or the cell
/// at HL.
pub open spec fn spec_cell8_ok(t: Target) -> bool {
    spec_is_r8(t) || t is HL
}

/// The value of in-place operand `t`.
pub open spec fn spec_cell8(cpu: CPU, m: MmuView, t: Target) -> u8 {
    if spec_is_r8(t) {
        spec_r8(cpu.reg, t)
    } else {
        spec_rb(m, cpu.reg.spec_hl())
    }
}

/// The CPU and bus after storing `v` into in-place operand `t`.
pub open spec fn spec_cell8_store(cpu: CPU, m: MmuView, t: Target, v: u8) -> (CPU, MmuView) {
    if spec_is_r8(t) {
        (CPU { reg: spec_w8(cpu.reg, t, v), ..cpu }, m)
    } else {
        (cpu, spec_wb(m, cpu.reg.spec_hl(), v))
    }
}

/// The CPU and bus after a rotate, shift or swap stored its result `v2`
/// into operand `t`: Z follows the result, N and H clear, C gets the
/// ejected bit.
pub open spec fn spec_rot_store(cpu: CPU, m: MmuView, t: Target, v2: u8, c: bool) -> (
    CPU,
    MmuView,
) {
    let (c1, m1) = spec_cell8_store(cpu, m, t, v2);
    (CPU { reg: Registers { zf: v2 == 0, nf: false, hf: false, cf: c, ..c1.reg }, ..c1 }, m1)
}

/// The condition of a jump: one of the four flag tests or unconditional.
pub open spec fn spec_cond(reg: Registers, f: JumpFlag) -> bool {
    match f {
        JumpFlag::NZ => !reg.zf,
        JumpFlag::NC => !reg.cf,
        JumpFlag::Z => reg.zf,
        JumpFlag::C => reg.cf,
        JumpFlag::A => true,
        JumpFlag::AtHL => true,
    }
}

/// The 16-bit pair `t` of the register file (BC, DE, HL or SP).
pub open spec fn spec_rr16(reg: Registers, t: Target) -> u16 {
    match t {
        Target::BC => reg.spec_bc(),
        Target::DE => reg.spec_de(),
        Target::HL => reg.spec_hl(),
        _ => reg.sp,
    }
}

/// The register file with 16-bit pair `t` set to `v`.
pub open spec fn spec_wr16(reg: Registers, t: Target, v: u16) -> Registers {
    match t {
        Target::BC => reg.spec_set_bc(v),
        Target::DE => reg.spec_set_de(v),
        Target::HL => reg.spec_set_hl(v),
        _ => Registers { sp: v, ..reg },
    }
}

/// The CPU and bus after pushing `v`: SP is pre-decremented twice and the
/// high byte lands at the higher address.
pub open spec fn spec_push(cpu: CPU, m: MmuView, v: u16) -> (CPU, MmuView) {
    let sp1 = ((cpu.reg.sp + 0xFFFF) % 0x10000) as u16;
    let m1 = spec_wb(m, sp1, (v >> 8) as u8);
    let sp2 = ((sp1 + 0xFFFF) % 0x10000) as u16;
    let m2 = spec_wb(m1, sp2, v as u8);
    (CPU { reg: Registers { sp: sp2, ..cpu.reg }, ..cpu }, m2)
}

/// The 16-bit value popped at SP: the low byte at SP, the high byte above
/// it.
pub open spec fn spec_pop_val(cpu: CPU, m: MmuView) -> u16 {
    let lo = spec_rb(m, cpu.reg.sp);
    let hi = spec_rb(m, ((cpu.reg.sp + 1) % 0x10000) as u16);
    (((hi as u16) << 8) | (lo as u16)) as u16
}

/// The CPU after a pop: SP is post-incremented twice.
pub open spec fn spec_pop_cpu(cpu: CPU) -> CPU {
    CPU { reg: Registers { sp: ((cpu.reg.sp + 2) % 0x10000) as u16, ..cpu.reg }, ..cpu }
}

/// The CPU and bus after ADD with operand `t`.
pub open spec fn spec_op_add(cpu: CPU, m: MmuView, t: Target) -> Result<(CPU, MmuView), CpuError> {
    if spec_operand8_ok(t) {
        let (v, c1) = spec_operand8(cpu, m, t);
        Ok((CPU { reg: spec_alu_add(c1.reg, v), ..c1 }, m))
    } else {
        Err(CpuError::BadOperand)
    }
}

/// The CPU and bus after ADC with operand `t`.
pub open spec fn spec_op_adc(cpu: CPU, m: MmuView, t: Target) -> Result<(CPU, MmuView), CpuError> {
    if spec_operand8_ok(t) {
        let (v, c1) = spec_operand8(cpu, m, t);
        Ok((CPU { reg: spec_alu_adc(c1.reg, v), ..c1 }, m))
    } else {
        Err(CpuError::BadOperand)
    }
}

/// The CPU and bus after SUB with operand `t`.
pub open spec fn spec_op_sub(cpu: CPU, m: MmuView, t: Target) -> Result<(CPU, MmuView), CpuError> {
    if spec_operand8_ok(t) {
        let (v, c1) = spec_operand8(cpu, m, t);
        Ok((CPU { reg: spec_alu_sub(c1.reg, v), ..c1 }, m))
    } else {
        Err(CpuError::BadOperand)
    }
}

/// The CPU and bus after SBC with operand `t`.
pub open spec fn spec_op_sbc(cpu: CPU, m: MmuView, t: Target) -> Result<(CPU, MmuView), CpuError> {
    if spec_operand8_ok(t) {
        let (v, c1) = spec_operand8(cpu, m, t);
        Ok((CPU { reg: spec_alu_sbc(c1.reg, v), ..c1 }, m))
    } else {
        Err(CpuError::BadOperand)
    }
}

/// The CPU and bus after CP with operand `t`.
pub open spec fn spec_op_cp(cpu: CPU, m: MmuView, t: Target) -> Result<(CPU, MmuView), CpuError> {
    if spec_operand8_ok(t) {
        let (v, c1) = spec_operand8(cpu, m, t);
        Ok((CPU { reg: spec_alu_cp(c1.reg, v), ..c1 }, m))
    } else {
        Err(CpuError::BadOperand)
    }
}

/// The CPU and bus after AND with operand `t`.
pub open spec fn spec_op_and(cpu: CPU, m: MmuView, t: Target) -> Result<(CPU, MmuView), CpuError> {
    if spec_operand8_ok(t) {
        let (v, c1) = spec_operand8(cpu, m, t);
        Ok((CPU { reg: spec_alu_and(c1.reg, v), ..c1 }, m))
    } else {
        Err(CpuError::BadOperand)
    }
}

/// The CPU and bus after OR with operand `t`.
pub open spec fn spec_op_or(cpu: CPU, m: MmuView, t: Target) -> Result<(CPU, MmuView), CpuError> {
    if spec_operand8_ok(t) {
        let (v, c1) = spec_operand8(cpu, m, t);
        Ok((CPU { reg: spec_alu_or(c1.reg, v), ..c1 }, m))
    } else {
        Err(CpuError::BadOperand)
    }
}

/// The CPU and bus after XOR with operand `t`.
pub open spec fn spec_op_xor(cpu: CPU, m: MmuView, t: Target) -> Result<(CPU, MmuView), CpuError> {
    if spec_operand8_ok(t) {
        let (v, c1) = spec_operand8(cpu, m, t);
        Ok((CPU { reg: spec_alu_xor(c1.reg, v), ..c1 }, m))
    } else {
        Err(CpuError::BadOperand)
    }
}
/// The CPU and bus after RLC on operand `t`.
pub open spec fn spec_op_rlc(cpu: CPU, m: MmuView, t: Target) -> Result<(CPU, MmuView), CpuError> {
    if spec_cell8_ok(t) {
        let v = spec_cell8(cpu, m, t);
        Ok(spec_rot_store(cpu, m, t, spec_rlc_val(v), v & 0x80 != 0))
    } else {
        Err(CpuError::BadOperand)
    }
}

/// The CPU and bus after RRC on operand `t`.
pub open spec fn spec_op_rrc(cpu: CPU, m: MmuView, t: Target) -> Result<(CPU, MmuView), CpuError> {
    if spec_cell8_ok(t) {
        let v = spec_cell8(cpu, m, t);
        Ok(spec_rot_store(cpu, m, t, spec_rrc_val(v), v & 0x01 != 0))
    } else {
        Err(CpuError::BadOperand)
    }
}

/// The CPU and bus after RL on operand `t`.
pub open spec fn spec_op_rl(cpu: CPU, m: MmuView, t: Target) -> Result<(CPU, MmuView), CpuError> {
    if spec_cell8_ok(t) {
        let v = spec_cell8(cpu, m, t);
        Ok(spec_rot_store(cpu, m, t, spec_rl_val(v, cpu.reg.cf), v & 0x80 != 0))
    } else {
        Err(CpuError::BadOperand)
    }
}

/// The CPU and bus after RR on operand `t`.
pub open spec fn spec_op_rr(cpu: CPU, m: MmuView, t: Target) -> Result<(CPU, MmuView), CpuError> {
    if spec_cell8_ok(t) {
        let v = spec_cell8(cpu, m, t);
        Ok(spec_rot_store(cpu, m, t, spec_rr_val(v, cpu.reg.cf), v & 0x01 != 0))
    } else {
        Err(CpuError::BadOperand)
    }
}

/// The CPU and bus after SLA on operand `t`.
pub open spec fn spec_op_sla(cpu: CPU, m: MmuView, t: Target) -> Result<(CPU, MmuView), CpuError> {
    if spec_cell8_ok(t) {
        let v = spec_cell8(cpu, m, t);
        Ok(spec_rot_store(cpu, m, t, spec_sla_val(v), v & 0x80 != 0))
    } else {
        Err(CpuError::BadOperand)
    }
}

/// The CPU and bus after SRA on operand `t`.
pub open spec fn spec_op_sra(cpu: CPU, m: MmuView, t: Target) -> Result<(CPU, MmuView), CpuError> {
    if spec_cell8_ok(t) {
        let v = spec_cell8(cpu, m, t);
        Ok(spec_rot_store(cpu, m, t, spec_sra_val(v), v & 0x01 != 0))
    } else {
        Err(CpuError::BadOperand)
    }
}

/// The CPU and bus after SRL on operand `t`.
pub open spec fn spec_op_srl(cpu: CPU, m: MmuView, t: Target) -> Result<(CPU, MmuView), CpuError> {
    if spec_cell8_ok(t) {
        let v = spec_cell8(cpu, m, t);
        Ok(spec_rot_store(cpu, m, t, spec_srl_val(v), v & 0x01 != 0))
    } else {
        Err(CpuError::BadOperand)
    }
}
/// The CPU and bus after SWAP on operand `t`: C is always cleared.
pub open spec fn spec_op_swap(cpu: CPU, m: MmuView, t: Target) -> Result<(CPU, MmuView), CpuError> {
    if spec_cell8_ok(t) {
        let v = spec_cell8(cpu, m, t);
        Ok(spec_rot_store(cpu, m, t, spec_swap_val(v), false))
    } else {
        Err(CpuError::BadOperand)
    }
}

/// The CPU and bus after INC: 8-bit forms set Z, N and H and leave C; the
/// 16-bit pair forms set no flags.
pub open spec fn spec_op_inc(cpu: CPU, m: MmuView, t: Target) -> Result<(CPU, MmuView), CpuError> {
    match t {
        Target::BC | Target::DE | Target::HL | Target::SP => Ok(
            (
                CPU {
                    reg: spec_wr16(
                        cpu.reg,
                        t,
                        ((spec_rr16(cpu.reg, t) + 1) % 0x10000) as u16,
                    ),
                    ..cpu
                },
                m,
            ),
        ),
        Target::AtHL => {
            let x = spec_rb(m, cpu.reg.spec_hl());
            let nx = ((x + 1) % 256) as u8;
            let reg1 = Registers { zf: nx == 0, nf: false, hf: x & 0x0F == 0x0F, ..cpu.reg };
            Ok((CPU { reg: reg1, ..cpu }, spec_wb(m, cpu.reg.spec_hl(), nx)))
        },
        _ => {
            if spec_is_r8(t) {
                let x = spec_r8(cpu.reg, t);
                let nx = ((x + 1) % 256) as u8;
                let reg1 = Registers { zf: nx == 0, nf: false, hf: x & 0x0F == 0x0F, ..cpu.reg };
                Ok((CPU { reg: spec_w8(reg1, t, nx), ..cpu }, m))
            } else {
                Err(CpuError::BadOperand)
            }
        },
    }
}

/// The CPU and bus after DEC: 8-bit forms set Z, N and H and leave C; the
/// 16-bit pair forms set no flags.
pub open spec fn spec_op_dec(cpu: CPU, m: MmuView, t: Target) -> Result<(CPU, MmuView), CpuError> {
    match t {
        Target::BC | Target::DE | Target::HL | Target::SP => Ok(
            (
                CPU {
                    reg: spec_wr16(
                        cpu.reg,
                        t,
                        ((spec_rr16(cpu.reg, t) + 0xFFFF) % 0x10000) as u16,
                    ),
                    ..cpu
                },
                m,
            ),
        ),
        Target::AtHL => {
            let x = spec_rb(m, cpu.reg.spec_hl());
            let nx = ((x + 255) % 256) as u8;
            let reg1 = Registers { zf: nx == 0, nf: true, hf: x & 0x0F == 0, ..cpu.reg };
            Ok((CPU { reg: reg1, ..cpu }, spec_wb(m, cpu.reg.spec_hl(), nx)))
        },
        _ => {
            if spec_is_r8(t) {
                let x = spec_r8(cpu.reg, t);
                let nx = ((x + 255) % 256) as u8;
                let reg1 = Registers { zf: nx == 0, nf: true, hf: x & 0x0F == 0, ..cpu.reg };
                Ok((CPU { reg: spec_w8(reg1, t, nx), ..cpu }, m))
            } else {
                Err(CpuError::BadOperand)
            }
        },
    }
}

/// The CPU and bus after BIT: Z is the complement of bit `i` of the
/// operand, N clears, H sets, C is untouched.
pub open spec fn spec_op_bit(cpu: CPU, m: MmuView, i: u8, t: Target) -> Result<
    (CPU, MmuView),
    CpuError,
> {
    if i <= 7 && spec_cell8_ok(t) {
        let v = spec_cell8(cpu, m, t);
        Ok(
            (
                CPU {
                    reg: Registers {
                        zf: v & ((1u8 << i) as u8) == 0,
                        nf: false,
                        hf: true,
                        ..cpu.reg
                    },
                    ..cpu
                },
                m,
            ),
        )
    } else {
        Err(CpuError::BadOperand)
    }
}

/// The CPU and bus after RES: bit `i` of the operand clears; no flags
/// change.
pub open spec fn spec_op_res(cpu: CPU, m: MmuView, i: u8, t: Target) -> Result<
    (CPU, MmuView),
    CpuError,
> {
    if i <= 7 && spec_cell8_ok(t) {
        let v = spec_cell8(cpu, m, t);
        Ok(spec_cell8_store(cpu, m, t, (v & !((1u8 << i) as u8)) as u8))
    } else {
        Err(CpuError::BadOperand)
    }
}

/// The CPU and bus after SET: bit `i` of the operand sets; no flags change.
pub open spec fn spec_op_set(cpu: CPU, m: MmuView, i: u8, t: Target) -> Result<
    (CPU, MmuView),
    CpuError,
> {
    if i <= 7 && spec_cell8_ok(t) {
        let v = spec_cell8(cpu, m, t);
        Ok(spec_cell8_store(cpu, m, t, (v | ((1u8 << i) as u8)) as u8))
    } else {
        Err(CpuError::BadOperand)
    }
}

/// The CPU and bus after a relative jump: the displacement byte is always
/// fetched; when the condition holds it is sign-extended and added to PC.
pub open spec fn spec_op_jr(cpu: CPU, m: MmuView, f: JumpFlag) -> Result<
    (CPU, MmuView),
    CpuError,
> {
    if f is AtHL {
        Err(CpuError::BadOperand)
    } else {
        let v = spec_rb(m, cpu.reg.pc);
        let c1 = spec_pc_add(cpu, 1);
        if spec_cond(cpu.reg, f) {
            Ok((spec_pc_add(c1, spec_sign_ext(v) as int), m))
        } else {
            Ok((c1, m))
        }
    }
}

/// The CPU and bus after an absolute jump: the immediate is always
/// fetched; the HL form jumps to HL unconditionally.
pub open spec fn spec_op_jp(cpu: CPU, m: MmuView, f: JumpFlag) -> Result<
    (CPU, MmuView),
    CpuError,
> {
    let (v, c1) = spec_imm16(cpu, m);
    let target: u16 = if f is AtHL {
        cpu.reg.spec_hl()
    } else {
        v
    };
    if spec_cond(cpu.reg, f) {
        Ok((CPU { reg: Registers { pc: target, ..c1.reg }, ..c1 }, m))
    } else {
        Ok((c1, m))
    }
}

/// The CPU and bus after CALL: the target is always fetched; when the
/// condition holds, the address of the next instruction is pushed and PC
/// jumps.
pub open spec fn spec_op_call(cpu: CPU, m: MmuView, f: JumpFlag) -> Result<
    (CPU, MmuView),
    CpuError,
> {
    if f is AtHL {
        Err(CpuError::BadOperand)
    } else {
        let (v, c1) = spec_imm16(cpu, m);
        if spec_cond(cpu.reg, f) {
            let (c2, m2) = spec_push(c1, m, c1.reg.pc);
            Ok((CPU { reg: Registers { pc: v, ..c2.reg }, ..c2 }, m2))
        } else {
            Ok((c1, m))
        }
    }
}

/// The CPU and bus after RET: when the condition holds, PC is popped.
pub open spec fn spec_op_ret(cpu: CPU, m: MmuView, f: JumpFlag) -> Result<
    (CPU, MmuView),
    CpuError,
> {
    if f is AtHL {
        Err(CpuError::BadOperand)
    } else {
        if spec_cond(cpu.reg, f) {
            let v = spec_pop_val(cpu, m);
            let c1 = spec_pop_cpu(cpu);
            Ok((CPU { reg: Registers { pc: v, ..c1.reg }, ..c1 }, m))
        } else {
            Ok((cpu, m))
        }
    }
}

/// The CPU and bus after PUSH of a register pair.
pub open spec fn spec_op_push(cpu: CPU, m: MmuView, t: Target) -> Result<
    (CPU, MmuView),
    CpuError,
> {
    match t {
        Target::AF => Ok(spec_push(cpu, m, cpu.reg.spec_af())),
        Target::BC => Ok(spec_push(cpu, m, cpu.reg.spec_bc())),
        Target::DE => Ok(spec_push(cpu, m, cpu.reg.spec_de())),
        Target::HL => Ok(spec_push(cpu, m, cpu.reg.spec_hl())),
        _ => Err(CpuError::BadOperand),
    }
}

/// The CPU and bus after POP into a register pair; popping into AF
/// discards the low nibble of the flag byte.
pub open spec fn spec_op_pop(cpu: CPU, m: MmuView, t: Target) -> Result<
    (CPU, MmuView),
    CpuError,
> {
    let v = spec_pop_val(cpu, m);
    let c1 = spec_pop_cpu(cpu);
    match t {
        Target::AF => Ok((CPU { reg: c1.reg.spec_set_af(v), ..c1 }, m)),
        Target::BC => Ok((CPU { reg: c1.reg.spec_set_bc(v), ..c1 }, m)),
        Target::DE => Ok((CPU { reg: c1.reg.spec_set_de(v), ..c1 }, m)),
        Target::HL => Ok((CPU { reg: c1.reg.spec_set_hl(v), ..c1 }, m)),
        _ => Err(CpuError::BadOperand),
    }
}

/// The CPU and bus after ADD HL with a register pair: N clears, H from the
/// 12-bit sum, C from the 16-bit sum, Z untouched.
pub open spec fn spec_op_addhl(cpu: CPU, m: MmuView, t: Target) -> Result<
    (CPU, MmuView),
    CpuError,
> {
    match t {
        Target::BC | Target::DE | Target::HL | Target::SP => {
            let hl = cpu.reg.spec_hl();
            let v = spec_rr16(cpu.reg, t);
            let sum = ((hl + v) % 0x10000) as u16;
            let reg1 = Registers {
                nf: false,
                hf: (hl & 0x0FFF) + (v & 0x0FFF) > 0x0FFF,
                cf: hl + v > 0xFFFF,
                ..cpu.reg
            };
            Ok((CPU { reg: reg1.spec_set_hl(sum), ..cpu }, m))
        },
        _ => Err(CpuError::BadOperand),
    }
}

/// The CPU and bus after ADD SP with the signed immediate: Z and N clear,
/// H and C from the low-nibble and low-byte sums with the offset taken
/// unsigned.
pub open spec fn spec_op_addsp(cpu: CPU, m: MmuView) -> Result<(CPU, MmuView), CpuError> {
    let v = spec_rb(m, cpu.reg.pc);
    let c1 = spec_pc_add(cpu, 1);
    let e = spec_sign_ext(v);
    let sp = cpu.reg.sp;
    let reg1 = Registers {
        zf: false,
        nf: false,
        hf: (sp & 0xF) + (e & 0xF) > 0xF,
        cf: (sp & 0xFF) + (e & 0xFF) > 0xFF,
        sp: ((sp + e) % 0x10000) as u16,
        ..c1.reg
    };
    Ok((CPU { reg: reg1, ..c1 }, m))
}

/// The CPU and bus after a load. The immediate forms advance PC as they
/// fetch; the HLI and HLD forms post-increment or post-decrement HL; the
/// `LD HL, SP+e8` form sets the flags of the signed addition.
pub open spec fn spec_ld(cpu: CPU, m: MmuView, t1: Target, t2: Target) -> Result<
    (CPU, MmuView),
    CpuError,
> {
    match (t1, t2) {
        (Target::SP, Target::IMM16) => {
            let (v, c1) = spec_imm16(cpu, m);
            Ok((CPU { reg: Registers { sp: v, ..c1.reg }, ..c1 }, m))
        },
        (Target::BC, Target::IMM16) => {
            let (v, c1) = spec_imm16(cpu, m);
            Ok((CPU { reg: c1.reg.spec_set_bc(v), ..c1 }, m))
        },
        (Target::DE, Target::IMM16) => {
            let (v, c1) = spec_imm16(cpu, m);
            Ok((CPU { reg: c1.reg.spec_set_de(v), ..c1 }, m))
        },
        (Target::HL, Target::IMM16) => {
            let (v, c1) = spec_imm16(cpu, m);
            Ok((CPU { reg: c1.reg.spec_set_hl(v), ..c1 }, m))
        },
        (Target::IMM16, Target::SP) => {
            let (nn, c1) = spec_imm16(cpu, m);
            let m1 = spec_wb(m, nn, (cpu.reg.sp & 0x00FF) as u8);
            let m2 = spec_wb(m1, ((nn + 1) % 0x10000) as u16, (cpu.reg.sp >> 8) as u8);
            Ok((c1, m2))
        },
        (Target::HLI, Target::A) => {
            let hl = cpu.reg.spec_hl();
            let c1 = CPU { reg: cpu.reg.spec_set_hl(((hl + 1) % 0x10000) as u16), ..cpu };
            Ok((c1, spec_wb(m, hl, cpu.reg.a)))
        },
        (Target::HLD, Target::A) => {
            let hl = cpu.reg.spec_hl();
            let c1 = CPU { reg: cpu.reg.spec_set_hl(((hl + 0xFFFF) % 0x10000) as u16), ..cpu };
            Ok((c1, spec_wb(m, hl, cpu.reg.a)))
        },
        (Target::A, Target::HLI) => {
            let hl = cpu.reg.spec_hl();
            let reg1 = cpu.reg.spec_set_hl(((hl + 1) % 0x10000) as u16);
            Ok((CPU { reg: Registers { a: spec_rb(m, hl), ..reg1 }, ..cpu }, m))
        },
        (Target::A, Target::HLD) => {
            let hl = cpu.reg.spec_hl();
            let reg1 = cpu.reg.spec_set_hl(((hl + 0xFFFF) % 0x10000) as u16);
            Ok((CPU { reg: Registers { a: spec_rb(m, hl), ..reg1 }, ..cpu }, m))
        },
        (Target::BC, Target::A) => Ok((cpu, spec_wb(m, cpu.reg.spec_bc(), cpu.reg.a))),
        (Target::DE, Target::A) => Ok((cpu, spec_wb(m, cpu.reg.spec_de(), cpu.reg.a))),
        (Target::A, Target::BC) => Ok(
            (
                CPU {
                    reg: Registers { a: spec_rb(m, cpu.reg.spec_bc()), ..cpu.reg },
                    ..cpu
                },
                m,
            ),
        ),
        (Target::A, Target::DE) => Ok(
            (
                CPU {
                    reg: Registers { a: spec_rb(m, cpu.reg.spec_de()), ..cpu.reg },
                    ..cpu
                },
                m,
            ),
        ),
        (Target::HL, Target::IMM8) => {
            let v = spec_rb(m, cpu.reg.pc);
            let c1 = spec_pc_add(cpu, 1);
            Ok((c1, spec_wb(m, cpu.reg.spec_hl(), v)))
        },
        (Target::FFIMM8, Target::A) => {
            let v = spec_rb(m, cpu.reg.pc);
            let c1 = spec_pc_add(cpu, 1);
            Ok((c1, spec_wb(m, (0xFF00u16 | (v as u16)) as u16, cpu.reg.a)))
        },
        (Target::FFC, Target::A) => Ok(
            (cpu, spec_wb(m, (0xFF00u16 | (cpu.reg.c as u16)) as u16, cpu.reg.a)),
        ),
        (Target::A, Target::FFIMM8) => {
            let v = spec_rb(m, cpu.reg.pc);
            let c1 = spec_pc_add(cpu, 1);
            Ok(
                (
                    CPU {
                        reg: Registers {
                            a: spec_rb(m, (0xFF00u16 | (v as u16)) as u16),
                            ..c1.reg
                        },
                        ..c1
                    },
                    m,
                ),
            )
        },
        (Target::A, Target::FFC) => Ok(
            (
                CPU {
                    reg: Registers {
                        a: spec_rb(m, (0xFF00u16 | (cpu.reg.c as u16)) as u16),
                        ..cpu.reg
                    },
                    ..cpu
                },
                m,
            ),
        ),
        (Target::IMM16, Target::A) => {
            let (nn, c1) = spec_imm16(cpu, m);
            Ok((c1, spec_wb(m, nn, cpu.reg.a)))
        },
        (Target::A, Target::IMM16) => {
            let (nn, c1) = spec_imm16(cpu, m);
            Ok((CPU { reg: Registers { a: spec_rb(m, nn), ..c1.reg }, ..c1 }, m))
        },
        (Target::HL, Target::SP) => {
            let v = spec_rb(m, cpu.reg.pc);
            let c1 = spec_pc_add(cpu, 1);
            let e = spec_sign_ext(v);
            let sp = cpu.reg.sp;
            let reg1 = Registers {
                zf: false,
                nf: false,
                hf: (sp & 0xF) + (e & 0xF) > 0xF,
                cf: (sp & 0xFF) + (e & 0xFF) > 0xFF,
                ..c1.reg
            };
            Ok((CPU { reg: reg1.spec_set_hl(((sp + e) % 0x10000) as u16), ..c1 }, m))
        },
        (Target::SP, Target::HL) => Ok(
            (CPU { reg: Registers { sp: cpu.reg.spec_hl(), ..cpu.reg }, ..cpu }, m),
        ),
        _ => {
            if spec_is_r8(t1) && spec_is_r8(t2) {
                Ok((CPU { reg: spec_w8(cpu.reg, t1, spec_r8(cpu.reg, t2)), ..cpu }, m))
            } else if spec_is_r8(t1) && t2 is HL {
                Ok(
                    (
                        CPU {
                            reg: spec_w8(cpu.reg, t1, spec_rb(m, cpu.reg.spec_hl())),
                            ..cpu
                        },
                        m,
                    ),
                )
            } else if t1 is HL && spec_is_r8(t2) {
                Ok((cpu, spec_wb(m, cpu.reg.spec_hl(), spec_r8(cpu.reg, t2))))
            } else if spec_is_r8(t1) && t2 is IMM8 {
                let v = spec_rb(m, cpu.reg.pc);
                let c1 = spec_pc_add(cpu, 1);
                Ok((CPU { reg: spec_w8(c1.reg, t1, v), ..c1 }, m))
            } else {
                Err(CpuError::BadOperand)
            }
        },
    }
}

/// The CPU and bus after executing one instruction: each arm gives the
/// exact register, flag, memory and latch effects of that instruction.
/// The unused opcode, STOP, and operand tags no encoding produces are
/// errors that leave the state unchanged.
pub open spec fn spec_execute(cpu: CPU, m: MmuView, instr: Instruction) -> Result<
    (CPU, MmuView),
    CpuError,
> {
    match instr {
        Instruction::LD(t1, t2) => spec_ld(cpu, m, t1, t2),
        Instruction::INC(t) => spec_op_inc(cpu, m, t),
        Instruction::DEC(t) => spec_op_dec(cpu, m, t),
        Instruction::XOR(t) => spec_op_xor(cpu, m, t),
        Instruction::OR(t) => spec_op_or(cpu, m, t),
        Instruction::AND(t) => spec_op_and(cpu, m, t),
        Instruction::ADD(t) => spec_op_add(cpu, m, t),
        Instruction::ADC(t) => spec_op_adc(cpu, m, t),
        Instruction::SUB(t) => spec_op_sub(cpu, m, t),
        Instruction::SBC(t) => spec_op_sbc(cpu, m, t),
        Instruction::CP(t) => spec_op_cp(cpu, m, t),
        Instruction::ADDHL(t) => spec_op_addhl(cpu, m, t),
        Instruction::ADDSP => spec_op_addsp(cpu, m),
        Instruction::BIT(i, t) => spec_op_bit(cpu, m, i, t),
        Instruction::RES(i, t) => spec_op_res(cpu, m, i, t),
        Instruction::SET(i, t) => spec_op_set(cpu, m, i, t),
        Instruction::SWAP(t) => spec_op_swap(cpu, m, t),
        Instruction::RL(t) => spec_op_rl(cpu, m, t),
        Instruction::RLC(t) => spec_op_rlc(cpu, m, t),
        Instruction::RRC(t) => spec_op_rrc(cpu, m, t),
        Instruction::RR(t) => spec_op_rr(cpu, m, t),
        Instruction::SLA(t) => spec_op_sla(cpu, m, t),
        Instruction::SRA(t) => spec_op_sra(cpu, m, t),
        Instruction::SRL(t) => spec_op_srl(cpu, m, t),
        Instruction::JR(f) => spec_op_jr(cpu, m, f),
        Instruction::JP(f) => spec_op_jp(cpu, m, f),
        Instruction::CALL(f) => spec_op_call(cpu, m, f),
        Instruction::RET(f) => spec_op_ret(cpu, m, f),
        Instruction::PUSH(t) => spec_op_push(cpu, m, t),
        Instruction::POP(t) => spec_op_pop(cpu, m, t),
        Instruction::RST(n) => {
            let (c1, m1) = spec_push(cpu, m, cpu.reg.pc);
            Ok((CPU { reg: Registers { pc: n as u16, ..c1.reg }, ..c1 }, m1))
        },
        Instruction::RLCA => Ok(
            (
                CPU {
                    reg: Registers {
                        a: spec_rlc_val(cpu.reg.a),
                        zf: false,
                        nf: false,
                        hf: false,
                        cf: cpu.reg.a & 0x80 != 0,
                        ..cpu.reg
                    },
                    ..cpu
                },
                m,
            ),
        ),
        Instruction::RLA => Ok(
            (
                CPU {
                    reg: Registers {
                        a: spec_rl_val(cpu.reg.a, cpu.reg.cf),
                        zf: false,
                        nf: false,
                        hf: false,
                        cf: cpu.reg.a & 0x80 != 0,
                        ..cpu.reg
                    },
                    ..cpu
                },
                m,
            ),
        ),
        Instruction::RRCA => Ok(
            (
                CPU {
                    reg: Registers {
                        a: spec_rrc_val(cpu.reg.a),
                        zf: false,
                        nf: false,
                        hf: false,
                        cf: cpu.reg.a & 0x01 != 0,
                        ..cpu.reg
                    },
                    ..cpu
                },
                m,
            ),
        ),
        Instruction::RRA => Ok(
            (
                CPU {
                    reg: Registers {
                        a: spec_rr_val(cpu.reg.a, cpu.reg.cf),
                        zf: false,
                        nf: false,
                        hf: false,
                        cf: cpu.reg.a & 0x01 != 0,
                        ..cpu.reg
                    },
                    ..cpu
                },
                m,
            ),
        ),
        Instruction::CPL => Ok(
            (
                CPU {
                    reg: Registers { a: (!cpu.reg.a) as u8, nf: true, hf: true, ..cpu.reg },
                    ..cpu
                },
                m,
            ),
        ),
        Instruction::SCF => Ok(
            (CPU { reg: Registers { nf: false, hf: false, cf: true, ..cpu.reg }, ..cpu }, m),
        ),
        Instruction::CCF => Ok(
            (
                CPU {
                    reg: Registers { nf: false, hf: false, cf: !cpu.reg.cf, ..cpu.reg },
                    ..cpu
                },
                m,
            ),
        ),
        Instruction::DAA => Ok((CPU { reg: spec_daa(cpu.reg), ..cpu }, m)),
        Instruction::DI => Ok((CPU { ime: false, ..cpu }, m)),
        Instruction::EI => Ok((CPU { ime: true, ..cpu }, m)),
        Instruction::HALT => Ok((CPU { halt: true, ..cpu }, m)),
        Instruction::RETI => {
            let v = spec_pop_val(cpu, m);
            let c1 = spec_pop_cpu(cpu);
            Ok((CPU { ime: true, reg: Registers { pc: v, ..c1.reg }, ..c1 }, m))
        },
        Instruction::NOP => Ok((cpu, m)),
        Instruction::STOP => Err(CpuError::Stop),
        Instruction::NULL => Err(CpuError::NullOpcode),
    }
}

impl CPU {
    /// A fresh CPU: zeroed registers, interrupts disabled, not halted.
    pub fn new() -> (r: CPU)
        ensures
            r.reg == (Registers {
                a: 0,
                b: 0,
                c: 0,
                d: 0,
                e: 0,
                h: 0,
                l: 0,
                zf: false,
                nf: false,
                hf: false,
                cf: false,
                pc: 0,
                sp: 0,
            }),
            r.ime == false,
            r.halt == false,
            r.last_instr == Instruction::NULL,
    {
        CPU { reg: Registers::new(), ime: false, halt: false, last_instr: Instruction::NULL }
    }

    /// Fetches the byte at PC and advances PC.
    pub fn get_imm8(&mut self, mmu: &MMU) -> (r: u8)
        requires
            mmu.wf(),
        ensures
            r == spec_rb(mmu@, old(self).reg.pc),
            *final(self) == spec_pc_add(*old(self), 1),
    {
        let imm8 = mmu.rb(self.reg.pc);
        self.reg.pc = self.reg.pc.wrapping_add(1);
        imm8
    }

    /// Fetches the little-endian 16-bit immediate at PC and advances PC
    /// twice.
    pub fn get_imm16(&mut self, mmu: &MMU) -> (r: u16)
        requires
            mmu.wf(),
        ensures
            (r, *final(self)) == spec_imm16(*old(self), mmu@),
    {
        let lo = mmu.rb(self.reg.pc);
        self.reg.pc = self.reg.pc.wrapping_add(1);
        let hi = mmu.rb(self.reg.pc);
        self.reg.pc = self.reg.pc.wrapping_add(1);
        ((hi as u16) << 8) | (lo as u16)
    }

    /// Pushes a 16-bit value: SP is pre-decremented for each byte and the
    /// high byte lands at the higher address.
    pub fn push(&mut self, mmu: &mut MMU, value: u16)
        requires
            old(mmu).wf(),
        ensures
            (*final(self), final(mmu)@) == spec_push(*old(self), old(mmu)@, value),
            final(mmu).wf(),
    {
        self.reg.sp = self.reg.sp.wrapping_sub(1);
        mmu.wb(self.reg.sp, (value >> 8) as u8);
        self.reg.sp = self.reg.sp.wrapping_sub(1);
        mmu.wb(self.reg.sp, value as u8);
    }

    /// Pops a 16-bit value: the low byte reads at SP, the high byte above
    /// it, and SP is post-incremented twice.
    pub fn pop(&mut self, mmu: &MMU) -> (r: u16)
        requires
            mmu.wf(),
        ensures
            r == spec_pop_val(*old(self), mmu@),
            *final(self) == spec_pop_cpu(*old(self)),
    {
        let lo = mmu.rb(self.reg.sp);
        self.reg.sp = self.reg.sp.wrapping_add(1);
        let hi = mmu.rb(self.reg.sp);
        self.reg.sp = self.reg.sp.wrapping_add(1);
        ((hi as u16) << 8) | (lo as u16)
    }

    /// Fetches an 8-bit source operand: a register, the cell at HL, or the
    /// immediate byte (which advances PC).
    fn operand8(&mut self, mmu: &MMU, t: Target) -> (r: Result<u8, CpuError>)
        requires
            mmu.wf(),
        ensures
            spec_operand8_ok(t) ==> r is Ok && (r->Ok_0, *final(self)) == spec_operand8(
                *old(self),
                mmu@,
                t,
            ),
            !spec_operand8_ok(t) ==> r == Err::<u8, CpuError>(CpuError::BadOperand) && *final(self)
                == *old(self),
    {
        match t {
            Target::A => Ok(self.reg.a),
            Target::B => Ok(self.reg.b),
            Target::C => Ok(self.reg.c),
            Target::D => Ok(self.reg.d),
            Target::E => Ok(self.reg.e),
            Target::H => Ok(self.reg.h),
            Target::L => Ok(self.reg.l),
            Target::HL => Ok(mmu.rb(self.reg.hl())),
            Target::IMM8 => Ok(self.get_imm8(mmu)),
            _ => Err(CpuError::BadOperand),
        }
    }

    /// Reads an in-place 8-bit operand: a register or the cell at HL.
    fn cell8_read(&self, mmu: &MMU, t: Target) -> (r: Result<u8, CpuError>)
        requires
            mmu.wf(),
        ensures
            spec_cell8_ok(t) ==> r == Ok::<u8, CpuError>(spec_cell8(*self, mmu@, t)),
            !spec_cell8_ok(t) ==> r == Err::<u8, CpuError>(CpuError::BadOperand),
    {
        match t {
            Target::A => Ok(self.reg.a),
            Target::B => Ok(self.reg.b),
            Target::C => Ok(self.reg.c),
            Target::D => Ok(self.reg.d),
            Target::E => Ok(self.reg.e),
            Target::H => Ok(self.reg.h),
            Target::L => Ok(self.reg.l),
            Target::HL => Ok(mmu.rb(self.reg.hl())),
            _ => Err(CpuError::BadOperand),
        }
    }

    /// Stores into an in-place 8-bit operand without touching the flags.
    fn cell8_store(&mut self, mmu: &mut MMU, t: Target, v: u8)
        requires
            old(mmu).wf(),
            spec_cell8_ok(t),
        ensures
            (*final(self), final(mmu)@) == spec_cell8_store(*old(self), old(mmu)@, t, v),
            final(mmu).wf(),
    {
        match t {
            Target::A => self.reg.a = v,
            Target::B => self.reg.b = v,
            Target::C => self.reg.c = v,
            Target::D => self.reg.d = v,
            Target::E => self.reg.e = v,
            Target::H => self.reg.h = v,
            Target::L => self.reg.l = v,
            _ => mmu.wb(self.reg.hl(), v),
        }
    }

    /// Stores a rotate, shift or swap result and sets its flags: Z from
    /// the result, N and H clear, C from the ejected bit.
    fn rot_store(&mut self, mmu: &mut MMU, t: Target, v2: u8, c: bool)
        requires
            old(mmu).wf(),
            spec_cell8_ok(t),
        ensures
            (*final(self), final(mmu)@) == spec_rot_store(*old(self), old(mmu)@, t, v2, c),
            final(mmu).wf(),
    {
        self.cell8_store(mmu, t, v2);
        self.reg.set_znhc(v2 == 0, false, false, c);
    }

    /// Executes a load, exactly as `spec_ld` describes.
    #[verifier::rlimit(100)]
    #[verifier::spinoff_prover]
    fn ex_ld(&mut self, mmu: &mut MMU, t1: Target, t2: Target) -> (r: Result<(), CpuError>)
        requires
            old(mmu).wf(),
        ensures
            match spec_ld(*old(self), old(mmu)@, t1, t2) {
                Ok(s) => r is Ok && (*final(self), final(mmu)@) == s,
                Err(e) => r == Err::<(), CpuError>(e) && *final(self) == *old(self) && final(mmu)@ == old(mmu)@,
            },
            final(mmu).wf(),
    {
        match (t1, t2) {
            (Target::SP, Target::IMM16) => {
                self.reg.sp = self.get_imm16(mmu);
                Ok(())
            },
            (Target::BC, Target::IMM16) => {
                let imm16 = self.get_imm16(mmu);
                self.reg.set_bc(imm16);
                Ok(())
            },
            (Target::DE, Target::IMM16) => {
                let imm16 = self.get_imm16(mmu);
                self.reg.set_de(imm16);
                Ok(())
            },
            (Target::HL, Target::IMM16) => {
                let imm16 = self.get_imm16(mmu);
                self.reg.set_hl(imm16);
                Ok(())
            },
            (Target::IMM16, Target::SP) => {
                let lo = (self.reg.sp & 0x00FF) as u8;
                let hi = (self.reg.sp >> 8) as u8;
                let nn = self.get_imm16(mmu);
                mmu.wb(nn, lo);
                mmu.wb(nn.wrapping_add(1), hi);
                Ok(())
            },
            (Target::HLI, Target::A) => {
                let address = self.reg.hli();
                mmu.wb(address, self.reg.a);
                Ok(())
            },
            (Target::HLD, Target::A) => {
                let address = self.reg.hld();
                mmu.wb(address, self.reg.a);
                Ok(())
            },
            (Target::A, Target::HLI) => {
                let address = self.reg.hli();
                self.reg.a = mmu.rb(address);
                Ok(())
            },
            (Target::A, Target::HLD) => {
                let address = self.reg.hld();
                self.reg.a = mmu.rb(address);
                Ok(())
            },
            (Target::BC, Target::A) => {
                mmu.wb(self.reg.bc(), self.reg.a);
                Ok(())
            },
            (Target::DE, Target::A) => {
                mmu.wb(self.reg.de(), self.reg.a);
                Ok(())
            },
            (Target::A, Target::BC) => {
                self.reg.a = mmu.rb(self.reg.bc());
                Ok(())
            },
            (Target::A, Target::DE) => {
                self.reg.a = mmu.rb(self.reg.de());
                Ok(())
            },
            (Target::HL, Target::IMM8) => {
                let address = self.reg.hl();
                let v = self.get_imm8(mmu);
                mmu.wb(address, v);
                Ok(())
            },
            (Target::FFIMM8, Target::A) => {
                let address: u16 = 0xFF00 | (self.get_imm8(mmu) as u16);
                mmu.wb(address, self.reg.a);
                Ok(())
            },
            (Target::FFC, Target::A) => {
                let address: u16 = 0xFF00 | (self.reg.c as u16);
                mmu.wb(address, self.reg.a);
                Ok(())
            },
            (Target::A, Target::FFIMM8) => {
                let v = self.get_imm8(mmu);
                self.reg.a = mmu.rb(0xFF00 | (v as u16));
                Ok(())
            },
            (Target::A, Target::FFC) => {
                self.reg.a = mmu.rb(0xFF00 | (self.reg.c as u16));
                Ok(())
            },
            (Target::IMM16, Target::A) => {
                let nn = self.get_imm16(mmu);
                mmu.wb(nn, self.reg.a);
                Ok(())
            },
            (Target::A, Target::IMM16) => {
                let nn = self.get_imm16(mmu);
                self.reg.a = mmu.rb(nn);
                Ok(())
            },
            (Target::HL, Target::SP) => {
                let v = self.get_imm8(mmu);
                let e: u16 = if v >= 0x80 {
                    (v as u16) + 0xFF00
                } else {
                    v as u16
                };
                let sp = self.reg.sp;
                let sum = sp as u32 + e as u32;
                self.reg.set_znhc(
                    false,
                    false,
                    ((sp & 0xF) as u32) + ((e & 0xF) as u32) > 0xF,
                    ((sp & 0xFF) as u32) + ((e & 0xFF) as u32) > 0xFF,
                );
                self.reg.set_hl((sum % 0x10000) as u16);
                Ok(())
            },
            (Target::SP, Target::HL) => {
                self.reg.sp = self.reg.hl();
                Ok(())
            },
            _ => {
                let dst_r8 = match t1 {
                    Target::A | Target::B | Target::C | Target::D | Target::E | Target::H
                        | Target::L => true,
                    _ => false,
                };
                let src_r8 = match t2 {
                    Target::A | Target::B | Target::C | Target::D | Target::E | Target::H
                        | Target::L => true,
                    _ => false,
                };
                if dst_r8 && src_r8 {
                    let v = match self.cell8_read(mmu, t2) {
                        Ok(v) => v,
                        Err(e) => {
                            return Err(e);
                        },
                    };
                    self.cell8_store(mmu, t1, v);
                    Ok(())
                } else if dst_r8 && matches!(t2, Target::HL) {
                    let v = mmu.rb(self.reg.hl());
                    self.cell8_store(mmu, t1, v);
                    Ok(())
                } else if matches!(t1, Target::HL) && src_r8 {
                    let v = match self.cell8_read(mmu, t2) {
                        Ok(v) => v,
                        Err(e) => {
                            return Err(e);
                        },
                    };
                    mmu.wb(self.reg.hl(), v);
                    Ok(())
                } else if dst_r8 && matches!(t2, Target::IMM8) {
                    let v = self.get_imm8(mmu);
                    self.cell8_store(mmu, t1, v);
                    Ok(())
                } else {
                    Err(CpuError::BadOperand)
                }
            },
        }
    }

    /// Executes INC, exactly as `spec_op_inc` describes.
    #[verifier::rlimit(100)]
    #[verifier::spinoff_prover]
    fn ex_inc(&mut self, mmu: &mut MMU, t: Target) -> (r: Result<(), CpuError>)
        requires
            old(mmu).wf(),
        ensures
            match spec_op_inc(*old(self), old(mmu)@, t) {
                Ok(s) => r is Ok && (*final(self), final(mmu)@) == s,
                Err(e) => r == Err::<(), CpuError>(e) && *final(self) == *old(self) && final(mmu)@ == old(mmu)@,
            },
            final(mmu).wf(),
    {
        match t {
            Target::BC => {
                let v = self.reg.bc().wrapping_add(1);
                self.reg.set_bc(v);
                Ok(())
            },
            Target::DE => {
                let v = self.reg.de().wrapping_add(1);
                self.reg.set_de(v);
                Ok(())
            },
            Target::HL => {
                let v = self.reg.hl().wrapping_add(1);
                self.reg.set_hl(v);
                Ok(())
            },
            Target::SP => {
                self.reg.sp = self.reg.sp.wrapping_add(1);
                Ok(())
            },
            Target::AtHL => {
                let x = mmu.rb(self.reg.hl());
                let nx = x.wrapping_add(1);
                self.reg.set_flag(Flag::Z, nx == 0);
                self.reg.set_flag(Flag::N, false);
                self.reg.set_flag(Flag::H, (x & 0x0F) == 0x0F);
                mmu.wb(self.reg.hl(), nx);
                Ok(())
            },
            _ => {
                let x = match self.cell8_read(mmu, t) {
                    Ok(v) => v,
                    Err(e) => {
                        return Err(e);
                    },
                };
                let nx = x.wrapping_add(1);
                self.reg.set_flag(Flag::Z, nx == 0);
                self.reg.set_flag(Flag::N, false);
                self.reg.set_flag(Flag::H, (x & 0x0F) == 0x0F);
                self.cell8_store(mmu, t, nx);
                Ok(())
            },
        }
    }

    /// Executes DEC, exactly as `spec_op_dec` describes.
    #[verifier::rlimit(100)]
    #[verifier::spinoff_prover]
    fn ex_dec(&mut self, mmu: &mut MMU, t: Target) -> (r: Result<(), CpuError>)
        requires
            old(mmu).wf(),
        ensures
            match spec_op_dec(*old(self), old(mmu)@, t) {
                Ok(s) => r is Ok && (*final(self), final(mmu)@) == s,
                Err(e) => r == Err::<(), CpuError>(e) && *final(self) == *old(self) && final(mmu)@ == old(mmu)@,
            },
            final(mmu).wf(),
    {
        match t {
            Target::BC => {
                let v = self.reg.bc().wrapping_sub(1);
                self.reg.set_bc(v);
                Ok(())
            },
            Target::DE => {
                let v = self.reg.de().wrapping_sub(1);
                self.reg.set_de(v);
                Ok(())
            },
            Target::HL => {
                let v = self.reg.hl().wrapping_sub(1);
                self.reg.set_hl(v);
                Ok(())
            },
            Target::SP => {
                self.reg.sp = self.reg.sp.wrapping_sub(1);
                Ok(())
            },
            Target::AtHL => {
                let x = mmu.rb(self.reg.hl());
                let nx = x.wrapping_sub(1);
                self.reg.set_flag(Flag::Z, nx == 0);
                self.reg.set_flag(Flag::N, true);
                self.reg.set_flag(Flag::H, (x & 0x0F) == 0);
                mmu.wb(self.reg.hl(), nx);
                Ok(())
            },
            _ => {
                let x = match self.cell8_read(mmu, t) {
                    Ok(v) => v,
                    Err(e) => {
                        return Err(e);
                    },
                };
                let nx = x.wrapping_sub(1);
                self.reg.set_flag(Flag::Z, nx == 0);
                self.reg.set_flag(Flag::N, true);
                self.reg.set_flag(Flag::H, (x & 0x0F) == 0);
                self.cell8_store(mmu, t, nx);
                Ok(())
            },
        }
    }

    /// Executes XOR, exactly as its spec function describes.
    #[verifier::rlimit(100)]
    #[verifier::spinoff_prover]
    fn ex_xor(&mut self, mmu: &mut MMU, t: Target) -> (r: Result<(), CpuError>)
        requires
            old(mmu).wf(),
        ensures
            match spec_op_xor(*old(self), old(mmu)@, t) {
                Ok(s) => r is Ok && (*final(self), final(mmu)@) == s,
                Err(e) => r == Err::<(), CpuError>(e) && *final(self) == *old(self) && final(mmu)@
                    == old(mmu)@,
            },
            final(mmu).wf(),
    {
            let v = match self.operand8(mmu, t) {
                Ok(v) => v,
                Err(e) => {
                    return Err(e);
                },
            };
            self.reg.a = self.reg.a ^ v;
            self.reg.set_znhc(self.reg.a == 0, false, false, false);
            Ok(())
        }

    /// Executes OR, exactly as its spec function describes.
    #[verifier::rlimit(100)]
    #[verifier::spinoff_prover]
    fn ex_or(&mut self, mmu: &mut MMU, t: Target) -> (r: Result<(), CpuError>)
        requires
            old(mmu).wf(),
        ensures
            match spec_op_or(*old(self), old(mmu)@, t) {
                Ok(s) => r is Ok && (*final(self), final(mmu)@) == s,
                Err(e) => r == Err::<(), CpuError>(e) && *final(self) == *old(self) && final(mmu)@
                    == old(mmu)@,
            },
            final(mmu).wf(),
    {
            let v = match self.operand8(mmu, t) {
                Ok(v) => v,
                Err(e) => {
                    return Err(e);
                },
            };
            self.reg.a = self.reg.a | v;
            self.reg.set_znhc(self.reg.a == 0, false, false, false);
            Ok(())
        }

    /// Executes AND, exactly as its spec function describes.
    #[verifier::rlimit(100)]
    #[verifier::spinoff_prover]
    fn ex_and(&mut self, mmu: &mut MMU, t: Target) -> (r: Result<(), CpuError>)
        requires
            old(mmu).wf(),
        ensures
            match spec_op_and(*old(self), old(mmu)@, t) {
                Ok(s) => r is Ok && (*final(self), final(mmu)@) == s,
                Err(e) => r == Err::<(), CpuError>(e) && *final(self) == *old(self) && final(mmu)@
                    == old(mmu)@,
            },
            final(mmu).wf(),
    {
            let v = match self.operand8(mmu, t) {
                Ok(v) => v,
                Err(e) => {
                    return Err(e);
                },
            };
            self.reg.a = self.reg.a & v;
            self.reg.set_znhc(self.reg.a == 0, false, true, false);
            Ok(())
        }

    /// Executes ADD, exactly as its spec function describes.
    #[verifier::rlimit(100)]
    #[verifier::spinoff_prover]
    fn ex_add(&mut self, mmu: &mut MMU, t: Target) -> (r: Result<(), CpuError>)
        requires
            old(mmu).wf(),
        ensures
            match spec_op_add(*old(self), old(mmu)@, t) {
                Ok(s) => r is Ok && (*final(self), final(mmu)@) == s,
                Err(e) => r == Err::<(), CpuError>(e) && *final(self) == *old(self) && final(mmu)@
                    == old(mmu)@,
            },
            final(mmu).wf(),
    {
            let v = match self.operand8(mmu, t) {
                Ok(v) => v,
                Err(e) => {
                    return Err(e);
                },
            };
            let a = self.reg.a;
            let sum = a as u16 + v as u16;
            self.reg.a = (sum % 256) as u8;
            self.reg.set_znhc(
                sum % 256 == 0,
                false,
                ((a & 0x0F) as u16) + ((v & 0x0F) as u16) > 0x0F,
                sum > 0xFF,
            );
            Ok(())
        }

    /// Executes ADC, exactly as its spec function describes.
    #[verifier::rlimit(100)]
    #[verifier::spinoff_prover]
    fn ex_adc(&mut self, mmu: &mut MMU, t: Target) -> (r: Result<(), CpuError>)
        requires
            old(mmu).wf(),
        ensures
            match spec_op_adc(*old(self), old(mmu)@, t) {
                Ok(s) => r is Ok && (*final(self), final(mmu)@) == s,
                Err(e) => r == Err::<(), CpuError>(e) && *final(self) == *old(self) && final(mmu)@
                    == old(mmu)@,
            },
            final(mmu).wf(),
    {
            let v = match self.operand8(mmu, t) {
                Ok(v) => v,
                Err(e) => {
                    return Err(e);
                },
            };
            let a = self.reg.a;
            let cin: u8 = if self.reg.cf {
                1
            } else {
                0
            };
            let sum = a as u16 + v as u16 + cin as u16;
            self.reg.a = (sum % 256) as u8;
            self.reg.set_znhc(
                sum % 256 == 0,
                false,
                ((a & 0x0F) as u16) + ((v & 0x0F) as u16) + (cin as u16) > 0x0F,
                sum > 0xFF,
            );
            Ok(())
        }

    /// Executes SUB, exactly as its spec function describes.
    #[verifier::rlimit(100)]
    #[verifier::spinoff_prover]
    fn ex_sub(&mut self, mmu: &mut MMU, t: Target) -> (r: Result<(), CpuError>)
        requires
            old(mmu).wf(),
        ensures
            match spec_op_sub(*old(self), old(mmu)@, t) {
                Ok(s) => r is Ok && (*final(self), final(mmu)@) == s,
                Err(e) => r == Err::<(), CpuError>(e) && *final(self) == *old(self) && final(mmu)@
                    == old(mmu)@,
            },
            final(mmu).wf(),
    {
            let v = match self.operand8(mmu, t) {
                Ok(v) => v,
                Err(e) => {
                    return Err(e);
                },
            };
            let a = self.reg.a;
            let diff = (256u16 + a as u16 - v as u16) % 256;
            self.reg.a = diff as u8;
            self.reg.set_znhc(a == v, true, (a & 0x0F) < (v & 0x0F), a < v);
            Ok(())
        }

    /// Executes SBC, exactly as its spec function describes.
    #[verifier::rlimit(100)]
    #[verifier::spinoff_prover]
    fn ex_sbc(&mut self, mmu: &mut MMU, t: Target) -> (r: Result<(), CpuError>)
        requires
            old(mmu).wf(),
        ensures
            match spec_op_sbc(*old(self), old(mmu)@, t) {
                Ok(s) => r is Ok && (*final(self), final(mmu)@) == s,
                Err(e) => r == Err::<(), CpuError>(e) && *final(self) == *old(self) && final(mmu)@
                    == old(mmu)@,
            },
            final(mmu).wf(),
    {
            let v = match self.operand8(mmu, t) {
                Ok(v) => v,
                Err(e) => {
                    return Err(e);
                },
            };
            let a = self.reg.a;
            let cin: u8 = if self.reg.cf {
                1
            } else {
                0
            };
            let diff = (512u16 + a as u16 - v as u16 - cin as u16) % 256;
            self.reg.a = diff as u8;
            self.reg.set_znhc(
                diff == 0,
                true,
                ((a & 0x0F) as u16) < ((v & 0x0F) as u16) + (cin as u16),
                (a as u16) < v as u16 + cin as u16,
            );
            Ok(())
        }

    /// Executes CP, exactly as its spec function describes.
    #[verifier::rlimit(100)]
    #[verifier::spinoff_prover]
    fn ex_cp(&mut self, mmu: &mut MMU, t: Target) -> (r: Result<(), CpuError>)
        requires
            old(mmu).wf(),
        ensures
            match spec_op_cp(*old(self), old(mmu)@, t) {
                Ok(s) => r is Ok && (*final(self), final(mmu)@) == s,
                Err(e) => r == Err::<(), CpuError>(e) && *final(self) == *old(self) && final(mmu)@
                    == old(mmu)@,
            },
            final(mmu).wf(),
    {
            let v = match self.operand8(mmu, t) {
                Ok(v) => v,
                Err(e) => {
                    return Err(e);
                },
            };
            let a = self.reg.a;
            self.reg.set_znhc(a == v, true, (a & 0x0F) < (v & 0x0F), a < v);
            Ok(())
        }

    /// Executes ADDHL, exactly as its spec function describes.
    #[verifier::rlimit(100)]
    #[verifier::spinoff_prover]
    fn ex_addhl(&mut self, mmu: &mut MMU, t: Target) -> (r: Result<(), CpuError>)
        requires
            old(mmu).wf(),
        ensures
            match spec_op_addhl(*old(self), old(mmu)@, t) {
                Ok(s) => r is Ok && (*final(self), final(mmu)@) == s,
                Err(e) => r == Err::<(), CpuError>(e) && *final(self) == *old(self) && final(mmu)@
                    == old(mmu)@,
            },
            final(mmu).wf(),
    {
            let v = match t {
                Target::BC => self.reg.bc(),
                Target::DE => self.reg.de(),
                Target::HL => self.reg.hl(),
                Target::SP => self.reg.sp,
                _ => {
                    return Err(CpuError::BadOperand);
                },
            };
            let hl = self.reg.hl();
            let sum = hl as u32 + v as u32;
            self.reg.set_flag(Flag::N, false);
            self.reg.set_flag(
                Flag::H,
                ((hl & 0x0FFF) as u32) + ((v & 0x0FFF) as u32) > 0x0FFF,
            );
            self.reg.set_flag(Flag::C, sum > 0xFFFF);
            self.reg.set_hl((sum % 0x10000) as u16);
            Ok(())
        }

    /// Executes ADDSP, exactly as its spec function describes.
    #[verifier::rlimit(100)]
    #[verifier::spinoff_prover]
    fn ex_addsp(&mut self, mmu: &mut MMU) -> (r: Result<(), CpuError>)
        requires
            old(mmu).wf(),
        ensures
            match spec_op_addsp(*old(self), old(mmu)@) {
                Ok(s) => r is Ok && (*final(self), final(mmu)@) == s,
                Err(e) => r == Err::<(), CpuError>(e) && *final(self) == *old(self) && final(mmu)@
                    == old(mmu)@,
            },
            final(mmu).wf(),
    {
            let v = self.get_imm8(mmu);
            let e: u16 = if v >= 0x80 {
                (v as u16) + 0xFF00
            } else {
                v as u16
            };
            let sp = self.reg.sp;
            let sum = sp as u32 + e as u32;
            self.reg.set_znhc(
                false,
                false,
                ((sp & 0xF) as u32) + ((e & 0xF) as u32) > 0xF,
                ((sp & 0xFF) as u32) + ((e & 0xFF) as u32) > 0xFF,
            );
            self.reg.sp = (sum % 0x10000) as u16;
            Ok(())
        }

    /// Executes BIT, exactly as its spec function describes.
    #[verifier::rlimit(100)]
    #[verifier::spinoff_prover]
    fn ex_bit(&mut self, mmu: &mut MMU, i: u8, t: Target) -> (r: Result<(), CpuError>)
        requires
            old(mmu).wf(),
        ensures
            match spec_op_bit(*old(self), old(mmu)@, i, t) {
                Ok(s) => r is Ok && (*final(self), final(mmu)@) == s,
                Err(e) => r == Err::<(), CpuError>(e) && *final(self) == *old(self) && final(mmu)@
                    == old(mmu)@,
            },
            final(mmu).wf(),
    {
            if i > 7 {
                return Err(CpuError::BadOperand);
            }
            let v = match self.cell8_read(mmu, t) {
                Ok(v) => v,
                Err(e) => {
                    return Err(e);
                },
            };
            self.reg.set_flag(Flag::Z, v & (1u8 << i) == 0);
            self.reg.set_flag(Flag::N, false);
            self.reg.set_flag(Flag::H, true);
            Ok(())
        }

    /// Executes RES, exactly as its spec function describes.
    #[verifier::rlimit(100)]
    #[verifier::spinoff_prover]
    fn ex_res(&mut self, mmu: &mut MMU, i: u8, t: Target) -> (r: Result<(), CpuError>)
        requires
            old(mmu).wf(),
        ensures
            match spec_op_res(*old(self), old(mmu)@, i, t) {
                Ok(s) => r is Ok && (*final(self), final(mmu)@) == s,
                Err(e) => r == Err::<(), CpuError>(e) && *final(self) == *old(self) && final(mmu)@
                    == old(mmu)@,
            },
            final(mmu).wf(),
    {
            if i > 7 {
                return Err(CpuError::BadOperand);
            }
            let v = match self.cell8_read(mmu, t) {
                Ok(v) => v,
                Err(e) => {
                    return Err(e);
                },
            };
            self.cell8_store(mmu, t, v & !(1u8 << i));
            Ok(())
        }

    /// Executes SET, exactly as its spec function describes.
    #[verifier::rlimit(100)]
    #[verifier::spinoff_prover]
    fn ex_set(&mut self, mmu: &mut MMU, i: u8, t: Target) -> (r: Result<(), CpuError>)
        requires
            old(mmu).wf(),
        ensures
            match spec_op_set(*old(self), old(mmu)@, i, t) {
                Ok(s) => r is Ok && (*final(self), final(mmu)@) == s,
                Err(e) => r == Err::<(), CpuError>(e) && *final(self) == *old(self) && final(mmu)@
                    == old(mmu)@,
            },
            final(mmu).wf(),
    {
            if i > 7 {
                return Err(CpuError::BadOperand);
            }
            let v = match self.cell8_read(mmu, t) {
                Ok(v) => v,
                Err(e) => {
                    return Err(e);
                },
            };
            self.cell8_store(mmu, t, v | (1u8 << i));
            Ok(())
        }

    /// Executes SWAP, exactly as its spec function describes.
    #[verifier::rlimit(100)]
    #[verifier::spinoff_prover]
    fn ex_swap(&mut self, mmu: &mut MMU, t: Target) -> (r: Result<(), CpuError>)
        requires
            old(mmu).wf(),
        ensures
            match spec_op_swap(*old(self), old(mmu)@, t) {
                Ok(s) => r is Ok && (*final(self), final(mmu)@) == s,
                Err(e) => r == Err::<(), CpuError>(e) && *final(self) == *old(self) && final(mmu)@
                    == old(mmu)@,
            },
            final(mmu).wf(),
    {
            let v = match self.cell8_read(mmu, t) {
                Ok(v) => v,
                Err(e) => {
                    return Err(e);
                },
            };
            self.rot_store(mmu, t, ((v & 0x0F) << 4) | ((v & 0xF0) >> 4), false);
            Ok(())
        }

    /// Executes RL, exactly as its spec function describes.
    #[verifier::rlimit(100)]
    #[verifier::spinoff_prover]
    fn ex_rl(&mut self, mmu: &mut MMU, t: Target) -> (r: Result<(), CpuError>)
        requires
            old(mmu).wf(),
        ensures
            match spec_op_rl(*old(self), old(mmu)@, t) {
                Ok(s) => r is Ok && (*final(self), final(mmu)@) == s,
                Err(e) => r == Err::<(), CpuError>(e) && *final(self) == *old(self) && final(mmu)@
                    == old(mmu)@,
            },
            final(mmu).wf(),
    {
            let v = match self.cell8_read(mmu, t) {
                Ok(v) => v,
                Err(e) => {
                    return Err(e);
                },
            };
            let cf: u8 = if self.reg.cf {
                1
            } else {
                0
            };
            self.rot_store(mmu, t, (v << 1) | cf, v & 0x80 != 0);
            Ok(())
        }

    /// Executes RLC, exactly as its spec function describes.
    #[verifier::rlimit(100)]
    #[verifier::spinoff_prover]
    fn ex_rlc(&mut self, mmu: &mut MMU, t: Target) -> (r: Result<(), CpuError>)
        requires
            old(mmu).wf(),
        ensures
            match spec_op_rlc(*old(self), old(mmu)@, t) {
                Ok(s) => r is Ok && (*final(self), final(mmu)@) == s,
                Err(e) => r == Err::<(), CpuError>(e) && *final(self) == *old(self) && final(mmu)@
                    == old(mmu)@,
            },
            final(mmu).wf(),
    {
            let v = match self.cell8_read(mmu, t) {
                Ok(v) => v,
                Err(e) => {
                    return Err(e);
                },
            };
            let c: u8 = if v & 0x80 != 0 {
                1
            } else {
                0
            };
            self.rot_store(mmu, t, (v << 1) | c, v & 0x80 != 0);
            Ok(())
        }

    /// Executes RRC, exactly as its spec function describes.
    #[verifier::rlimit(100)]
    #[verifier::spinoff_prover]
    fn ex_rrc(&mut self, mmu: &mut MMU, t: Target) -> (r: Result<(), CpuError>)
        requires
            old(mmu).wf(),
        ensures
            match spec_op_rrc(*old(self), old(mmu)@, t) {
                Ok(s) => r is Ok && (*final(self), final(mmu)@) == s,
                Err(e) => r == Err::<(), CpuError>(e) && *final(self) == *old(self) && final(mmu)@
                    == old(mmu)@,
            },
            final(mmu).wf(),
    {
            let v = match self.cell8_read(mmu, t) {
                Ok(v) => v,
                Err(e) => {
                    return Err(e);
                },
            };
            let hi: u8 = if v & 0x01 != 0 {
                0x80
            } else {
                0
            };
            self.rot_store(mmu, t, hi | (v >> 1), v & 0x01 != 0);
            Ok(())
        }

    /// Executes RR, exactly as its spec function describes.
    #[verifier::rlimit(100)]
    #[verifier::spinoff_prover]
    fn ex_rr(&mut self, mmu: &mut MMU, t: Target) -> (r: Result<(), CpuError>)
        requires
            old(mmu).wf(),
        ensures
            match spec_op_rr(*old(self), old(mmu)@, t) {
                Ok(s) => r is Ok && (*final(self), final(mmu)@) == s,
                Err(e) => r == Err::<(), CpuError>(e) && *final(self) == *old(self) && final(mmu)@
                    == old(mmu)@,
            },
            final(mmu).wf(),
    {
            let v = match self.cell8_read(mmu, t) {
                Ok(v) => v,
                Err(e) => {
                    return Err(e);
                },
            };
            let hi: u8 = if self.reg.cf {
                0x80
            } else {
                0
            };
            self.rot_store(mmu, t, hi | (v >> 1), v & 0x01 != 0);
            Ok(())
        }

    /// Executes SLA, exactly as its spec function describes.
    #[verifier::rlimit(100)]
    #[verifier::spinoff_prover]
    fn ex_sla(&mut self, mmu: &mut MMU, t: Target) -> (r: Result<(), CpuError>)
        requires
            old(mmu).wf(),
        ensures
            match spec_op_sla(*old(self), old(mmu)@, t) {
                Ok(s) => r is Ok && (*final(self), final(mmu)@) == s,
                Err(e) => r == Err::<(), CpuError>(e) && *final(self) == *old(self) && final(mmu)@
                    == old(mmu)@,
            },
            final(mmu).wf(),
    {
            let v = match self.cell8_read(mmu, t) {
                Ok(v) => v,
                Err(e) => {
                    return Err(e);
                },
            };
            self.rot_store(mmu, t, v << 1, v & 0x80 != 0);
            Ok(())
        }

    /// Executes SRA, exactly as its spec function describes.
    #[verifier::rlimit(100)]
    #[verifier::spinoff_prover]
    fn ex_sra(&mut self, mmu: &mut MMU, t: Target) -> (r: Result<(), CpuError>)
        requires
            old(mmu).wf(),
        ensures
            match spec_op_sra(*old(self), old(mmu)@, t) {
                Ok(s) => r is Ok && (*final(self), final(mmu)@) == s,
                Err(e) => r == Err::<(), CpuError>(e) && *final(self) == *old(self) && final(mmu)@
                    == old(mmu)@,
            },
            final(mmu).wf(),
    {
            let v = match self.cell8_read(mmu, t) {
                Ok(v) => v,
                Err(e) => {
                    return Err(e);
                },
            };
            self.rot_store(mmu, t, (v & 0x80) | (v >> 1), v & 0x01 != 0);
            Ok(())
        }

    /// Executes SRL, exactly as its spec function describes.
    #[verifier::rlimit(100)]
    #[verifier::spinoff_prover]
    fn ex_srl(&mut self, mmu: &mut MMU, t: Target) -> (r: Result<(), CpuError>)
        requires
            old(mmu).wf(),
        ensures
            match spec_op_srl(*old(self), old(mmu)@, t) {
                Ok(s) => r is Ok && (*final(self), final(mmu)@) == s,
                Err(e) => r == Err::<(), CpuError>(e) && *final(self) == *old(self) && final(mmu)@
                    == old(mmu)@,
            },
            final(mmu).wf(),
    {
            let v = match self.cell8_read(mmu, t) {
                Ok(v) => v,
                Err(e) => {
                    return Err(e);
                },
            };
            self.rot_store(mmu, t, v >> 1, v & 0x01 != 0);
            Ok(())
        }

    /// Executes JR, exactly as its spec function describes.
    #[verifier::rlimit(100)]
    #[verifier::spinoff_prover]
    fn ex_jr(&mut self, mmu: &mut MMU, f: JumpFlag) -> (r: Result<(), CpuError>)
        requires
            old(mmu).wf(),
        ensures
            match spec_op_jr(*old(self), old(mmu)@, f) {
                Ok(s) => r is Ok && (*final(self), final(mmu)@) == s,
                Err(e) => r == Err::<(), CpuError>(e) && *final(self) == *old(self) && final(mmu)@
                    == old(mmu)@,
            },
            final(mmu).wf(),
    {
            let should_jump = match f {
                JumpFlag::NZ => !self.reg.zf,
                JumpFlag::NC => !self.reg.cf,
                JumpFlag::Z => self.reg.zf,
                JumpFlag::C => self.reg.cf,
                JumpFlag::A => true,
                JumpFlag::AtHL => {
                    return Err(CpuError::BadOperand);
                },
            };
            let jump = self.get_imm8(mmu);
            if should_jump {
                let e: u16 = if jump >= 0x80 {
                    (jump as u16) + 0xFF00
                } else {
                    jump as u16
                };
                self.reg.pc = self.reg.pc.wrapping_add(e);
            }
            Ok(())
        }

    /// Executes JP, exactly as its spec function describes.
    #[verifier::rlimit(100)]
    #[verifier::spinoff_prover]
    fn ex_jp(&mut self, mmu: &mut MMU, f: JumpFlag) -> (r: Result<(), CpuError>)
        requires
            old(mmu).wf(),
        ensures
            match spec_op_jp(*old(self), old(mmu)@, f) {
                Ok(s) => r is Ok && (*final(self), final(mmu)@) == s,
                Err(e) => r == Err::<(), CpuError>(e) && *final(self) == *old(self) && final(mmu)@
                    == old(mmu)@,
            },
            final(mmu).wf(),
    {
            let mut jump = self.get_imm16(mmu);
            let should_jump = match f {
                JumpFlag::NZ => !self.reg.zf,
                JumpFlag::NC => !self.reg.cf,
                JumpFlag::Z => self.reg.zf,
                JumpFlag::C => self.reg.cf,
                JumpFlag::A => true,
                JumpFlag::AtHL => {
                    jump = self.reg.hl();
                    true
                },
            };
            if should_jump {
                self.reg.pc = jump;
            }
            Ok(())
        }

    /// Executes CALL, exactly as its spec function describes.
    #[verifier::rlimit(100)]
    #[verifier::spinoff_prover]
    fn ex_call(&mut self, mmu: &mut MMU, f: JumpFlag) -> (r: Result<(), CpuError>)
        requires
            old(mmu).wf(),
        ensures
            match spec_op_call(*old(self), old(mmu)@, f) {
                Ok(s) => r is Ok && (*final(self), final(mmu)@) == s,
                Err(e) => r == Err::<(), CpuError>(e) && *final(self) == *old(self) && final(mmu)@
                    == old(mmu)@,
            },
            final(mmu).wf(),
    {
            let should_jump = match f {
                JumpFlag::NZ => !self.reg.zf,
                JumpFlag::NC => !self.reg.cf,
                JumpFlag::Z => self.reg.zf,
                JumpFlag::C => self.reg.cf,
                JumpFlag::A => true,
                JumpFlag::AtHL => {
                    return Err(CpuError::BadOperand);
                },
            };
            let jump = self.get_imm16(mmu);
            if should_jump {
                let pc = self.reg.pc;
                self.push(mmu, pc);
                self.reg.pc = jump;
            }
            Ok(())
        }

    /// Executes RET, exactly as its spec function describes.
    #[verifier::rlimit(100)]
    #[verifier::spinoff_prover]
    fn ex_ret(&mut self, mmu: &mut MMU, f: JumpFlag) -> (r: Result<(), CpuError>)
        requires
            old(mmu).wf(),
        ensures
            match spec_op_ret(*old(self), old(mmu)@, f) {
                Ok(s) => r is Ok && (*final(self), final(mmu)@) == s,
                Err(e) => r == Err::<(), CpuError>(e) && *final(self) == *old(self) && final(mmu)@
                    == old(mmu)@,
            },
            final(mmu).wf(),
    {
            let should_jump = match f {
                JumpFlag::NZ => !self.reg.zf,
                JumpFlag::NC => !self.reg.cf,
                JumpFlag::Z => self.reg.zf,
                JumpFlag::C => self.reg.cf,
                JumpFlag::A => true,
                JumpFlag::AtHL => {
                    return Err(CpuError::BadOperand);
                },
            };
            if should_jump {
                let v = self.pop(mmu);
                self.reg.pc = v;
            }
            Ok(())
        }

    /// Executes PUSH, exactly as its spec function describes.
    #[verifier::rlimit(100)]
    #[verifier::spinoff_prover]
    fn ex_push(&mut self, mmu: &mut MMU, t: Target) -> (r: Result<(), CpuError>)
        requires
            old(mmu).wf(),
        ensures
            match spec_op_push(*old(self), old(mmu)@, t) {
                Ok(s) => r is Ok && (*final(self), final(mmu)@) == s,
                Err(e) => r == Err::<(), CpuError>(e) && *final(self) == *old(self) && final(mmu)@
                    == old(mmu)@,
            },
            final(mmu).wf(),
    {
            let v = match t {
                Target::AF => self.reg.af(),
                Target::BC => self.reg.bc(),
                Target::DE => self.reg.de(),
                Target::HL => self.reg.hl(),
                _ => {
                    return Err(CpuError::BadOperand);
                },
            };
            self.push(mmu, v);
            Ok(())
        }

    /// Executes POP, exactly as its spec function describes.
    #[verifier::rlimit(100)]
    #[verifier::spinoff_prover]
    fn ex_pop(&mut self, mmu: &mut MMU, t: Target) -> (r: Result<(), CpuError>)
        requires
            old(mmu).wf(),
        ensures
            match spec_op_pop(*old(self), old(mmu)@, t) {
                Ok(s) => r is Ok && (*final(self), final(mmu)@) == s,
                Err(e) => r == Err::<(), CpuError>(e) && *final(self) == *old(self) && final(mmu)@
                    == old(mmu)@,
            },
            final(mmu).wf(),
    {
            match t {
                Target::AF | Target::BC | Target::DE | Target::HL => {},
                _ => {
                    return Err(CpuError::BadOperand);
                },
            }
            let v = self.pop(mmu);
            match t {
                Target::AF => self.reg.set_af(v),
                Target::BC => self.reg.set_bc(v),
                Target::DE => self.reg.set_de(v),
                _ => self.reg.set_hl(v),
            }
            Ok(())
        }

    /// Executes the load, increment and arithmetic instructions.
    #[verifier::rlimit(100)]
    #[verifier::spinoff_prover]
    fn ex_group_loads_arith(&mut self, mmu: &mut MMU, instr: Instruction) -> (r: Result<(), CpuError>)
        requires
            old(mmu).wf(),
            instr is LD || instr is INC || instr is DEC || instr is XOR || instr is OR || instr is AND || instr is ADD || instr is ADC || instr is SUB || instr is SBC || instr is CP || instr is ADDHL || instr is ADDSP || instr is BIT || instr is RES || instr is SET,
        ensures
            match spec_execute(*old(self), old(mmu)@, instr) {
                Ok(s) => r is Ok && (*final(self), final(mmu)@) == s,
                Err(e) => r == Err::<(), CpuError>(e) && *final(self) == *old(self) && final(mmu)@
                    == old(mmu)@,
            },
            final(mmu).wf(),
    {
        match instr {
            Instruction::LD(t1, t2) => self.ex_ld(mmu, t1, t2),
            Instruction::INC(t) => self.ex_inc(mmu, t),
            Instruction::DEC(t) => self.ex_dec(mmu, t),
            Instruction::XOR(t) => self.ex_xor(mmu, t),
            Instruction::OR(t) => self.ex_or(mmu, t),
            Instruction::AND(t) => self.ex_and(mmu, t),
            Instruction::ADD(t) => self.ex_add(mmu, t),
            Instruction::ADC(t) => self.ex_adc(mmu, t),
            Instruction::SUB(t) => self.ex_sub(mmu, t),
            Instruction::SBC(t) => self.ex_sbc(mmu, t),
            Instruction::CP(t) => self.ex_cp(mmu, t),
            Instruction::ADDHL(t) => self.ex_addhl(mmu, t),
            Instruction::ADDSP => self.ex_addsp(mmu),
            Instruction::BIT(i, t) => self.ex_bit(mmu, i, t),
            Instruction::RES(i, t) => self.ex_res(mmu, i, t),
            Instruction::SET(i, t) => self.ex_set(mmu, i, t),
            _ => Err(CpuError::BadOperand),
        }
    }

    /// Executes the bit-test, bit-set and rotate instructions.
    #[verifier::rlimit(100)]
    #[verifier::spinoff_prover]
    fn ex_group_bits_rotates(&mut self, mmu: &mut MMU, instr: Instruction) -> (r: Result<(), CpuError>)
        requires
            old(mmu).wf(),
            instr is SWAP || instr is RL || instr is RLC || instr is RRC || instr is RR || instr is SLA || instr is SRA || instr is SRL || instr is JR || instr is JP || instr is CALL || instr is RET || instr is PUSH || instr is POP || instr is RST,
        ensures
            match spec_execute(*old(self), old(mmu)@, instr) {
                Ok(s) => r is Ok && (*final(self), final(mmu)@) == s,
                Err(e) => r == Err::<(), CpuError>(e) && *final(self) == *old(self) && final(mmu)@
                    == old(mmu)@,
            },
            final(mmu).wf(),
    {
        match instr {
            Instruction::SWAP(t) => self.ex_swap(mmu, t),
            Instruction::RL(t) => self.ex_rl(mmu, t),
            Instruction::RLC(t) => self.ex_rlc(mmu, t),
            Instruction::RRC(t) => self.ex_rrc(mmu, t),
            Instruction::RR(t) => self.ex_rr(mmu, t),
            Instruction::SLA(t) => self.ex_sla(mmu, t),
            Instruction::SRA(t) => self.ex_sra(mmu, t),
            Instruction::SRL(t) => self.ex_srl(mmu, t),
            Instruction::JR(f) => self.ex_jr(mmu, f),
            Instruction::JP(f) => self.ex_jp(mmu, f),
            Instruction::CALL(f) => self.ex_call(mmu, f),
            Instruction::RET(f) => self.ex_ret(mmu, f),
            Instruction::PUSH(t) => self.ex_push(mmu, t),
            Instruction::POP(t) => self.ex_pop(mmu, t),
            Instruction::RST(n) => {
                let pc = self.reg.pc;
                self.push(mmu, pc);
                self.reg.pc = n as u16;
                Ok(())
            },
            _ => Err(CpuError::BadOperand),
        }
    }

    /// Executes the control-flow, accumulator and latch instructions.
    #[verifier::rlimit(100)]
    #[verifier::spinoff_prover]
    fn ex_group_flow_misc(&mut self, mmu: &mut MMU, instr: Instruction) -> (r: Result<(), CpuError>)
        requires
            old(mmu).wf(),
            instr is RLCA || instr is RLA || instr is RRCA || instr is RRA || instr is CPL || instr is SCF || instr is CCF || instr is DAA || instr is DI || instr is EI || instr is HALT || instr is RETI || instr is NOP || instr is STOP || instr is NULL,
        ensures
            match spec_execute(*old(self), old(mmu)@, instr) {
                Ok(s) => r is Ok && (*final(self), final(mmu)@) == s,
                Err(e) => r == Err::<(), CpuError>(e) && *final(self) == *old(self) && final(mmu)@
                    == old(mmu)@,
            },
            final(mmu).wf(),
    {
        match instr {
            Instruction::RLCA => {
                let a = self.reg.a;
                let c: u8 = if a & 0x80 != 0 {
                    1
                } else {
                    0
                };
                self.reg.a = (a << 1) | c;
                self.reg.set_znhc(false, false, false, a & 0x80 != 0);
                Ok(())
            },
            Instruction::RLA => {
                let a = self.reg.a;
                let cf: u8 = if self.reg.cf {
                    1
                } else {
                    0
                };
                self.reg.a = (a << 1) | cf;
                self.reg.set_znhc(false, false, false, a & 0x80 != 0);
                Ok(())
            },
            Instruction::RRCA => {
                let a = self.reg.a;
                let hi: u8 = if a & 0x01 != 0 {
                    0x80
                } else {
                    0
                };
                self.reg.a = hi | (a >> 1);
                self.reg.set_znhc(false, false, false, a & 0x01 != 0);
                Ok(())
            },
            Instruction::RRA => {
                let a = self.reg.a;
                let hi: u8 = if self.reg.cf {
                    0x80
                } else {
                    0
                };
                self.reg.a = hi | (a >> 1);
                self.reg.set_znhc(false, false, false, a & 0x01 != 0);
                Ok(())
            },
            Instruction::CPL => {
                self.reg.a = !self.reg.a;
                self.reg.set_flag(Flag::N, true);
                self.reg.set_flag(Flag::H, true);
                Ok(())
            },
            Instruction::SCF => {
                self.reg.set_flag(Flag::N, false);
                self.reg.set_flag(Flag::H, false);
                self.reg.set_flag(Flag::C, true);
                Ok(())
            },
            Instruction::CCF => {
                let c = self.reg.cf;
                self.reg.set_flag(Flag::N, false);
                self.reg.set_flag(Flag::H, false);
                self.reg.set_flag(Flag::C, !c);
                Ok(())
            },
            Instruction::DAA => {
                let mut carry = false;
                let mut a = self.reg.a;

                if !self.reg.nf {
                    if self.reg.cf || a > 0x99 {
                        carry = true;
                        a = ((a as u16 + 0x60) % 256) as u8;
                    }
                    if self.reg.hf || (a & 0x0F) > 0x09 {
                        a = ((a as u16 + 0x06) % 256) as u8;
                    }
                } else {
                    if self.reg.cf {
                        carry = true;
                        a = ((a as u16 + 0xA0) % 256) as u8;
                    }
                    if self.reg.hf {
                        a = ((a as u16 + 0xFA) % 256) as u8;
                    }
                }

                self.reg.a = a;
                self.reg.set_flag(Flag::Z, a == 0);
                self.reg.set_flag(Flag::H, false);
                self.reg.set_flag(Flag::C, carry);
                Ok(())
            },
            Instruction::DI => {
                self.ime = false;
                Ok(())
            },
            Instruction::EI => {
                self.ime = true;
                Ok(())
            },
            Instruction::HALT => {
                self.halt = true;
                Ok(())
            },
            Instruction::RETI => {
                self.ime = true;
                let v = self.pop(mmu);
                self.reg.pc = v;
                Ok(())
            },
            Instruction::NOP => Ok(()),
            Instruction::STOP => Err(CpuError::Stop),
            Instruction::NULL => Err(CpuError::NullOpcode),
            _ => Err(CpuError::BadOperand),
        }
    }

    /// Applies the semantics of `instr` to the register file and the bus,
    /// exactly as `spec_execute` describes; an error leaves both untouched.
    pub fn execute(&mut self, mmu: &mut MMU, instr: Instruction) -> (r: Result<(), CpuError>)
        requires
            old(mmu).wf(),
        ensures
            match spec_execute(*old(self), old(mmu)@, instr) {
                Ok(s) => r is Ok && (*final(self), final(mmu)@) == s,
                Err(e) => r == Err::<(), CpuError>(e) && *final(self) == *old(self) && final(mmu)@
                    == old(mmu)@,
            },
            final(mmu).wf(),
    {
        match instr {
            Instruction::LD(..) | Instruction::INC(..) | Instruction::DEC(..) | Instruction::XOR(..) | Instruction::OR(..) | Instruction::AND(..) | Instruction::ADD(..) | Instruction::ADC(..) | Instruction::SUB(..) | Instruction::SBC(..) | Instruction::CP(..) | Instruction::ADDHL(..) | Instruction::ADDSP | Instruction::BIT(..) | Instruction::RES(..) | Instruction::SET(..) => self.ex_group_loads_arith(mmu, instr),
            Instruction::SWAP(..) | Instruction::RL(..) | Instruction::RLC(..) | Instruction::RRC(..) | Instruction::RR(..) | Instruction::SLA(..) | Instruction::SRA(..) | Instruction::SRL(..) | Instruction::JR(..) | Instruction::JP(..) | Instruction::CALL(..) | Instruction::RET(..) | Instruction::PUSH(..) | Instruction::POP(..) | Instruction::RST(..) => self.ex_group_bits_rotates(mmu, instr),
            _ => self.ex_group_flow_misc(mmu, instr),
        }
    }

    /// Fetches and decodes the instruction at PC, with its m-cycle cost.
    pub fn fetch_instr(&mut self, mmu: &MMU) -> (r: (Instruction, u8))
        requires
            mmu.wf(),
        ensures
            (r.0, r.1, *final(self)) == spec_fetch(*old(self), mmu@),
            r.1 <= 6,
    {
        let byte = self.get_imm8(mmu);
        match byte {
            0xCB => {
                let cb_byte = self.get_imm8(mmu);
                let instr = Instruction::decode_cb(cb_byte);
                let c = cb_clocks(cb_byte);
                proof {
                    vstd::arithmetic::div_mod::lemma_add_mod_noop(
                        old(self).reg.pc as int,
                        1,
                        0x10000,
                    );
                    vstd::arithmetic::div_mod::lemma_add_mod_noop(
                        (old(self).reg.pc + 1) as int,
                        1,
                        0x10000,
                    );
                    vstd::arithmetic::div_mod::lemma_mod_twice(
                        (old(self).reg.pc + 1) as int,
                        0x10000,
                    );
                }
                (instr, c)
            },
            _ => {
                let instr = Instruction::decode(byte);
                let c = clocks(byte);
                (instr, c)
            },
        }
    }

    /// Whether an enabled interrupt is pending and the CPU would act on it.
    pub fn interrupt_exists(&self, mmu: &mut MMU) -> (r: bool)
        requires
            old(mmu).wf(),
        ensures
            r == spec_interrupt_exists(*self, old(mmu)@),
            *final(mmu) == *old(mmu),
    {
        let e_i = mmu.rb(0xFFFF);
        let i_f = mmu.rb(0xFF0F);
        let e_f = e_i & i_f;
        proof {
            lemma_if_bits_masked(old(mmu)@.ie, old(mmu)@.intr.flags);
        }
        (self.halt || self.ime) && (e_f & 0b0001_1111) != 0
    }

    /// Dispatches the highest-priority pending interrupt, exactly as
    /// `spec_handle_interrupt` describes.
    #[verifier::rlimit(100)]
    #[verifier::spinoff_prover]
    pub fn handle_interrupt(&mut self, mmu: &mut MMU)
        requires
            old(mmu).wf(),
        ensures
            (*final(self), final(mmu)@) == spec_handle_interrupt(*old(self), old(mmu)@),
            final(mmu).wf(),
    {
        self.halt = false;
        if !self.ime {
            return ;
        }

        let e_i = mmu.rb(0xFFFF);
        let i_f = mmu.rb(0xFF0F);
        let e_f = e_i & i_f;
        if e_f & 0x1F == 0 {
            return ;
        }
        self.ime = false;

        let index: u8 = if e_f & 0x01 != 0 {
            0
        } else if e_f & 0x02 != 0 {
            1
        } else if e_f & 0x04 != 0 {
            2
        } else if e_f & 0x08 != 0 {
            3
        } else {
            4
        };
        mmu.wb(0xFF0F, i_f & !(1u8 << index));

        // a delayed enable has already executed the displaced instruction,
        // so the return address is PC itself rather than the opcode before it
        if self.last_instr == Instruction::EI {
            let pc = self.reg.pc;
            self.push(mmu, pc);
        } else {
            let pc = self.reg.pc.wrapping_sub(1);
            self.push(mmu, pc);
        }
        self.reg.pc = if index == 0 {
            0x40
        } else if index == 1 {
            0x48
        } else if index == 2 {
            0x50
        } else if index == 3 {
            0x58
        } else {
            0x60
        };
    }

    /// Advances by exactly one instruction (or one interrupt dispatch),
    /// exactly as `spec_step` describes, returning the m-cycle cost.
    #[verifier::rlimit(100)]
    #[verifier::spinoff_prover]
    pub fn step(&mut self, mmu: &mut MMU) -> (r: Result<u8, CpuError>)
        requires
            old(mmu).wf(),
        ensures
            match spec_step(*old(self), old(mmu)@) {
                Ok(s) => r == Ok::<u8, CpuError>(s.2) && (*final(self), final(mmu)@) == (s.0, s.1),
                Err(e) => r == Err::<u8, CpuError>(e),
            },
            final(mmu).wf(),
    {
        let (instr, clocks) = if self.halt {
            (Instruction::HALT, 1)
        } else {
            self.fetch_instr(mmu)
        };

        mmu.timer.tick_n(&mut mmu.intr, clocks);

        if self.interrupt_exists(mmu) {
            // the effect of EI is delayed one instruction
            if self.last_instr == Instruction::EI {
                match self.execute(mmu, instr) {
                    Ok(()) => {},
                    Err(e) => {
                        return Err(e);
                    },
                }
            }
            self.handle_interrupt(mmu);
        } else if !self.halt {
            match self.execute(mmu, instr) {
                Ok(()) => {},
                Err(e) => {
                    return Err(e);
                },
            }
        }

        self.last_instr = instr;
        Ok(clocks)
    }

}

/// The fetched instruction, its m-cycle cost, and the CPU after the fetch;
/// the 0xCB prefix consumes a second byte and selects the prefix table.
pub open spec fn spec_fetch(cpu: CPU, m: MmuView) -> (Instruction, u8, CPU) {
    let byte = spec_rb(m, cpu.reg.pc);
    if byte == 0xCB {
        let cb = spec_rb(m, ((cpu.reg.pc + 1) % 0x10000) as u16);
        (spec_decode_cb(cb), spec_cb_clocks(cb), spec_pc_add(cpu, 2))
    } else {
        (spec_decode(byte), spec_clocks(byte), spec_pc_add(cpu, 1))
    }
}

/// Whether an enabled interrupt is pending and the CPU would act on it:
/// a bit set in both IE and IF (low five bits), with the CPU halted or its
/// master enable set.
pub open spec fn spec_interrupt_exists(cpu: CPU, m: MmuView) -> bool {
    (cpu.halt || cpu.ime) && (m.ie & m.intr.flags & 0x1F) != 0
}

/// The lowest set bit among the five interrupt bits: the pending source
/// with the highest priority.
pub open spec fn spec_int_index(ef: u8) -> u8 {
    if ef & 0x01 != 0 {
        0u8
    } else if ef & 0x02 != 0 {
        1u8
    } else if ef & 0x04 != 0 {
        2u8
    } else if ef & 0x08 != 0 {
        3u8
    } else {
        4u8
    }
}

/// The dispatch vector of interrupt source `i`.
pub open spec fn spec_int_vector(i: u8) -> u16 {
    if i == 0 {
        0x40u16
    } else if i == 1 {
        0x48u16
    } else if i == 2 {
        0x50u16
    } else if i == 3 {
        0x58u16
    } else {
        0x60u16
    }
}

/// The CPU and bus after an interrupt dispatch: the halt latch always
/// clears; with the master enable clear, or nothing pending, nothing more
/// happens. Otherwise the master enable clears, the highest-priority
/// pending bit is erased from IF (through the 0xFF0F write path), the
/// return address is pushed — PC itself after a delayed enable, PC minus
/// one otherwise, to re-fetch the displaced instruction — and PC jumps to
/// the source's vector.
pub open spec fn spec_handle_interrupt(cpu: CPU, m: MmuView) -> (CPU, MmuView) {
    let c0 = CPU { halt: false, ..cpu };
    let i_f = spec_rb(m, 0xFF0F);
    let ef = (spec_rb(m, 0xFFFF) & i_f) as u8;
    if !cpu.ime || ef & 0x1F == 0 {
        (c0, m)
    } else {
        let c1 = CPU { ime: false, ..c0 };
        let idx = spec_int_index(ef);
        let m1 = spec_wb(m, 0xFF0F, (i_f & !((1u8 << idx) as u8)) as u8);
        let ret: u16 = if cpu.last_instr == Instruction::EI {
            cpu.reg.pc
        } else {
            ((cpu.reg.pc + 0xFFFF) % 0x10000) as u16
        };
        let (c2, m2) = spec_push(c1, m1, ret);
        (CPU { reg: Registers { pc: spec_int_vector(idx), ..c2.reg }, ..c2 }, m2)
    }
}

/// The CPU, bus and m-cycle cost after one step: one instruction is
/// fetched (HALT at one m-cycle while halted), the timer advances by the
/// instruction's m-cycles, and then either an interrupt dispatches — with
/// the fetched instruction executed first when the previous instruction
/// was EI — or the instruction executes; a halted CPU with nothing pending
/// idles. The executed-last-instruction latch always records the fetch.
pub open spec fn spec_step(cpu: CPU, m: MmuView) -> Result<(CPU, MmuView, u8), CpuError> {
    let (instr, clocks, c1) = if cpu.halt {
        (Instruction::HALT, 1u8, cpu)
    } else {
        spec_fetch(cpu, m)
    };
    let (t1, f1) = spec_tick_n(m.timer, m.intr.flags, clocks as nat);
    let m1 = MmuView { timer: t1, intr: IntReq { flags: f1 }, ..m };
    if spec_interrupt_exists(c1, m1) {
        if c1.last_instr == Instruction::EI {
            match spec_execute(c1, m1, instr) {
                Ok(s) => {
                    let (c3, m3) = spec_handle_interrupt(s.0, s.1);
                    Ok((CPU { last_instr: instr, ..c3 }, m3, clocks))
                },
                Err(e) => Err(e),
            }
        } else {
            let (c3, m3) = spec_handle_interrupt(c1, m1);
            Ok((CPU { last_instr: instr, ..c3 }, m3, clocks))
        }
    } else if !c1.halt {
        match spec_execute(c1, m1, instr) {
            Ok(s) => Ok((CPU { last_instr: instr, ..s.0 }, s.1, clocks)),
            Err(e) => Err(e),
        }
    } else {
        Ok((CPU { last_instr: instr, ..c1 }, m1, clocks))
    }
}

/// After executing any instruction from any state, the low nibble of the
/// flag byte F is zero: the byte form of F never exposes its low four bits.
pub proof fn lemma_execute_flag_low_nibble(cpu: CPU, m: MmuView, instr: Instruction)
    ensures
        spec_execute(cpu, m, instr) is Ok ==> spec_execute(cpu, m, instr)->Ok_0.0.reg.spec_f()
            & 0x0F == 0,
{
    if spec_execute(cpu, m, instr) is Ok {
        let reg = spec_execute(cpu, m, instr)->Ok_0.0.reg;
        crate::registers::lemma_flag_byte_low_nibble(reg.zf, reg.nf, reg.hf, reg.cf);
    }
}

/// Splitting a 16-bit value into its two bytes and reassembling them,
/// high byte shifted over low byte, restores the value.
proof fn lemma_u16_byte_split(v: u16)
    by (bit_vector)
    ensures
        (((((v >> 8) as u8)) as u16) << 8) | (((v as u8)) as u16) == v,
{
}

/// Popping immediately after pushing returns the pushed value, for any
/// 16-bit value and any stack pointer whose two cells are backed by plain
/// storage; the stack pointer comes back to where it started.
pub proof fn lemma_push_pop_round_trip(cpu: CPU, m: MmuView, v: u16)
    requires
        spec_mmu_wf(m),
        crate::mmu::spec_writable(((cpu.reg.sp + 0xFFFF) % 0x10000) as u16),
        crate::mmu::spec_writable(((cpu.reg.sp + 0xFFFE) % 0x10000) as u16),
    ensures
        ({
            let (c1, m1) = spec_push(cpu, m, v);
            &&& spec_pop_val(c1, m1) == v
            &&& spec_pop_cpu(c1).reg.sp == cpu.reg.sp
        }),
{
    let sp1 = ((cpu.reg.sp + 0xFFFF) % 0x10000) as u16;
    let sp2 = ((sp1 + 0xFFFF) % 0x10000) as u16;
    assert(sp2 == ((cpu.reg.sp + 0xFFFE) % 0x10000) as u16);
    let hi = (v >> 8) as u8;
    let lo = v as u8;
    let m1 = spec_wb(m, sp1, hi);
    let m2 = spec_wb(m1, sp2, lo);
    crate::mmu::lemma_wb_wf(m, sp1, hi);
    assert(sp1 != sp2);
    crate::mmu::lemma_rb_wb_round_trip(m1, sp2, lo);
    crate::mmu::lemma_wb_frame(m1, sp2, lo, sp1);
    crate::mmu::lemma_rb_wb_round_trip(m, sp1, hi);
    assert(((sp2 + 1) % 0x10000) as u16 == sp1);
    lemma_u16_byte_split(v);
    assert(spec_pop_val(spec_push(cpu, m, v).0, m2) == ((((((v >> 8) as u8)) as u16) << 8) | (((v
        as u8)) as u16)) as u16);
}

/// The rotate pairs undo each other on the byte.
pub proof fn lemma_rotate_identity(v: u8)
    by (bit_vector)
    ensures
        spec_rrc_val(spec_rlc_val(v)) == v,
        spec_rlc_val(spec_rrc_val(v)) == v,
{
}

/// RLC then RRC on the same register is the identity, and each rotate's
/// carry flag is the bit it rotated out (bit 7 going left, bit 0 going
/// right); the same holds in the other order.
pub proof fn lemma_rlc_rrc_round_trip(cpu: CPU, m: MmuView, t: Target)
    requires
        spec_is_r8(t),
    ensures
        ({
            let s1 = spec_op_rlc(cpu, m, t);
            &&& s1 is Ok
            &&& s1->Ok_0.0.reg.cf == (spec_r8(cpu.reg, t) & 0x80 != 0)
            &&& ({
                let s2 = spec_op_rrc(s1->Ok_0.0, s1->Ok_0.1, t);
                &&& s2 is Ok
                &&& spec_r8(s2->Ok_0.0.reg, t) == spec_r8(cpu.reg, t)
                &&& s2->Ok_0.0.reg.cf == (spec_rlc_val(spec_r8(cpu.reg, t)) & 0x01 != 0)
            })
        }),
        ({
            let s1 = spec_op_rrc(cpu, m, t);
            &&& s1 is Ok
            &&& s1->Ok_0.0.reg.cf == (spec_r8(cpu.reg, t) & 0x01 != 0)
            &&& ({
                let s2 = spec_op_rlc(s1->Ok_0.0, s1->Ok_0.1, t);
                &&& s2 is Ok
                &&& spec_r8(s2->Ok_0.0.reg, t) == spec_r8(cpu.reg, t)
            })
        }),
{
    lemma_rotate_identity(spec_r8(cpu.reg, t));
}

/// SWAP is its own inverse on the byte.
pub proof fn lemma_swap_involution(v: u8)
    by (bit_vector)
    ensures
        spec_swap_val(spec_swap_val(v)) == v,
{
}

/// After SWAP the flags are fully determined by the result: Z exactly when
/// the swapped byte is zero, and N, H and C clear; applying SWAP twice to
/// the same register restores the byte.
pub proof fn lemma_swap_flags_and_involution(cpu: CPU, m: MmuView, t: Target)
    requires
        spec_is_r8(t),
    ensures
        ({
            let s1 = spec_op_swap(cpu, m, t);
            &&& s1 is Ok
            &&& s1->Ok_0.0.reg.zf == (spec_swap_val(spec_r8(cpu.reg, t)) == 0)
            &&& !s1->Ok_0.0.reg.nf
            &&& !s1->Ok_0.0.reg.hf
            &&& !s1->Ok_0.0.reg.cf
            &&& ({
                let s2 = spec_op_swap(s1->Ok_0.0, s1->Ok_0.1, t);
                &&& s2 is Ok
                &&& spec_r8(s2->Ok_0.0.reg, t) == spec_r8(cpu.reg, t)
            })
        }),
{
    lemma_swap_involution(spec_r8(cpu.reg, t));
}

/// Bits 5..7 of the IF byte, forced to one on a bus read, play no part in
/// the dispatch decision: the pending mask and the priority chain see only
/// the low five bits.
proof fn lemma_if_bits_masked(ie: u8, fl: u8)
    by (bit_vector)
    ensures
        (ie & ((0b1110_0000u8 | fl) as u8)) & 0x1F == (ie & fl) & 0x1F,
        spec_int_index((ie & ((0b1110_0000u8 | fl) as u8)) as u8) == spec_int_index(
            (ie & fl) as u8,
        ),
{
}

/// Under the "EI then DI" adjacency no interrupt is dispatched between the
/// two: stepping a CPU that has just executed EI and now fetches DI leaves
/// PC one past the DI, clears the master enable, and erases no request bit
/// (the flags are exactly what the timer advance left).
pub proof fn lemma_ei_di_no_dispatch(cpu: CPU, m: MmuView)
    requires
        !cpu.halt,
        cpu.last_instr == Instruction::EI,
        spec_rb(m, cpu.reg.pc) != 0xCB,
        spec_decode(spec_rb(m, cpu.reg.pc)) == Instruction::DI,
    ensures
        spec_step(cpu, m) is Ok,
        ({
            let s = spec_step(cpu, m)->Ok_0;
            &&& s.0.reg.pc == ((cpu.reg.pc + 1) % 0x10000) as u16
            &&& s.0.ime == false
            &&& s.1.intr.flags == spec_tick_n(
                m.timer,
                m.intr.flags,
                spec_clocks(spec_rb(m, cpu.reg.pc)) as nat,
            ).1
        }),
{
}

/// After "EI then NOP", a pending enabled interrupt is dispatched on the
/// step that fetches the instruction after the NOP's successor — that is,
/// the NOP itself executes first, its address plus one is pushed, and PC
/// jumps to the vector of the highest-priority pending source.
pub proof fn lemma_ei_nop_dispatch(cpu: CPU, m: MmuView)
    requires
        !cpu.halt,
        cpu.ime,
        cpu.last_instr == Instruction::EI,
        spec_rb(m, cpu.reg.pc) != 0xCB,
        spec_decode(spec_rb(m, cpu.reg.pc)) == Instruction::NOP,
        ({
            let (t1, f1) = spec_tick_n(
                m.timer,
                m.intr.flags,
                spec_clocks(spec_rb(m, cpu.reg.pc)) as nat,
            );
            m.ie & f1 & 0x1F != 0
        }),
    ensures
        spec_step(cpu, m) is Ok,
        ({
            let (t1, f1) = spec_tick_n(
                m.timer,
                m.intr.flags,
                spec_clocks(spec_rb(m, cpu.reg.pc)) as nat,
            );
            let s = spec_step(cpu, m)->Ok_0;
            &&& s.0.ime == false
            &&& s.0.reg.pc == spec_int_vector(spec_int_index((m.ie & f1) as u8))
        }),
{
    let (t1, f1) = spec_tick_n(m.timer, m.intr.flags, spec_clocks(spec_rb(m, cpu.reg.pc)) as nat);
    lemma_if_bits_masked(m.ie, f1);
}

} // verus!
