//! The instruction set as data: for each of the 256 opcode bytes its
//! operation, its addressing mode, its base cycle count, and whether it pays
//! a cycle when indexing carries into the high address byte.

use vstd::prelude::*;

verus! {

/// How an instruction finds its operand.
#[derive(Clone, Copy, Debug, PartialEq, Eq, Structural)]
pub enum AddrM {
    /// No operand.
    IMP,
    /// The operand is the accumulator.
    ACC,
    /// The operand is the byte after the opcode.
    IMD,
    /// The byte after the opcode is an address in page zero.
    ZPG,
    /// The word after the opcode is the address.
    ABS,
    /// The word after the opcode is a jump target.
    ADR,
    /// The byte after the opcode is a signed branch offset.
    REL,
    /// The word after the opcode points at the address.
    IND,
    /// Page-zero address plus X, within page zero.
    ZIX,
    /// Page-zero address plus Y, within page zero.
    ZIY,
    /// Absolute address plus X.
    AIX,
    /// Absolute address plus Y.
    AIY,
    /// Page-zero address plus X points at the address.
    IIX,
    /// Page-zero address points at a base; the address is the base plus Y.
    IIY,
    /// The opcode is not an instruction.
    NUL,
}

/// What an instruction does. Names with no official mnemonic follow common
/// assembler usage.
#[derive(Clone, Copy, Debug, PartialEq, Eq, Structural)]
pub enum Op {
    /// AND with the accumulator, then copy bit 7 to carry.
    AAC,
    /// Add with carry.
    ADC,
    /// AND with the accumulator.
    AND,
    /// AND with the accumulator, then rotate it right.
    ARR,
    /// Shift left.
    ASL,
    /// AND with the accumulator, then shift it right.
    ASR,
    /// Subtract from A AND X, into X.
    AXS,
    /// Branch if carry is clear.
    BCC,
    /// Branch if carry is set.
    BCS,
    /// Branch if zero is set.
    BEQ,
    /// Test bits against the accumulator.
    BIT,
    /// Branch if negative is set.
    BMI,
    /// Branch if zero is clear.
    BNE,
    /// Branch if negative is clear.
    BPL,
    /// Force an interrupt.
    BRK,
    /// Branch if overflow is clear.
    BVC,
    /// Branch if overflow is set.
    BVS,
    /// Clear carry.
    CLC,
    /// Clear decimal.
    CLD,
    /// Clear interrupt disable.
    CLI,
    /// Clear overflow.
    CLV,
    /// Compare with the accumulator.
    CMP,
    /// Compare with X.
    CPX,
    /// Compare with Y.
    CPY,
    /// Decrement memory, then compare.
    DCP,
    /// Decrement memory.
    DEC,
    /// Decrement X.
    DEX,
    /// Decrement Y.
    DEY,
    /// Exclusive OR with the accumulator.
    EOR,
    /// Do nothing; the operand is an address.
    IGN,
    /// Increment memory.
    INC,
    /// Increment X.
    INX,
    /// Increment Y.
    INY,
    /// Increment memory, then subtract it with carry.
    ISB,
    /// Jump.
    JMP,
    /// Jump to a subroutine.
    JSR,
    /// Lock up. Here: report it and go on.
    KIL,
    /// Load the accumulator and X.
    LAX,
    /// Load the accumulator.
    LDA,
    /// Load X.
    LDX,
    /// Load Y.
    LDY,
    /// Shift right.
    LSR,
    /// Do nothing.
    NOP,
    /// Not an instruction; does nothing.
    NUL,
    /// OR with the accumulator.
    ORA,
    /// Push the accumulator.
    PHA,
    /// Push the status register.
    PHP,
    /// Pull the accumulator.
    PLA,
    /// Pull the status register.
    PLP,
    /// Rotate memory left, then AND it with the accumulator.
    RLA,
    /// Rotate left through carry.
    ROL,
    /// Rotate right through carry.
    ROR,
    /// Rotate memory right, then add it with carry.
    RRA,
    /// Return from an interrupt.
    RTI,
    /// Return from a subroutine.
    RTS,
    /// Store A AND X.
    SAX,
    /// Subtract with carry.
    SBC,
    /// Set carry.
    SEC,
    /// Set decimal.
    SED,
    /// Set interrupt disable.
    SEI,
    /// Do nothing; the operand is a byte.
    SKB,
    /// Shift memory left, then OR it with the accumulator.
    SLO,
    /// Shift memory right, then exclusive-OR it with the accumulator.
    SRE,
    /// Store the accumulator.
    STA,
    /// Store X.
    STX,
    /// Store Y.
    STY,
    /// Copy A to X.
    TAX,
    /// Copy A to Y.
    TAY,
    /// Copy the stack pointer to X.
    TSX,
    /// Copy X to A.
    TXA,
    /// Copy X to the stack pointer.
    TXS,
    /// Copy Y to A.
    TYA,
}

/// The addressing mode of each opcode.
pub const ADDRESSING_MODE_LOOKUP: [AddrM; 0x100] = [
    AddrM::IMP, AddrM::IIX, AddrM::NUL, AddrM::IIX, AddrM::ZPG, AddrM::ZPG, AddrM::ZPG, AddrM::ZPG, AddrM::IMP, AddrM::IMD, AddrM::ACC, AddrM::IMD, AddrM::ABS, AddrM::ABS, AddrM::ABS, AddrM::ABS,
    AddrM::REL, AddrM::IIY, AddrM::NUL, AddrM::IIY, AddrM::ZIX, AddrM::ZIX, AddrM::ZIX, AddrM::ZIX, AddrM::IMP, AddrM::AIY, AddrM::IMP, AddrM::AIY, AddrM::AIX, AddrM::AIX, AddrM::AIX, AddrM::AIX,
    AddrM::ADR, AddrM::IIX, AddrM::NUL, AddrM::IIX, AddrM::ZPG, AddrM::ZPG, AddrM::ZPG, AddrM::ZPG, AddrM::IMP, AddrM::IMD, AddrM::ACC, AddrM::IMD, AddrM::ABS, AddrM::ABS, AddrM::ABS, AddrM::ABS,
    AddrM::REL, AddrM::IIY, AddrM::NUL, AddrM::IIY, AddrM::ZIX, AddrM::ZIX, AddrM::ZIX, AddrM::ZIX, AddrM::IMP, AddrM::AIY, AddrM::IMP, AddrM::AIY, AddrM::AIX, AddrM::AIX, AddrM::AIX, AddrM::AIX,
    AddrM::IMP, AddrM::IIX, AddrM::NUL, AddrM::IIX, AddrM::ZPG, AddrM::ZPG, AddrM::ZPG, AddrM::ZPG, AddrM::IMP, AddrM::IMD, AddrM::ACC, AddrM::IMD, AddrM::ADR, AddrM::ABS, AddrM::ABS, AddrM::ABS,
    AddrM::REL, AddrM::IIY, AddrM::NUL, AddrM::IIY, AddrM::ZIX, AddrM::ZIX, AddrM::ZIX, AddrM::ZIX, AddrM::IMP, AddrM::AIY, AddrM::IMP, AddrM::AIY, AddrM::AIX, AddrM::AIX, AddrM::AIX, AddrM::AIX,
    AddrM::IMP, AddrM::IIX, AddrM::NUL, AddrM::IIX, AddrM::ZPG, AddrM::ZPG, AddrM::ZPG, AddrM::ZPG, AddrM::IMP, AddrM::IMD, AddrM::ACC, AddrM::IMD, AddrM::IND, AddrM::ABS, AddrM::ABS, AddrM::ABS,
    AddrM::REL, AddrM::IIY, AddrM::NUL, AddrM::IIY, AddrM::ZIX, AddrM::ZIX, AddrM::ZIX, AddrM::ZIX, AddrM::IMP, AddrM::AIY, AddrM::IMP, AddrM::AIY, AddrM::AIX, AddrM::AIX, AddrM::AIX, AddrM::AIX,
    AddrM::IMD, AddrM::IIX, AddrM::IMD, AddrM::IIX, AddrM::ZPG, AddrM::ZPG, AddrM::ZPG, AddrM::ZPG, AddrM::IMP, AddrM::IMD, AddrM::IMP, AddrM::NUL, AddrM::ABS, AddrM::ABS, AddrM::ABS, AddrM::ABS,
    AddrM::REL, AddrM::IIY, AddrM::NUL, AddrM::NUL, AddrM::ZIX, AddrM::ZIX, AddrM::ZIY, AddrM::ZIY, AddrM::IMP, AddrM::AIY, AddrM::IMP, AddrM::NUL, AddrM::NUL, AddrM::AIX, AddrM::NUL, AddrM::NUL,
    AddrM::IMD, AddrM::IIX, AddrM::IMD, AddrM::IIX, AddrM::ZPG, AddrM::ZPG, AddrM::ZPG, AddrM::ZPG, AddrM::IMP, AddrM::IMD, AddrM::IMP, AddrM::NUL, AddrM::ABS, AddrM::ABS, AddrM::ABS, AddrM::ABS,
    AddrM::REL, AddrM::IIY, AddrM::NUL, AddrM::IIY, AddrM::ZIX, AddrM::ZIX, AddrM::ZIY, AddrM::ZIY, AddrM::IMP, AddrM::AIY, AddrM::IMP, AddrM::NUL, AddrM::AIX, AddrM::AIX, AddrM::AIY, AddrM::AIY,
    AddrM::IMD, AddrM::IIX, AddrM::IMD, AddrM::IIX, AddrM::ZPG, AddrM::ZPG, AddrM::ZPG, AddrM::ZPG, AddrM::IMP, AddrM::IMD, AddrM::IMP, AddrM::IMD, AddrM::ABS, AddrM::ABS, AddrM::ABS, AddrM::ABS,
    AddrM::REL, AddrM::IIY, AddrM::NUL, AddrM::IIY, AddrM::ZIX, AddrM::ZIX, AddrM::ZIX, AddrM::ZIX, AddrM::IMP, AddrM::AIY, AddrM::IMP, AddrM::AIY, AddrM::AIX, AddrM::AIX, AddrM::AIX, AddrM::AIX,
    AddrM::IMD, AddrM::IIX, AddrM::IMD, AddrM::IIX, AddrM::ZPG, AddrM::ZPG, AddrM::ZPG, AddrM::ZPG, AddrM::IMP, AddrM::IMD, AddrM::IMP, AddrM::IMD, AddrM::ABS, AddrM::ABS, AddrM::ABS, AddrM::ABS,
    AddrM::REL, AddrM::IIY, AddrM::NUL, AddrM::IIY, AddrM::ZIX, AddrM::ZIX, AddrM::ZIX, AddrM::ZIX, AddrM::IMP, AddrM::AIY, AddrM::IMP, AddrM::AIY, AddrM::AIX, AddrM::AIX, AddrM::AIX, AddrM::AIX,
];

/// The operation of each opcode.
pub const OPERATIONS: [Op; 0x100] = [
    Op::BRK, Op::ORA, Op::KIL, Op::SLO, Op::IGN, Op::ORA, Op::ASL, Op::SLO, Op::PHP, Op::ORA, Op::ASL, Op::AAC, Op::IGN, Op::ORA, Op::ASL, Op::SLO,
    Op::BPL, Op::ORA, Op::KIL, Op::SLO, Op::IGN, Op::ORA, Op::ASL, Op::SLO, Op::CLC, Op::ORA, Op::NOP, Op::SLO, Op::IGN, Op::ORA, Op::ASL, Op::SLO,
    Op::JSR, Op::AND, Op::KIL, Op::RLA, Op::BIT, Op::AND, Op::ROL, Op::RLA, Op::PLP, Op::AND, Op::ROL, Op::AAC, Op::BIT, Op::AND, Op::ROL, Op::RLA,
    Op::BMI, Op::AND, Op::KIL, Op::RLA, Op::IGN, Op::AND, Op::ROL, Op::RLA, Op::SEC, Op::AND, Op::NOP, Op::RLA, Op::IGN, Op::AND, Op::ROL, Op::RLA,
    Op::RTI, Op::EOR, Op::KIL, Op::SRE, Op::IGN, Op::EOR, Op::LSR, Op::SRE, Op::PHA, Op::EOR, Op::LSR, Op::ASR, Op::JMP, Op::EOR, Op::LSR, Op::SRE,
    Op::BVC, Op::EOR, Op::KIL, Op::SRE, Op::IGN, Op::EOR, Op::LSR, Op::SRE, Op::CLI, Op::EOR, Op::NOP, Op::SRE, Op::IGN, Op::EOR, Op::LSR, Op::SRE,
    Op::RTS, Op::ADC, Op::KIL, Op::RRA, Op::IGN, Op::ADC, Op::ROR, Op::RRA, Op::PLA, Op::ADC, Op::ROR, Op::ARR, Op::JMP, Op::ADC, Op::ROR, Op::RRA,
    Op::BVS, Op::ADC, Op::KIL, Op::RRA, Op::IGN, Op::ADC, Op::ROR, Op::RRA, Op::SEI, Op::ADC, Op::NOP, Op::RRA, Op::IGN, Op::ADC, Op::ROR, Op::RRA,
    Op::SKB, Op::STA, Op::SKB, Op::SAX, Op::STY, Op::STA, Op::STX, Op::SAX, Op::DEY, Op::SKB, Op::TXA, Op::NUL, Op::STY, Op::STA, Op::STX, Op::SAX,
    Op::BCC, Op::STA, Op::KIL, Op::NUL, Op::STY, Op::STA, Op::STX, Op::SAX, Op::TYA, Op::STA, Op::TXS, Op::NUL, Op::NUL, Op::STA, Op::NUL, Op::NUL,
    Op::LDY, Op::LDA, Op::LDX, Op::LAX, Op::LDY, Op::LDA, Op::LDX, Op::LAX, Op::TAY, Op::LDA, Op::TAX, Op::NUL, Op::LDY, Op::LDA, Op::LDX, Op::LAX,
    Op::BCS, Op::LDA, Op::KIL, Op::LAX, Op::LDY, Op::LDA, Op::LDX, Op::LAX, Op::CLV, Op::LDA, Op::TSX, Op::NUL, Op::LDY, Op::LDA, Op::LDX, Op::LAX,
    Op::CPY, Op::CMP, Op::SKB, Op::DCP, Op::CPY, Op::CMP, Op::DEC, Op::DCP, Op::INY, Op::CMP, Op::DEX, Op::AXS, Op::CPY, Op::CMP, Op::DEC, Op::DCP,
    Op::BNE, Op::CMP, Op::KIL, Op::DCP, Op::IGN, Op::CMP, Op::DEC, Op::DCP, Op::CLD, Op::CMP, Op::NOP, Op::DCP, Op::IGN, Op::CMP, Op::DEC, Op::DCP,
    Op::CPX, Op::SBC, Op::SKB, Op::ISB, Op::CPX, Op::SBC, Op::INC, Op::ISB, Op::INX, Op::SBC, Op::NOP, Op::SBC, Op::CPX, Op::SBC, Op::INC, Op::ISB,
    Op::BEQ, Op::SBC, Op::KIL, Op::ISB, Op::IGN, Op::SBC, Op::INC, Op::ISB, Op::SED, Op::SBC, Op::NOP, Op::ISB, Op::IGN, Op::SBC, Op::INC, Op::ISB,
];

/// The cycles each opcode takes before any penalty.
pub const CYCLE_COUNTS: [u8; 0x100] = [
    7, 6, 0, 8, 3, 3, 5, 5, 3, 2, 2, 2, 4, 4, 6, 6,
    2, 5, 0, 8, 4, 4, 6, 6, 2, 4, 2, 7, 4, 4, 7, 7,
    6, 6, 0, 8, 3, 3, 5, 5, 4, 2, 2, 2, 4, 4, 6, 6,
    2, 5, 0, 8, 4, 4, 6, 6, 2, 4, 2, 7, 4, 4, 7, 7,
    6, 6, 0, 8, 3, 3, 5, 5, 3, 2, 2, 2, 3, 4, 6, 6,
    2, 5, 0, 8, 4, 4, 6, 6, 2, 4, 2, 7, 4, 4, 7, 7,
    6, 6, 0, 8, 3, 3, 5, 5, 4, 2, 2, 2, 5, 4, 6, 6,
    2, 5, 0, 8, 4, 4, 6, 6, 2, 4, 2, 7, 4, 4, 7, 7,
    2, 6, 2, 6, 3, 3, 3, 3, 2, 2, 2, 0, 4, 4, 4, 4,
    2, 6, 2, 0, 4, 4, 4, 4, 2, 5, 2, 0, 4, 5, 4, 0,
    2, 6, 2, 6, 3, 3, 3, 3, 2, 2, 2, 0, 4, 4, 4, 4,
    2, 5, 0, 5, 4, 4, 4, 4, 2, 4, 2, 0, 4, 4, 4, 4,
    2, 6, 2, 8, 3, 3, 5, 5, 2, 2, 2, 2, 4, 4, 6, 6,
    2, 5, 0, 8, 4, 4, 6, 6, 2, 4, 2, 7, 4, 4, 7, 7,
    2, 6, 2, 8, 3, 3, 5, 5, 2, 2, 2, 2, 4, 4, 6, 6,
    2, 5, 0, 8, 4, 4, 6, 6, 2, 4, 2, 7, 4, 4, 7, 7,
];

/// Whether each opcode takes one cycle more when adding the index register
/// carries out of the low address byte. Loads do, stores do not.
pub const PAGE_BOUNDARY: [bool; 0x100] = [
    false, false, false, false, false, false, false, false, false, false, false, false, false, false, false, false,
    false, true, false, false, false, false, false, false, false, true, false, false, true, true, false, false,
    false, false, false, false, false, false, false, false, false, false, false, false, false, false, false, false,
    false, true, false, false, false, false, false, false, false, true, false, false, true, true, false, false,
    false, false, false, false, false, false, false, false, false, false, false, false, false, false, false, false,
    false, true, false, false, false, false, false, false, false, true, false, false, true, true, false, false,
    false, false, false, false, false, false, false, false, false, false, false, false, false, false, false, false,
    false, true, false, false, false, false, false, false, false, true, false, false, true, true, false, false,
    false, false, false, false, false, false, false, false, false, false, false, false, false, false, false, false,
    false, false, false, false, false, false, false, false, false, false, false, false, false, false, false, false,
    false, false, false, false, false, false, false, false, false, false, false, false, false, false, false, false,
    false, true, false, true, false, false, false, false, false, true, false, false, true, true, true, false,
    false, false, false, false, false, false, false, false, false, false, false, false, false, false, false, false,
    false, true, false, false, false, false, false, false, false, true, false, false, true, true, false, false,
    false, false, false, false, false, false, false, false, false, false, false, false, false, false, false, false,
    false, true, false, false, false, false, false, false, false, true, false, false, true, true, false, false,
];

/// Whether each opcode is an undocumented one.
pub const UNOFFICIAL: [bool; 0x100] = [
    false, false, true, true, true, false, false, true, false, false, false, true, true, false, false, true,
    false, false, true, true, true, false, false, true, false, false, true, true, true, false, false, true,
    false, false, true, true, false, false, false, true, false, false, false, true, false, false, false, true,
    false, false, true, true, true, false, false, true, false, false, true, true, true, false, false, true,
    false, false, true, true, true, false, false, true, false, false, false, true, false, false, false, true,
    false, false, true, true, true, false, false, true, false, false, true, true, true, false, false, true,
    false, false, true, true, true, false, false, true, false, false, false, true, false, false, false, true,
    false, false, true, true, true, false, false, true, false, false, true, true, true, false, false, true,
    true, false, true, true, false, false, false, true, false, true, false, false, false, false, false, true,
    false, false, true, false, false, false, false, true, false, false, false, false, false, false, false, false,
    false, false, false, true, false, false, false, true, false, false, false, false, false, false, false, true,
    false, false, true, true, false, false, false, true, false, false, false, false, false, false, false, true,
    false, false, true, true, false, false, false, true, false, false, false, true, false, false, false, true,
    false, false, true, true, true, false, false, true, false, false, true, true, true, false, false, true,
    false, false, true, true, false, false, false, true, false, false, false, true, false, false, false, true,
    false, false, true, true, true, false, false, true, false, false, true, true, true, false, false, true,
];

/// The addressing mode of `opcode`.
pub fn addressing_mode(opcode: u8) -> (mode: AddrM)
    ensures
        mode == ADDRESSING_MODE_LOOKUP[opcode as int],
{
    ADDRESSING_MODE_LOOKUP[opcode as usize]
}

/// The operation of `opcode`.
pub fn operation(opcode: u8) -> (op: Op)
    ensures
        op == OPERATIONS[opcode as int],
{
    OPERATIONS[opcode as usize]
}

/// The base cycle count of `opcode`.
pub fn base_cycles(opcode: u8) -> (cycles: u8)
    ensures
        cycles == CYCLE_COUNTS[opcode as int],
        cycles <= 8,
{
    let cycles: u8 = CYCLE_COUNTS[opcode as usize];
    assert(cycles <= 8) by {
        lemma_cycle_counts_small();
    }
    cycles
}

/// No opcode takes more than eight cycles before penalties.
pub proof fn lemma_cycle_counts_small()
    ensures
        forall|i: int| 0 <= i < 0x100 ==> #[trigger] CYCLE_COUNTS[i] <= 8,
{
    assert forall|i: int| 0 <= i < 0x100 implies #[trigger] CYCLE_COUNTS[i] <= 8 by {
        if i < 0x40 {
        } else if i < 0x80 {
        } else if i < 0xC0 {
        } else {
        }
    }
}

/// Whether `opcode` pays for a carry into the high address byte.
pub fn page_sensitive(opcode: u8) -> (sensitive: bool)
    ensures
        sensitive == PAGE_BOUNDARY[opcode as int],
{
    PAGE_BOUNDARY[opcode as usize]
}

/// Whether `opcode` is an undocumented one.
pub fn unofficial(opcode: u8) -> (starred: bool)
    ensures
        starred == UNOFFICIAL[opcode as int],
{
    UNOFFICIAL[opcode as usize]
}

} // verus!
