//! Trace output: one instruction as assembler text, and the trace line that
//! shows it with the registers before it runs.
//!
//! Every byte is fetched with a debug read, which disturbs no PPU register.

use crate::bus::{word, Bus};
use crate::cpu::{branch_target, Cpu};
use crate::opcodes::{
    addressing_mode, operation, unofficial, AddrM, Op, ADDRESSING_MODE_LOOKUP, OPERATIONS,
    UNOFFICIAL,
};
use vstd::prelude::*;
use vstd::string::*;

verus! {

/// The mnemonic of an operation.
pub open spec fn mnemonic_text(op: Op) -> Seq<char> {
    match op {
        Op::AAC => "AAC"@,
        Op::ADC => "ADC"@,
        Op::AND => "AND"@,
        Op::ARR => "ARR"@,
        Op::ASL => "ASL"@,
        Op::ASR => "ASR"@,
        Op::AXS => "AXS"@,
        Op::BCC => "BCC"@,
        Op::BCS => "BCS"@,
        Op::BEQ => "BEQ"@,
        Op::BIT => "BIT"@,
        Op::BMI => "BMI"@,
        Op::BNE => "BNE"@,
        Op::BPL => "BPL"@,
        Op::BRK => "BRK"@,
        Op::BVC => "BVC"@,
        Op::BVS => "BVS"@,
        Op::CLC => "CLC"@,
        Op::CLD => "CLD"@,
        Op::CLI => "CLI"@,
        Op::CLV => "CLV"@,
        Op::CMP => "CMP"@,
        Op::CPX => "CPX"@,
        Op::CPY => "CPY"@,
        Op::DCP => "DCP"@,
        Op::DEC => "DEC"@,
        Op::DEX => "DEX"@,
        Op::DEY => "DEY"@,
        Op::EOR => "EOR"@,
        Op::IGN => "IGN"@,
        Op::INC => "INC"@,
        Op::INX => "INX"@,
        Op::INY => "INY"@,
        Op::ISB => "ISB"@,
        Op::JMP => "JMP"@,
        Op::JSR => "JSR"@,
        Op::KIL => "KIL"@,
        Op::LAX => "LAX"@,
        Op::LDA => "LDA"@,
        Op::LDX => "LDX"@,
        Op::LDY => "LDY"@,
        Op::LSR => "LSR"@,
        Op::NOP => "NOP"@,
        Op::NUL => "NUL"@,
        Op::ORA => "ORA"@,
        Op::PHA => "PHA"@,
        Op::PHP => "PHP"@,
        Op::PLA => "PLA"@,
        Op::PLP => "PLP"@,
        Op::RLA => "RLA"@,
        Op::ROL => "ROL"@,
        Op::ROR => "ROR"@,
        Op::RRA => "RRA"@,
        Op::RTI => "RTI"@,
        Op::RTS => "RTS"@,
        Op::SAX => "SAX"@,
        Op::SBC => "SBC"@,
        Op::SEC => "SEC"@,
        Op::SED => "SED"@,
        Op::SEI => "SEI"@,
        Op::SKB => "SKB"@,
        Op::SLO => "SLO"@,
        Op::SRE => "SRE"@,
        Op::STA => "STA"@,
        Op::STX => "STX"@,
        Op::STY => "STY"@,
        Op::TAX => "TAX"@,
        Op::TAY => "TAY"@,
        Op::TSX => "TSX"@,
        Op::TXA => "TXA"@,
        Op::TXS => "TXS"@,
        Op::TYA => "TYA"@,
    }
}

/// The mnemonic of an operation.
pub fn mnemonic(op: Op) -> (name: &'static str)
    ensures
        name@ == mnemonic_text(op),
{
    match op {
        Op::AAC => "AAC",
        Op::ADC => "ADC",
        Op::AND => "AND",
        Op::ARR => "ARR",
        Op::ASL => "ASL",
        Op::ASR => "ASR",
        Op::AXS => "AXS",
        Op::BCC => "BCC",
        Op::BCS => "BCS",
        Op::BEQ => "BEQ",
        Op::BIT => "BIT",
        Op::BMI => "BMI",
        Op::BNE => "BNE",
        Op::BPL => "BPL",
        Op::BRK => "BRK",
        Op::BVC => "BVC",
        Op::BVS => "BVS",
        Op::CLC => "CLC",
        Op::CLD => "CLD",
        Op::CLI => "CLI",
        Op::CLV => "CLV",
        Op::CMP => "CMP",
        Op::CPX => "CPX",
        Op::CPY => "CPY",
        Op::DCP => "DCP",
        Op::DEC => "DEC",
        Op::DEX => "DEX",
        Op::DEY => "DEY",
        Op::EOR => "EOR",
        Op::IGN => "IGN",
        Op::INC => "INC",
        Op::INX => "INX",
        Op::INY => "INY",
        Op::ISB => "ISB",
        Op::JMP => "JMP",
        Op::JSR => "JSR",
        Op::KIL => "KIL",
        Op::LAX => "LAX",
        Op::LDA => "LDA",
        Op::LDX => "LDX",
        Op::LDY => "LDY",
        Op::LSR => "LSR",
        Op::NOP => "NOP",
        Op::NUL => "NUL",
        Op::ORA => "ORA",
        Op::PHA => "PHA",
        Op::PHP => "PHP",
        Op::PLA => "PLA",
        Op::PLP => "PLP",
        Op::RLA => "RLA",
        Op::ROL => "ROL",
        Op::ROR => "ROR",
        Op::RRA => "RRA",
        Op::RTI => "RTI",
        Op::RTS => "RTS",
        Op::SAX => "SAX",
        Op::SBC => "SBC",
        Op::SEC => "SEC",
        Op::SED => "SED",
        Op::SEI => "SEI",
        Op::SKB => "SKB",
        Op::SLO => "SLO",
        Op::SRE => "SRE",
        Op::STA => "STA",
        Op::STX => "STX",
        Op::STY => "STY",
        Op::TAX => "TAX",
        Op::TAY => "TAY",
        Op::TSX => "TSX",
        Op::TXA => "TXA",
        Op::TXS => "TXS",
        Op::TYA => "TYA",
    }
}

/// The mark before a mnemonic: a star for an undocumented opcode, else a
/// blank.
pub open spec fn mark_text(opcode: u8) -> Seq<char> {
    if UNOFFICIAL[opcode as int] {
        "*"@
    } else {
        " "@
    }
}

/// One hexadecimal digit, upper case. `n` is below 16.
pub open spec fn hex_digit(n: u8) -> Seq<char> {
    match n {
        0 => "0"@,
        1 => "1"@,
        2 => "2"@,
        3 => "3"@,
        4 => "4"@,
        5 => "5"@,
        6 => "6"@,
        7 => "7"@,
        8 => "8"@,
        9 => "9"@,
        10 => "A"@,
        11 => "B"@,
        12 => "C"@,
        13 => "D"@,
        14 => "E"@,
        15 => "F"@,
        _ => ""@,
    }
}

/// A byte as two hexadecimal digits.
pub open spec fn hex2(value: u8) -> Seq<char> {
    hex_digit(value / 16) + hex_digit(value % 16)
}

/// A word as four hexadecimal digits.
pub open spec fn hex4(value: u16) -> Seq<char> {
    hex2((value / 256) as u8) + hex2((value % 256) as u8)
}

/// A number in decimal, without leading zeros.
pub open spec fn decimal(n: nat) -> Seq<char>
    decreases n,
{
    if n < 10 {
        hex_digit(n as u8)
    } else {
        decimal(n / 10) + hex_digit((n % 10) as u8)
    }
}

/// One hexadecimal digit as text.
fn digit(n: u8) -> (text: &'static str)
    requires
        n < 16,
    ensures
        text@ == hex_digit(n),
{
    match n {
        0 => "0",
        1 => "1",
        2 => "2",
        3 => "3",
        4 => "4",
        5 => "5",
        6 => "6",
        7 => "7",
        8 => "8",
        9 => "9",
        10 => "A",
        11 => "B",
        12 => "C",
        13 => "D",
        14 => "E",
        _ => "F",
    }
}

/// Appends a byte as two hexadecimal digits.
fn push_hex2(out: &mut String, value: u8)
    ensures
        final(out)@ == old(out)@ + hex2(value),
{
    out.append(digit(value / 16));
    out.append(digit(value % 16));
    assert(out@ =~= old(out)@ + hex2(value));
}

/// Appends a word as four hexadecimal digits.
fn push_hex4(out: &mut String, value: u16)
    ensures
        final(out)@ == old(out)@ + hex4(value),
{
    push_hex2(out, (value / 256) as u8);
    push_hex2(out, (value % 256) as u8);
    assert(out@ =~= old(out)@ + hex4(value));
}

/// Appends a number in decimal.
fn push_decimal(out: &mut String, n: u32)
    ensures
        final(out)@ == old(out)@ + decimal(n as nat),
    decreases n,
{
    if n >= 10 {
        push_decimal(out, n / 10);
    }
    out.append(digit((n % 10) as u8));
    assert(out@ =~= old(out)@ + decimal(n as nat));
}

/// Where a branch at `pc` with the given offset byte lands.
fn relative_target(pc: u16, offset: u8) -> (target: u16)
    ensures
        target == branch_target(pc, offset),
{
    if offset <= 0x7F {
        pc.wrapping_add(offset as u16)
    } else {
        pc.wrapping_sub(0x100 - (offset as u16))
    }
}

/// `head` followed by the operand of the instruction at the program
/// counter, written as its addressing mode asks, and the bus after the reads
/// that this takes. An opcode that is no instruction gives a fixed text.
pub open spec fn operand_text(head: Seq<char>, cpu: Cpu, bus: Bus, mode: AddrM) -> (
    Seq<char>,
    Bus,
) {
    let at = cpu.pc.wrapping_add(1);
    match mode {
        AddrM::ACC => (head + " A                         "@, bus),
        AddrM::IMP => (head + "                           "@, bus),
        AddrM::ABS => {
            let operand = bus.word_read(at, true);
            let value = operand.1.read_spec(operand.0, true);
            (head + " $"@ + hex4(operand.0) + " = "@ + hex2(value.0) + "                "@, value.1)
        },
        AddrM::ADR => {
            let operand = bus.word_read(at, true);
            (head + " $"@ + hex4(operand.0) + "                     "@, operand.1)
        },
        AddrM::AIX => {
            let operand = bus.word_read(at, true);
            let target = operand.0.wrapping_add(cpu.x as u16);
            let value = operand.1.read_spec(target, true);
            (head + " $"@ + hex4(operand.0) + ",X @ "@ + hex4(target) + " = "@ + hex2(value.0) + "       "@, value.1)
        },
        AddrM::AIY => {
            let operand = bus.word_read(at, true);
            let target = operand.0.wrapping_add(cpu.y as u16);
            let value = operand.1.read_spec(target, true);
            (head + " $"@ + hex4(operand.0) + ",Y @ "@ + hex4(target) + " = "@ + hex2(value.0) + "       "@, value.1)
        },
        AddrM::IMD => {
            let operand = bus.read_spec(at, true);
            (head + " #$"@ + hex2(operand.0) + "                      "@, operand.1)
        },
        AddrM::IND => {
            let operand = bus.word_read(at, true);
            let target = operand.1.word_read_wrap(operand.0, true);
            (head + " ($"@ + hex4(operand.0) + ") = "@ + hex4(target.0) + "            "@, target.1)
        },
        AddrM::IIX => {
            let operand = bus.read_spec(at, true);
            let pointer = operand.0.wrapping_add(cpu.x);
            let low = operand.1.read_spec(pointer as u16, true);
            let high = low.1.read_spec(pointer.wrapping_add(1) as u16, true);
            let target = word(low.0, high.0);
            let value = high.1.read_spec(target, true);
            (head + " ($"@ + hex2(operand.0) + ",X) @ "@ + hex2(pointer) + " = "@ + hex4(target) + " = "@ + hex2(value.0) + "  "@, value.1)
        },
        AddrM::IIY => {
            let operand = bus.read_spec(at, true);
            let low = operand.1.read_spec(operand.0 as u16, true);
            let high = low.1.read_spec(operand.0.wrapping_add(1) as u16, true);
            let base = word(low.0, high.0);
            let target = base.wrapping_add(cpu.y as u16);
            let value = high.1.read_spec(target, true);
            (head + " ($"@ + hex2(operand.0) + "),Y = "@ + hex4(base) + " @ "@ + hex4(target) + " = "@ + hex2(value.0), value.1)
        },
        AddrM::REL => {
            let offset = bus.read_spec(at, true);
            let target = branch_target(cpu.pc, offset.0).wrapping_add(2);
            (head + " $"@ + hex4(target) + "                     "@, offset.1)
        },
        AddrM::ZPG => {
            let operand = bus.read_spec(at, true);
            let value = operand.1.read_spec(operand.0 as u16, true);
            (head + " $"@ + hex2(operand.0) + " = "@ + hex2(value.0) + "                  "@, value.1)
        },
        AddrM::ZIX => {
            let operand = bus.read_spec(at, true);
            let target = operand.0.wrapping_add(cpu.x);
            let value = operand.1.read_spec(target as u16, true);
            (head + " $"@ + hex2(operand.0) + ",X @ "@ + hex2(target) + " = "@ + hex2(value.0) + "           "@, value.1)
        },
        AddrM::ZIY => {
            let operand = bus.read_spec(at, true);
            let target = operand.0.wrapping_add(cpu.y);
            let value = operand.1.read_spec(target as u16, true);
            (head + " $"@ + hex2(operand.0) + ",Y @ "@ + hex2(target) + " = "@ + hex2(value.0) + "           "@, value.1)
        },
        AddrM::NUL => ("Invalid Opcode                "@, bus),
    }
}

/// The instruction at the program counter as assembler text, and the bus
/// after the reads that this takes.
pub open spec fn asm_text(cpu: Cpu, bus: Bus) -> (Seq<char>, Bus) {
    let opcode = bus.read_spec(cpu.pc, true);
    operand_text(
        mark_text(opcode.0) + mnemonic_text(OPERATIONS[opcode.0 as int]),
        cpu,
        opcode.1,
        ADDRESSING_MODE_LOOKUP[opcode.0 as int],
    )
}

/// Writes the instruction at the program counter as assembler text.
pub fn get_asm(cpu: &Cpu, bus: &mut Bus) -> (text: String)
    ensures
        (text@, *final(bus)) == asm_text(*cpu, *old(bus)),
{
    let opcode: u8 = bus.read(cpu.pc, true);
    let mut out: String = String::from_str(
        if unofficial(opcode) {
            "*"
        } else {
            " "
        },
    );
    out.append(mnemonic(operation(opcode)));
    let at: u16 = cpu.pc.wrapping_add(1);
    match addressing_mode(opcode) {
        AddrM::ACC => {
            out.append(" A                         ");
        },
        AddrM::IMP => {
            out.append("                           ");
        },
        AddrM::ABS => {
            let operand: u16 = bus.read_word_little(at, true);
            let value: u8 = bus.read(operand, true);
            out.append(" $");
            push_hex4(&mut out, operand);
            out.append(" = ");
            push_hex2(&mut out, value);
            out.append("                ");
        },
        AddrM::ADR => {
            let operand: u16 = bus.read_word_little(at, true);
            out.append(" $");
            push_hex4(&mut out, operand);
            out.append("                     ");
        },
        AddrM::AIX => {
            let operand: u16 = bus.read_word_little(at, true);
            let target: u16 = operand.wrapping_add(cpu.x as u16);
            let value: u8 = bus.read(target, true);
            out.append(" $");
            push_hex4(&mut out, operand);
            out.append(",X @ ");
            push_hex4(&mut out, target);
            out.append(" = ");
            push_hex2(&mut out, value);
            out.append("       ");
        },
        AddrM::AIY => {
            let operand: u16 = bus.read_word_little(at, true);
            let target: u16 = operand.wrapping_add(cpu.y as u16);
            let value: u8 = bus.read(target, true);
            out.append(" $");
            push_hex4(&mut out, operand);
            out.append(",Y @ ");
            push_hex4(&mut out, target);
            out.append(" = ");
            push_hex2(&mut out, value);
            out.append("       ");
        },
        AddrM::IMD => {
            let operand: u8 = bus.read(at, true);
            out.append(" #$");
            push_hex2(&mut out, operand);
            out.append("                      ");
        },
        AddrM::IND => {
            let operand: u16 = bus.read_word_little(at, true);
            let target: u16 = bus.read_word_little_wrap(operand, true);
            out.append(" ($");
            push_hex4(&mut out, operand);
            out.append(") = ");
            push_hex4(&mut out, target);
            out.append("            ");
        },
        AddrM::IIX => {
            let operand: u8 = bus.read(at, true);
            let pointer: u8 = operand.wrapping_add(cpu.x);
            let low: u8 = bus.read(pointer as u16, true);
            let high: u8 = bus.read(pointer.wrapping_add(1) as u16, true);
            let target: u16 = (high as u16) * 256 + (low as u16);
            let value: u8 = bus.read(target, true);
            out.append(" ($");
            push_hex2(&mut out, operand);
            out.append(",X) @ ");
            push_hex2(&mut out, pointer);
            out.append(" = ");
            push_hex4(&mut out, target);
            out.append(" = ");
            push_hex2(&mut out, value);
            out.append("  ");
        },
        AddrM::IIY => {
            let operand: u8 = bus.read(at, true);
            let low: u8 = bus.read(operand as u16, true);
            let high: u8 = bus.read(operand.wrapping_add(1) as u16, true);
            let base: u16 = (high as u16) * 256 + (low as u16);
            let target: u16 = base.wrapping_add(cpu.y as u16);
            let value: u8 = bus.read(target, true);
            out.append(" ($");
            push_hex2(&mut out, operand);
            out.append("),Y = ");
            push_hex4(&mut out, base);
            out.append(" @ ");
            push_hex4(&mut out, target);
            out.append(" = ");
            push_hex2(&mut out, value);
        },
        AddrM::REL => {
            let offset: u8 = bus.read(at, true);
            let target: u16 = relative_target(cpu.pc, offset).wrapping_add(2);
            out.append(" $");
            push_hex4(&mut out, target);
            out.append("                     ");
        },
        AddrM::ZPG => {
            let operand: u8 = bus.read(at, true);
            let value: u8 = bus.read(operand as u16, true);
            out.append(" $");
            push_hex2(&mut out, operand);
            out.append(" = ");
            push_hex2(&mut out, value);
            out.append("                  ");
        },
        AddrM::ZIX => {
            let operand: u8 = bus.read(at, true);
            let target: u8 = operand.wrapping_add(cpu.x);
            let value: u8 = bus.read(target as u16, true);
            out.append(" $");
            push_hex2(&mut out, operand);
            out.append(",X @ ");
            push_hex2(&mut out, target);
            out.append(" = ");
            push_hex2(&mut out, value);
            out.append("           ");
        },
        AddrM::ZIY => {
            let operand: u8 = bus.read(at, true);
            let target: u8 = operand.wrapping_add(cpu.y);
            let value: u8 = bus.read(target as u16, true);
            out.append(" $");
            push_hex2(&mut out, operand);
            out.append(",Y @ ");
            push_hex2(&mut out, target);
            out.append(" = ");
            push_hex2(&mut out, value);
            out.append("           ");
        },
        AddrM::NUL => {
            out = String::from_str("Invalid Opcode                ");
        },
    }
    out
}

/// The bytes of the instruction at the program counter in hexadecimal,
/// padded to a fixed width, and the bus after the reads that this takes.
pub open spec fn bytes_text(head: Seq<char>, cpu: Cpu, bus: Bus) -> (Seq<char>, Bus) {
    let opcode = bus.read_spec(cpu.pc, true);
    match ADDRESSING_MODE_LOOKUP[opcode.0 as int] {
        AddrM::ACC | AddrM::IMP => (head + hex2(opcode.0) + "       "@, opcode.1),
        AddrM::IMD | AddrM::ZPG | AddrM::REL | AddrM::ZIX | AddrM::ZIY | AddrM::IIX
        | AddrM::IIY => {
            let second = opcode.1.read_spec(cpu.pc.wrapping_add(1), true);
            (head + hex2(opcode.0) + " "@ + hex2(second.0) + "    "@, second.1)
        },
        AddrM::ABS | AddrM::ADR | AddrM::AIX | AddrM::AIY | AddrM::IND => {
            let second = opcode.1.read_spec(cpu.pc.wrapping_add(1), true);
            let third = second.1.read_spec(cpu.pc.wrapping_add(2), true);
            (
                head + hex2(opcode.0) + " "@ + hex2(second.0) + " "@ + hex2(third.0) + " "@,
                third.1,
            )
        },
        AddrM::NUL => (head + "INVLD: "@ + hex2(opcode.0), opcode.1),
    }
}

/// The trace line for the instruction at the program counter: its address,
/// its bytes, its text, and the registers and cycle count before it runs.
/// With it, the bus after the reads that this takes.
#[verifier::opaque]
pub open spec fn trace_text(cpu: Cpu, bus: Bus) -> (Seq<char>, Bus) {
    let bytes = bytes_text(Seq::<char>::empty() + hex4(cpu.pc) + "  "@, cpu, bus);
    let instruction = asm_text(cpu, bytes.1);
    (
        bytes.0 + instruction.0 + "  A:"@ + hex2(cpu.a) + " X:"@ + hex2(cpu.x) + " Y:"@ + hex2(cpu.y)
            + " P:"@ + hex2(cpu.stat) + " SP:"@ + hex2(cpu.stp) + " CYC:"@ + decimal(
            cpu.cycl as nat,
        ),
        instruction.1,
    )
}

/// Writes the trace line for the instruction at the program counter.
pub fn output_debug_info(cpu: &Cpu, bus: &mut Bus) -> (line: String)
    ensures
        (line@, *final(bus)) == trace_text(*cpu, *old(bus)),
{
    reveal(trace_text);
    let mut out: String = String::new();
    push_hex4(&mut out, cpu.pc);
    out.append("  ");
    let opcode: u8 = bus.read(cpu.pc, true);
    match addressing_mode(opcode) {
        AddrM::ACC | AddrM::IMP => {
            push_hex2(&mut out, opcode);
            out.append("       ");
        },
        AddrM::IMD | AddrM::ZPG | AddrM::REL | AddrM::ZIX | AddrM::ZIY | AddrM::IIX
        | AddrM::IIY => {
            let second: u8 = bus.read(cpu.pc.wrapping_add(1), true);
            push_hex2(&mut out, opcode);
            out.append(" ");
            push_hex2(&mut out, second);
            out.append("    ");
        },
        AddrM::ABS | AddrM::ADR | AddrM::AIX | AddrM::AIY | AddrM::IND => {
            let second: u8 = bus.read(cpu.pc.wrapping_add(1), true);
            let third: u8 = bus.read(cpu.pc.wrapping_add(2), true);
            push_hex2(&mut out, opcode);
            out.append(" ");
            push_hex2(&mut out, second);
            out.append(" ");
            push_hex2(&mut out, third);
            out.append(" ");
        },
        AddrM::NUL => {
            out.append("INVLD: ");
            push_hex2(&mut out, opcode);
        },
    }
    let instruction: String = get_asm(cpu, bus);
    out.append(instruction.as_str());
    out.append("  A:");
    push_hex2(&mut out, cpu.a);
    out.append(" X:");
    push_hex2(&mut out, cpu.x);
    out.append(" Y:");
    push_hex2(&mut out, cpu.y);
    out.append(" P:");
    push_hex2(&mut out, cpu.stat);
    out.append(" SP:");
    push_hex2(&mut out, cpu.stp);
    out.append(" CYC:");
    push_decimal(&mut out, cpu.cycl);
    out
}

} // verus!
