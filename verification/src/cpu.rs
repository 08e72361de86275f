//! The CPU core: registers, status flags, stack, interrupts, addressing
//! modes, and the fetch-execute step with its cycle accounting.
//!
//! The core counts cycles rather than living through them. An instruction
//! does all of its work on the tick that fetches it, and `next` then names
//! the tick on which the following one may start.

use crate::alu::low_byte;
use crate::bus::{word, Bus};
use crate::disasm::{output_debug_info, trace_text};
use crate::opcodes::{
    addressing_mode, base_cycles, operation, page_sensitive, AddrM, Op, ADDRESSING_MODE_LOOKUP,
    CYCLE_COUNTS, OPERATIONS, PAGE_BOUNDARY,
};
use vstd::prelude::*;

verus! {

/// Where the CPU finds the handler of a non-maskable interrupt.
pub const NMI_VECTOR: u16 = 0xFFFA;

/// Where the CPU finds its entry point after reset.
pub const RESET_VECTOR: u16 = 0xFFFC;

/// Where the CPU finds the handler of an interrupt request.
pub const IRQ_VECTOR: u16 = 0xFFFE;

/// The register file and the cycle counters.
#[derive(Clone, Copy, Debug, PartialEq, Eq, Structural)]
pub struct Cpu {
    /// Accumulator.
    pub a: u8,
    /// Index register X.
    pub x: u8,
    /// Index register Y.
    pub y: u8,
    /// Program counter.
    pub pc: u16,
    /// Stack pointer, into page `$01`.
    pub stp: u8,
    /// Status register.
    pub stat: u8,
    /// Ticks counted so far; folded down by 60000 now and then.
    pub cycl: u32,
    /// The tick on which the next instruction starts.
    pub next: u32,
    /// An interrupt request is pending.
    pub irq_signal: bool,
}

/// The bits of the status register.
#[derive(Clone, Copy, Debug, PartialEq, Eq, Structural)]
pub enum Flags {
    /// Carry.
    CA,
    /// Zero.
    ZE,
    /// Interrupt disable.
    ID,
    /// Decimal.
    DC,
    /// Break: set in the copy that `BRK` and `PHP` push.
    B1,
    /// Always set in a pushed copy.
    B2,
    /// Overflow.
    OV,
    /// Negative.
    NG,
}

impl Flags {
    /// The bit that the flag occupies.
    pub open spec fn mask(self) -> u8 {
        match self {
            Flags::CA => 0x01,
            Flags::ZE => 0x02,
            Flags::ID => 0x04,
            Flags::DC => 0x08,
            Flags::B1 => 0x10,
            Flags::B2 => 0x20,
            Flags::OV => 0x40,
            Flags::NG => 0x80,
        }
    }

    /// The bit that the flag occupies.
    pub fn bit(self) -> (bit: u8)
        ensures
            bit == self.mask(),
    {
        match self {
            Flags::CA => 0x01,
            Flags::ZE => 0x02,
            Flags::ID => 0x04,
            Flags::DC => 0x08,
            Flags::B1 => 0x10,
            Flags::B2 => 0x20,
            Flags::OV => 0x40,
            Flags::NG => 0x80,
        }
    }
}

/// A status byte with the bits of `mask` set or cleared.
pub open spec fn with_bits(stat: u8, mask: u8, value: bool) -> u8 {
    if value {
        stat | mask
    } else {
        stat & !mask
    }
}

/// Setting or clearing one bit of a byte gives that bit the value and leaves
/// every other bit as it was.
pub proof fn lemma_with_bits(stat: u8, mask: u8, other: u8)
    by (bit_vector)
    requires
        mask == 0x01 || mask == 0x02 || mask == 0x04 || mask == 0x08 || mask == 0x10 || mask
            == 0x20 || mask == 0x40 || mask == 0x80,
        other == 0x01 || other == 0x02 || other == 0x04 || other == 0x08 || other == 0x10 || other
            == 0x20 || other == 0x40 || other == 0x80,
    ensures
        (stat | mask) & mask != 0,
        (stat & !mask) & mask == 0,
        other != mask ==> (stat | mask) & other == stat & other,
        other != mask ==> (stat & !mask) & other == stat & other,
{
}

/// Bit 7 of a byte is its sign: set exactly from 128 up. Two bytes differ in
/// bit 7 exactly when one is below 128 and the other is not.
pub proof fn lemma_sign_bit(a: u8, b: u8)
    by (bit_vector)
    ensures
        (a & 0x80 != 0) <==> (a >= 0x80),
        ((a ^ b) & 0x80 == 0) <==> ((a >= 0x80) <==> (b >= 0x80)),
        ((a ^ b) & 0x80 == 0x80) <==> !((a >= 0x80) <==> (b >= 0x80)),
{
}

/// Shifts of a byte by one place are doubling and halving.
pub proof fn lemma_shift_by_one(m: u8)
    by (bit_vector)
    ensures
        m << 1 == (m % 128) * 2,
        m >> 1 == m / 2,
        (m & 0x01 != 0) <==> (m % 2 == 1),
{
}

impl Cpu {
    /// The registers at power-on.
    pub open spec fn fresh() -> Cpu {
        Cpu {
            a: 0,
            x: 0,
            y: 0,
            pc: 0x8000,
            stp: 0xFD,
            stat: 0x24,
            cycl: 0,
            next: 0,
            irq_signal: false,
        }
    }

    /// The registers at power-on.
    pub fn new() -> (cpu: Cpu)
        ensures
            cpu == Cpu::fresh(),
    {
        Cpu {
            a: 0,
            x: 0,
            y: 0,
            pc: 0x8000,
            stp: 0xFD,
            stat: 0x24,
            cycl: 0,
            next: 0,
            irq_signal: false,
        }
    }

    /// The flag is set.
    pub open spec fn flag(self, flag: Flags) -> bool {
        self.stat & flag.mask() != 0
    }

    /// The registers with one flag set or cleared.
    pub open spec fn with_flag(self, flag: Flags, value: bool) -> Cpu {
        Cpu { stat: with_bits(self.stat, flag.mask(), value), ..self }
    }

    /// The registers with zero and negative set from a result.
    pub open spec fn with_zn(self, result: u8) -> Cpu {
        self.with_flag(Flags::ZE, result == 0).with_flag(Flags::NG, result >= 0x80)
    }

    /// The carry flag as a number.
    pub open spec fn carry_in(self) -> int {
        if self.flag(Flags::CA) {
            1
        } else {
            0
        }
    }

    /// Sets or clears a flag.
    pub fn set_flag(&mut self, flag: Flags, value: bool)
        ensures
            *final(self) == old(self).with_flag(flag, value),
    {
        let bit: u8 = flag.bit();
        if value {
            self.stat |= bit;
        } else {
            self.stat &= !bit;
        }
    }

    /// Reads a flag: 1 if set, else 0.
    pub fn get_flag(&self, flag: Flags) -> (value: u8)
        ensures
            value == if self.flag(flag) {
                1u8
            } else {
                0u8
            },
    {
        let bit: u8 = flag.bit();
        if self.stat & bit == 0 {
            0
        } else {
            1
        }
    }

    /// Sets zero and negative from a result.
    pub fn set_zn(&mut self, result: u8)
        ensures
            *final(self) == old(self).with_zn(result),
    {
        proof {
            lemma_sign_bit(result, 0);
        }
        self.set_flag(Flags::ZE, result == 0x00);
        self.set_flag(Flags::NG, (result & 0x80) != 0);
    }

    /// Raises an interrupt request, to be served when the CPU next starts
    /// an instruction with interrupts enabled.
    pub fn irq(&mut self)
        ensures
            *final(self) == (Cpu { irq_signal: true, ..*old(self) }),
    {
        self.irq_signal = true;
    }
}

/// Reading a flag after setting or clearing one: the flag itself has the new
/// value, every other flag the old one.
pub proof fn lemma_flag_after_set(cpu: Cpu, set: Flags, value: bool, read: Flags)
    ensures
        cpu.with_flag(set, value).flag(read) == if read == set {
            value
        } else {
            cpu.flag(read)
        },
{
    lemma_with_bits(cpu.stat, set.mask(), read.mask());
}

/// The CPU together with the bus it acts on: the state that an instruction
/// transforms.
pub struct Machine {
    /// The registers and counters.
    pub cpu: Cpu,
    /// Everything the CPU reaches through addresses.
    pub bus: Bus,
}

/// The address in page `$01` that a stack pointer names.
pub open spec fn stack_addr(stp: u8) -> u16 {
    (0x100 + stp) as u16
}

/// The cycle that indexing costs an opcode that is sensitive to it: one if
/// adding `index` carried out of the low byte of `addr`, else none.
pub open spec fn page_penalty(sensitive: bool, addr: u16, index: u8) -> u8 {
    if sensitive && addr % 256 < index {
        1
    } else {
        0
    }
}

/// Where a branch with the given offset byte lands: the offset counts as a
/// two's-complement number, and the sum wraps within 16 bits.
pub open spec fn branch_target(pc: u16, offset: u8) -> u16 {
    ((pc + crate::alu::signed(offset)) % 0x10000) as u16
}

/// The status byte that `PLP` and `RTI` install from a pulled byte: bit 4
/// cleared, bit 5 set.
pub open spec fn pulled_status(value: u8) -> u8 {
    (value & 0xEF) | 0x20
}

impl Machine {
    /// The same bus with other registers.
    pub open spec fn with_cpu(self, cpu: Cpu) -> Machine {
        Machine { cpu, ..self }
    }

    /// The program counter moved to `target`.
    pub open spec fn jumped(self, target: u16) -> Machine {
        Machine { cpu: Cpu { pc: target, ..self.cpu }, ..self }
    }

    /// The program counter moved on by `count`, wrapping within 16 bits.
    pub open spec fn advanced(self, count: u16) -> Machine {
        self.jumped(self.cpu.pc.wrapping_add(count))
    }

    /// The byte that the CPU reads at `addr`, and the state after the read.
    pub open spec fn load(self, addr: u16) -> (u8, Machine) {
        (self.bus.read_value(addr, false), Machine { bus: self.bus.after_read(addr, false), ..self })
    }

    /// The word that the CPU reads at `addr`, and the state after the read.
    pub open spec fn load_word(self, addr: u16) -> (u16, Machine) {
        (
            self.bus.word_read(addr, false).0,
            Machine { bus: self.bus.word_read(addr, false).1, ..self },
        )
    }

    /// As [`Machine::load_word`], with the high byte taken from the page of
    /// the low byte.
    pub open spec fn load_word_wrap(self, addr: u16) -> (u16, Machine) {
        (
            self.bus.word_read_wrap(addr, false).0,
            Machine { bus: self.bus.word_read_wrap(addr, false).1, ..self },
        )
    }

    /// The state after the CPU wrote `value` at `addr`.
    pub open spec fn store(self, addr: u16, value: u8) -> Machine {
        Machine { bus: self.bus.after_write(addr, value), ..self }
    }

    /// The state after a push: the byte goes where the stack pointer names,
    /// and the pointer steps down, wrapping within the page.
    pub open spec fn pushed(self, value: u8) -> Machine {
        Machine {
            cpu: Cpu { stp: self.cpu.stp.wrapping_sub(1), ..self.cpu },
            bus: self.bus.after_write(stack_addr(self.cpu.stp), value),
        }
    }

    /// The byte that a pull yields and the state after it: the pointer steps
    /// up, wrapping within the page, and the byte comes from where it then
    /// names.
    pub open spec fn pulled(self) -> (u8, Machine) {
        Machine { cpu: Cpu { stp: self.cpu.stp.wrapping_add(1), ..self.cpu }, ..self }.load(
            stack_addr(self.cpu.stp.wrapping_add(1)),
        )
    }

    /// The state after the CPU took an interrupt through `vector`: the
    /// program counter is pushed high byte first, then the status with bit 4
    /// cleared and bit 5 set; interrupts are disabled; and the program
    /// counter takes the word at the vector.
    #[verifier::opaque]
    pub open spec fn interrupted(self, vector: u16) -> Machine {
        let saved = self.pushed((self.cpu.pc / 256) as u8).pushed((self.cpu.pc % 256) as u8).pushed(
            (self.cpu.stat & 0xEF) | 0x20,
        );
        let masked = saved.with_cpu(saved.cpu.with_flag(Flags::ID, true));
        let low = masked.load(vector);
        let high = low.1.load(vector.wrapping_add(1));
        high.1.jumped(word(low.0, high.0))
    }

    /// The state after reset: interrupts disabled, the stack pointer three
    /// lower, the program counter from the reset vector, and the first
    /// instruction due on tick 8.
    pub open spec fn reset_spec(self) -> Machine {
        let low = self.load(RESET_VECTOR);
        let high = low.1.load(0xFFFD);
        Machine {
            cpu: Cpu {
                stp: self.cpu.stp.wrapping_sub(3),
                pc: word(low.0, high.0),
                cycl: 0,
                next: 8,
                ..self.cpu.with_flag(Flags::ID, true)
            },
            bus: high.1.bus,
        }
    }

    /// The operand address of the instruction whose opcode was just fetched,
    /// the cycles that finding it costs beyond the base count, and the state
    /// afterwards, with the program counter past the operand bytes.
    ///
    /// For an immediate or relative operand the address is that of the
    /// operand byte itself. Modes without an operand give address 0.
    #[verifier::opaque]
    pub open spec fn resolve(self, opcode: u8) -> (u16, u8, Machine) {
        let sensitive = PAGE_BOUNDARY[opcode as int];
        match ADDRESSING_MODE_LOOKUP[opcode as int] {
            AddrM::ABS | AddrM::ADR => {
                let base = self.load_word(self.cpu.pc);
                (base.0, 0, base.1.advanced(2))
            },
            AddrM::AIX => {
                let base = self.load_word(self.cpu.pc);
                let addr = base.0.wrapping_add(self.cpu.x as u16);
                (addr, page_penalty(sensitive, addr, self.cpu.x), base.1.advanced(2))
            },
            AddrM::AIY => {
                let base = self.load_word(self.cpu.pc);
                let addr = base.0.wrapping_add(self.cpu.y as u16);
                (addr, page_penalty(sensitive, addr, self.cpu.y), base.1.advanced(2))
            },
            AddrM::IMD | AddrM::REL => (self.cpu.pc, 0, self.advanced(1)),
            AddrM::IND => {
                let pointer = self.load_word(self.cpu.pc);
                let target = pointer.1.load_word_wrap(pointer.0);
                (target.0, 0, target.1.advanced(2))
            },
            AddrM::IIX => {
                let operand = self.load(self.cpu.pc);
                let pointer = operand.0.wrapping_add(self.cpu.x);
                let low = operand.1.load(pointer as u16);
                let high = low.1.load(pointer.wrapping_add(1) as u16);
                (word(low.0, high.0), 0, high.1.advanced(1))
            },
            AddrM::IIY => {
                let operand = self.load(self.cpu.pc);
                let low = operand.1.load(operand.0 as u16);
                let high = low.1.load(operand.0.wrapping_add(1) as u16);
                let addr = word(low.0, high.0).wrapping_add(self.cpu.y as u16);
                (addr, page_penalty(sensitive, addr, self.cpu.y), high.1.advanced(1))
            },
            AddrM::ZPG => {
                let operand = self.load(self.cpu.pc);
                (operand.0 as u16, 0, operand.1.advanced(1))
            },
            AddrM::ZIX => {
                let operand = self.load(self.cpu.pc);
                (operand.0.wrapping_add(self.cpu.x) as u16, 0, operand.1.advanced(1))
            },
            AddrM::ZIY => {
                let operand = self.load(self.cpu.pc);
                (operand.0.wrapping_add(self.cpu.y) as u16, 0, operand.1.advanced(1))
            },
            AddrM::IMP | AddrM::ACC | AddrM::NUL => (0, 0, self),
        }
    }

    /// A branch that is taken: the offset byte is read at `addr`, the
    /// program counter moves by it, and the branch costs one cycle, or two
    /// if it leaves the page.
    pub open spec fn branched(self, addr: u16) -> (Machine, u8) {
        let offset = self.load(addr);
        let target = branch_target(self.cpu.pc, offset.0);
        (
            offset.1.jumped(target),
            if target / 256 != self.cpu.pc / 256 {
                2
            } else {
                1
            },
        )
    }

    /// What the instruction with the given opcode does once its operand
    /// address is known: the state it leaves, and the cycles it costs beyond
    /// base count and addressing.
    ///
    /// One case for each operation, none left to a default.
    #[verifier::opaque]
    pub open spec fn execute_spec(self, opcode: u8, addr: u16) -> (Machine, u8) {
        let cpu = self.cpu;
        let op = OPERATIONS[opcode as int];
        let m = self.load(addr);
        match op {
            Op::AAC | Op::ADC | Op::AND | Op::ARR | Op::ASR | Op::AXS | Op::BIT | Op::CMP
            | Op::CPX | Op::CPY | Op::EOR | Op::LAX | Op::LDA | Op::LDX | Op::LDY | Op::ORA
            | Op::SBC => (m.1.with_cpu(cpu.read_effect(op, m.0)), 0),
            Op::ASL | Op::LSR | Op::ROL | Op::ROR => if ADDRESSING_MODE_LOOKUP[opcode as int]
                == AddrM::ACC {
                (self.with_cpu(cpu.accumulator_effect(op)), 0)
            } else {
                (m.1.with_cpu(cpu.modify_effect(op, m.0).0).store(
                    addr,
                    cpu.modify_effect(op, m.0).1,
                ), 0)
            },
            Op::INC | Op::DEC | Op::SLO | Op::SRE | Op::RLA | Op::RRA | Op::DCP | Op::ISB => (
                m.1.with_cpu(cpu.modify_effect(op, m.0).0).store(addr, cpu.modify_effect(op, m.0).1),
                0,
            ),
            Op::STA | Op::STX | Op::STY | Op::SAX => (self.store(addr, cpu.stored_value(op)), 0),
            Op::BCC | Op::BCS | Op::BNE | Op::BEQ | Op::BPL | Op::BMI | Op::BVC | Op::BVS => if cpu.branch_condition(
                op,
            ) {
                self.branched(addr)
            } else {
                (self, 0)
            },
            Op::CLC | Op::CLD | Op::CLI | Op::CLV | Op::SEC | Op::SED | Op::SEI | Op::DEX
            | Op::DEY | Op::INX | Op::INY | Op::TAX | Op::TAY | Op::TSX | Op::TXA | Op::TYA
            | Op::TXS => (self.with_cpu(cpu.implied_effect(op)), 0),
            Op::BRK => {
                let saved = self.pushed((cpu.pc / 256) as u8).pushed((cpu.pc % 256) as u8).pushed(
                    cpu.stat | 0x30,
                );
                (
                    saved.with_cpu(
                        Cpu { pc: IRQ_VECTOR, ..saved.cpu.with_flag(Flags::ID, true) },
                    ),
                    0,
                )
            },
            Op::JMP => (self.jumped(addr), 0),
            Op::JSR => {
                let back = cpu.pc.wrapping_sub(1);
                (self.pushed((back / 256) as u8).pushed((back % 256) as u8).jumped(addr), 0)
            },
            Op::RTS => {
                let low = self.pulled();
                let high = low.1.pulled();
                (high.1.jumped(word(low.0, high.0).wrapping_add(1)), 0)
            },
            Op::RTI => {
                let status = self.pulled();
                let low = status.1.pulled();
                let high = low.1.pulled();
                (
                    high.1.with_cpu(
                        Cpu { stat: pulled_status(status.0), pc: word(low.0, high.0), ..high.1.cpu },
                    ),
                    0,
                )
            },
            Op::PHA => (self.pushed(cpu.a), 0),
            Op::PHP => (self.pushed(cpu.stat | 0x30), 0),
            Op::PLA => {
                let value = self.pulled();
                (value.1.with_cpu(value.1.cpu.with_a(value.0)), 0)
            },
            Op::PLP => {
                let value = self.pulled();
                (value.1.with_cpu(Cpu { stat: pulled_status(value.0), ..value.1.cpu }), 0)
            },
            Op::NOP | Op::IGN | Op::SKB | Op::KIL | Op::NUL => (self, 0),
        }
    }
}

/// What one tick of the CPU reports to the driver.
pub struct Tick {
    /// The trace line of the instruction that ran on this tick, where the
    /// bus asks for traces.
    pub trace: Option<String>,
    /// The instruction that ran on this tick would lock up real hardware.
    /// Here it did nothing, and the CPU goes on.
    pub jammed: bool,
}

/// The ticks by which the cycle counters are folded down.
pub const CYCLE_FOLD: u32 = 60000;

/// The ticks an instruction occupies: base count plus penalties, and at
/// least the tick that fetched it.
pub open spec fn duration(opcode: u8, extra: int) -> int {
    if CYCLE_COUNTS[opcode as int] + extra == 0 {
        1
    } else {
        CYCLE_COUNTS[opcode as int] + extra
    }
}

impl Machine {
    /// The CPU pays for a sprite DMA that the bus has armed: 513 ticks, and
    /// one more on an odd tick. It pays once; the request is taken down.
    /// `next` stops at the largest number it can hold.
    pub open spec fn stalled(self) -> Machine {
        if self.bus.oam_dma_cpu {
            Machine {
                cpu: Cpu {
                    next: if self.cpu.next + 513 + self.cpu.cycl % 2 > u32::MAX {
                        u32::MAX
                    } else {
                        (self.cpu.next + 513 + self.cpu.cycl % 2) as u32
                    },
                    ..self.cpu
                },
                bus: Bus { oam_dma_cpu: false, ..self.bus },
            }
        } else {
            self
        }
    }

    /// Both counters come down by 60000 once the tick count has passed it.
    pub open spec fn folded(self) -> Machine {
        if self.cpu.cycl > CYCLE_FOLD {
            self.with_cpu(
                Cpu {
                    cycl: (self.cpu.cycl - CYCLE_FOLD) as u32,
                    next: (self.cpu.next - CYCLE_FOLD) as u32,
                    ..self.cpu
                },
            )
        } else {
            self
        }
    }

    /// The CPU is free to start something on this tick.
    pub open spec fn due(self) -> bool {
        self.cpu.cycl == self.cpu.next
    }

    /// An interrupt request is pending and interrupts are enabled.
    pub open spec fn irq_pending(self) -> bool {
        self.cpu.irq_signal && !self.cpu.flag(Flags::ID)
    }

    /// The state after the CPU served an interrupt request: seven ticks.
    pub open spec fn irq_served(self) -> Machine {
        let entered = self.interrupted(IRQ_VECTOR);
        entered.with_cpu(
            Cpu { irq_signal: false, next: (self.cpu.cycl + 7) as u32, ..entered.cpu },
        )
    }

    /// The state after the CPU served a non-maskable interrupt: eight ticks.
    pub open spec fn nmi_served(self) -> Machine {
        let entered = self.interrupted(NMI_VECTOR);
        Machine {
            cpu: Cpu { next: (self.cpu.cycl + 8) as u32, ..entered.cpu },
            bus: Bus { nmi_signal: false, ..entered.bus },
        }
    }

    /// The state after the reads that a trace line takes, where the bus
    /// asks for traces.
    pub open spec fn traced(self) -> Machine {
        if self.bus.cpu_debug {
            Machine { bus: trace_text(self.cpu, self.bus).1, ..self }
        } else {
            self
        }
    }

    /// The opcode that the CPU fetches next.
    pub open spec fn opcode(self) -> u8 {
        self.load(self.cpu.pc).0
    }

    /// The state after one instruction: fetch, operand, execution, and
    /// `next` set to the tick on which the instruction is over.
    pub open spec fn instruction_run(self) -> Machine {
        let fetched = self.load(self.cpu.pc).1.advanced(1);
        let found = fetched.resolve(self.opcode());
        let done = found.2.execute_spec(self.opcode(), found.0);
        done.0.with_cpu(
            Cpu {
                next: (self.cpu.cycl + duration(self.opcode(), found.1 + done.1)) as u32,
                ..done.0.cpu
            },
        )
    }

    /// The CPU runs an instruction on this tick, rather than waiting or
    /// serving an interrupt.
    pub open spec fn runs_instruction(self) -> bool {
        let ready = self.stalled().folded();
        ready.due() && !ready.irq_pending() && !ready.bus.nmi_signal
    }

    /// The state after one tick. A pending DMA is paid for and the counters
    /// are folded. Then, if the CPU is due, it serves an interrupt request,
    /// or else a non-maskable interrupt, or else runs an instruction. Last,
    /// the tick is counted.
    pub open spec fn ticked(self) -> Machine {
        let ready = self.stalled().folded();
        let acted = if !ready.due() {
            ready
        } else if ready.irq_pending() {
            ready.irq_served()
        } else if ready.bus.nmi_signal {
            ready.nmi_served()
        } else {
            ready.traced().instruction_run()
        };
        acted.with_cpu(Cpu { cycl: (acted.cpu.cycl + 1) as u32, ..acted.cpu })
    }

    /// The trace line of this tick, if it has one.
    pub open spec fn trace_line(self) -> Option<Seq<char>> {
        let ready = self.stalled().folded();
        if self.runs_instruction() && ready.bus.cpu_debug {
            Some(trace_text(ready.cpu, ready.bus).0)
        } else {
            None
        }
    }

    /// The instruction of this tick, if it has one, is a lock-up.
    pub open spec fn jams(self) -> bool {
        self.runs_instruction() && OPERATIONS[self.stalled().folded().traced().opcode() as int]
            == Op::KIL
    }

}

impl Cpu {
    /// The counters are in step: the tick count was folded when due, and
    /// the CPU owes no ticks.
    pub open spec fn in_step(self) -> bool {
        self.cycl <= CYCLE_FOLD + 1 && self.cycl <= self.next
    }
}

impl Cpu {
    /// The part of the CPU that no instruction touches: the two cycle
    /// counters and the pending interrupt request.
    pub open spec fn same_counters(self, other: Cpu) -> bool {
        self.cycl == other.cycl && self.next == other.next && self.irq_signal == other.irq_signal
    }
}

/// Finding an operand costs at most one extra cycle and touches no counter.
pub proof fn lemma_resolve_keeps_counters(machine: Machine, opcode: u8)
    ensures
        machine.resolve(opcode).2.cpu.same_counters(machine.cpu),
        machine.resolve(opcode).1 <= 1,
{
    reveal(Machine::resolve);
}

/// Taking an interrupt touches no counter.
pub proof fn lemma_interrupt_keeps_counters(machine: Machine, vector: u16)
    ensures
        machine.interrupted(vector).cpu.same_counters(machine.cpu),
{
    reveal(Machine::interrupted);
}

/// No instruction touches a counter, and none costs more than two cycles
/// beyond base count and addressing.
pub proof fn lemma_execute_keeps_counters(machine: Machine, opcode: u8, addr: u16)
    ensures
        machine.execute_spec(opcode, addr).0.cpu.same_counters(machine.cpu),
        machine.execute_spec(opcode, addr).1 <= 2,
{
    reveal(Machine::execute_spec);
    let op = OPERATIONS[opcode as int];
    let m = machine.load(addr).0;
    crate::alu::lemma_effects_keep_counters(machine.cpu, op, m);
}

/// Every conditional branch has a relative operand and a base count of two
/// cycles.
pub proof fn lemma_branch_opcodes(opcode: u8)
    requires
        crate::alu::branches(OPERATIONS[opcode as int]),
    ensures
        ADDRESSING_MODE_LOOKUP[opcode as int] == AddrM::REL,
        CYCLE_COUNTS[opcode as int] == 2,
{
    if opcode < 0x40 {
    } else if opcode < 0x80 {
    } else if opcode < 0xC0 {
    } else {
    }
}

/// What a conditional branch costs. The offset byte follows the opcode. A
/// branch that is not taken occupies two ticks and goes on behind its
/// operand. One that is taken goes where the offset says, counted from
/// behind the operand, and occupies three ticks, or four if that is on
/// another page.
pub proof fn lemma_branch_cycles(machine: Machine)
    requires
        machine.cpu.in_step(),
        crate::alu::branches(OPERATIONS[machine.opcode() as int]),
    ensures
        ({
            let behind = machine.cpu.pc.wrapping_add(2);
            let offset = machine.load(machine.cpu.pc).1.load(machine.cpu.pc.wrapping_add(1)).0;
            let target = branch_target(behind, offset);
            let taken = machine.cpu.branch_condition(OPERATIONS[machine.opcode() as int]);
            let after = machine.instruction_run();
            &&& after.cpu.pc == if taken {
                target
            } else {
                behind
            }
            &&& after.cpu.next - machine.cpu.cycl == if !taken {
                2int
            } else if target / 256 == behind / 256 {
                3int
            } else {
                4int
            }
        }),
{
    lemma_branch_opcodes(machine.opcode());
    reveal(Machine::resolve);
    reveal(Machine::execute_spec);
}

/// A write to `$4014` arms a sprite DMA for both chips, from the page that
/// the byte names. The CPU then pays 513 ticks for it, or 514 on an odd
/// tick, and pays once.
pub proof fn lemma_dma_stall(machine: Machine, page: u8)
    requires
        machine.cpu.next + 514 <= u32::MAX,
    ensures
        ({
            let armed = machine.store(crate::bus::OAM_DMA_ADDR, page);
            &&& armed.bus.oam_dma_cpu
            &&& armed.bus.oam_dma_ppu
            &&& armed.bus.oam_dma_addr == page * 256
            &&& armed.stalled().cpu.next == machine.cpu.next + 513 + machine.cpu.cycl % 2
            &&& !armed.stalled().bus.oam_dma_cpu
            &&& armed.stalled().stalled() == armed.stalled()
        }),
{
    reveal(Bus::after_write);
    lemma_page_address(page);
}

/// The first address of a page.
pub proof fn lemma_page_address(page: u8)
    by (bit_vector)
    ensures
        (page as u16) << 8 == page * 256,
{
}

impl Cpu {
    /// Reads a byte from the bus.
    pub fn read(&self, bus: &mut Bus, addr: u16) -> (value: u8)
        ensures
            value == old(bus).read_value(addr, false),
            *final(bus) == old(bus).after_read(addr, false),
    {
        bus.read(addr, false)
    }

    /// Reads a little-endian word from the bus.
    pub fn read_word_little(&self, bus: &mut Bus, addr: u16) -> (value: u16)
        ensures
            value == old(bus).word_read(addr, false).0,
            *final(bus) == old(bus).word_read(addr, false).1,
    {
        bus.read_word_little(addr, false)
    }

    /// Reads a little-endian word whose high byte lies on the page of its
    /// low byte.
    pub fn read_word_little_wrap(&self, bus: &mut Bus, addr: u16) -> (value: u16)
        ensures
            value == old(bus).word_read_wrap(addr, false).0,
            *final(bus) == old(bus).word_read_wrap(addr, false).1,
    {
        bus.read_word_little_wrap(addr, false)
    }

    /// Writes a byte to the bus.
    pub fn write(&self, bus: &mut Bus, addr: u16, val: u8)
        ensures
            *final(bus) == old(bus).after_write(addr, val),
    {
        bus.write(addr, val);
    }

    /// Pushes a byte on the stack.
    pub fn push(&mut self, bus: &mut Bus, value: u8)
        ensures
            (Machine { cpu: *final(self), bus: *final(bus) }) == (Machine {
                cpu: *old(self),
                bus: *old(bus),
            }).pushed(value),
    {
        bus.write(0x100 + (self.stp as u16), value);
        self.stp = self.stp.wrapping_sub(1);
    }

    /// Pulls a byte off the stack.
    pub fn pull(&mut self, bus: &mut Bus) -> (value: u8)
        ensures
            (value, Machine { cpu: *final(self), bus: *final(bus) }) == (Machine {
                cpu: *old(self),
                bus: *old(bus),
            }).pulled(),
    {
        self.stp = self.stp.wrapping_add(1);
        bus.read(0x100 + (self.stp as u16), false)
    }

    /// Puts the CPU in its state after reset.
    pub fn reset(&mut self, bus: &mut Bus)
        ensures
            (Machine { cpu: *final(self), bus: *final(bus) }) == (Machine {
                cpu: *old(self),
                bus: *old(bus),
            }).reset_spec(),
    {
        self.set_flag(Flags::ID, true);
        self.stp = self.stp.wrapping_sub(3);
        let pc_one: u8 = self.read(bus, RESET_VECTOR);
        let pc_two: u8 = self.read(bus, RESET_VECTOR + 1);
        self.pc = (pc_two as u16) * 256 + (pc_one as u16);
        self.cycl = 0;
        self.next = 8;
    }

    /// Takes an interrupt through the vector at `addr`.
    pub fn interrupt(&mut self, bus: &mut Bus, addr: u16)
        ensures
            (Machine { cpu: *final(self), bus: *final(bus) }) == (Machine {
                cpu: *old(self),
                bus: *old(bus),
            }).interrupted(addr),
    {
        reveal(Machine::interrupted);
        self.push(bus, (self.pc / 256) as u8);
        self.push(bus, (self.pc % 256) as u8);
        self.push(bus, (self.stat & 0xEF) | 0x20);
        self.set_flag(Flags::ID, true);
        let pc_one: u8 = self.read(bus, addr);
        let pc_two: u8 = self.read(bus, addr.wrapping_add(1));
        self.pc = (pc_two as u16) * 256 + (pc_one as u16);
    }

    /// Finds the operand of the instruction whose opcode was just fetched.
    /// Returns the operand's address and the extra cycles that the
    /// addressing costs, and moves the program counter past the operand.
    pub fn set_address_mode(&mut self, bus: &mut Bus, opcode: u8) -> (found: (u16, u8))
        ensures
            (found.0, found.1, Machine { cpu: *final(self), bus: *final(bus) }) == (Machine {
                cpu: *old(self),
                bus: *old(bus),
            }).resolve(opcode),
    {
        reveal(Machine::resolve);
        let check_for_page_boundary: bool = page_sensitive(opcode);
        let mut real_address: u16 = 0;
        let mut cycle_addition: u8 = 0;
        match addressing_mode(opcode) {
            AddrM::ABS | AddrM::ADR => {
                real_address = self.read_word_little(bus, self.pc);
                self.pc = self.pc.wrapping_add(2);
            },
            AddrM::AIX => {
                real_address = self.read_word_little(bus, self.pc);
                real_address = real_address.wrapping_add(self.x as u16);
                if check_for_page_boundary && (real_address % 256) < (self.x as u16) {
                    cycle_addition += 1;
                }
                self.pc = self.pc.wrapping_add(2);
            },
            AddrM::AIY => {
                real_address = self.read_word_little(bus, self.pc);
                real_address = real_address.wrapping_add(self.y as u16);
                if check_for_page_boundary && (real_address % 256) < (self.y as u16) {
                    cycle_addition += 1;
                }
                self.pc = self.pc.wrapping_add(2);
            },
            AddrM::IMD | AddrM::REL => {
                real_address = self.pc;
                self.pc = self.pc.wrapping_add(1);
            },
            AddrM::IND => {
                let effective_address: u16 = self.read_word_little(bus, self.pc);
                real_address = self.read_word_little_wrap(bus, effective_address);
                self.pc = self.pc.wrapping_add(2);
            },
            AddrM::IIX => {
                let loc: u8 = self.read(bus, self.pc);
                let pointer: u8 = loc.wrapping_add(self.x);
                let low_byte: u8 = self.read(bus, pointer as u16);
                let high_byte: u8 = self.read(bus, pointer.wrapping_add(1) as u16);
                real_address = (high_byte as u16) * 256 + (low_byte as u16);
                self.pc = self.pc.wrapping_add(1);
            },
            AddrM::IIY => {
                let loc: u8 = self.read(bus, self.pc);
                let low_byte: u8 = self.read(bus, loc as u16);
                let high_byte: u8 = self.read(bus, loc.wrapping_add(1) as u16);
                let effective_address: u16 = (high_byte as u16) * 256 + (low_byte as u16);
                real_address = effective_address.wrapping_add(self.y as u16);
                if check_for_page_boundary && (real_address % 256) < (self.y as u16) {
                    cycle_addition += 1;
                }
                self.pc = self.pc.wrapping_add(1);
            },
            AddrM::ZPG => {
                real_address = self.read(bus, self.pc) as u16;
                self.pc = self.pc.wrapping_add(1);
            },
            AddrM::ZIX => {
                real_address = self.read(bus, self.pc).wrapping_add(self.x) as u16;
                self.pc = self.pc.wrapping_add(1);
            },
            AddrM::ZIY => {
                real_address = self.read(bus, self.pc).wrapping_add(self.y) as u16;
                self.pc = self.pc.wrapping_add(1);
            },
            AddrM::IMP | AddrM::ACC | AddrM::NUL => {},
        }
        (real_address, cycle_addition)
    }

    /// Takes a branch whose offset byte lies at `real_address`. Returns the
    /// cycles that the branch costs: one, or two if it leaves the page.
    pub fn branch(&mut self, bus: &mut Bus, real_address: u16) -> (cycles: u8)
        ensures
            (Machine { cpu: *final(self), bus: *final(bus) }, cycles) == (Machine {
                cpu: *old(self),
                bus: *old(bus),
            }).branched(real_address),
    {
        let old_pc: u16 = self.pc;
        let offset: u8 = self.read(bus, real_address);
        if offset <= 0x7F {
            self.pc = self.pc.wrapping_add(offset as u16);
        } else {
            self.pc = self.pc.wrapping_sub(0x100 - (offset as u16));
        }
        if self.pc / 256 != old_pc / 256 {
            2
        } else {
            1
        }
    }
    /// Carries out the instruction with the given opcode on the operand at
    /// `real_address`. Returns the cycles it costs beyond base count and
    /// addressing, which only a taken branch has.
    pub fn execute(&mut self, bus: &mut Bus, opcode: u8, real_address: u16) -> (cycle_addition:
        u8)
        ensures
            (Machine { cpu: *final(self), bus: *final(bus) }, cycle_addition) == (Machine {
                cpu: *old(self),
                bus: *old(bus),
            }).execute_spec(opcode, real_address),
    {
        reveal(Machine::execute_spec);
        let op: Op = operation(opcode);
        let mut cycle_addition: u8 = 0;
        match op {
            Op::AAC | Op::ADC | Op::AND | Op::ARR | Op::ASR | Op::AXS | Op::BIT | Op::CMP
            | Op::CPX | Op::CPY | Op::EOR | Op::LAX | Op::LDA | Op::LDX | Op::LDY | Op::ORA
            | Op::SBC => {
                let m: u8 = self.read(bus, real_address);
                self.apply_read(op, m);
            },
            Op::ASL | Op::LSR | Op::ROL | Op::ROR => {
                let on_a: bool = match addressing_mode(opcode) {
                    AddrM::ACC => true,
                    _ => false,
                };
                if on_a {
                    self.apply_accumulator(op);
                } else {
                    let m: u8 = self.read(bus, real_address);
                    let stored: u8 = self.apply_modify(op, m);
                    self.write(bus, real_address, stored);
                }
            },
            Op::INC | Op::DEC | Op::SLO | Op::SRE | Op::RLA | Op::RRA | Op::DCP | Op::ISB => {
                let m: u8 = self.read(bus, real_address);
                let stored: u8 = self.apply_modify(op, m);
                self.write(bus, real_address, stored);
            },
            Op::STA | Op::STX | Op::STY | Op::SAX => {
                self.write(bus, real_address, self.value_to_store(op));
            },
            Op::BCC | Op::BCS | Op::BNE | Op::BEQ | Op::BPL | Op::BMI | Op::BVC | Op::BVS => {
                if self.takes_branch(op) {
                    cycle_addition = self.branch(bus, real_address);
                }
            },
            Op::CLC | Op::CLD | Op::CLI | Op::CLV | Op::SEC | Op::SED | Op::SEI | Op::DEX
            | Op::DEY | Op::INX | Op::INY | Op::TAX | Op::TAY | Op::TSX | Op::TXA | Op::TYA
            | Op::TXS => {
                self.apply_implied(op);
            },
            Op::BRK => {
                self.push(bus, (self.pc / 256) as u8);
                self.push(bus, (self.pc % 256) as u8);
                self.push(bus, self.stat | 0x30);
                self.set_flag(Flags::ID, true);
                self.pc = IRQ_VECTOR;
            },
            Op::JMP => {
                self.pc = real_address;
            },
            Op::JSR => {
                let return_point: u16 = self.pc.wrapping_sub(1);
                self.push(bus, (return_point / 256) as u8);
                self.push(bus, (return_point % 256) as u8);
                self.pc = real_address;
            },
            Op::RTS => {
                let stack_one: u8 = self.pull(bus);
                let stack_two: u8 = self.pull(bus);
                self.pc = ((stack_two as u16) * 256 + (stack_one as u16)).wrapping_add(1);
            },
            Op::RTI => {
                let status: u8 = self.pull(bus);
                let stack_one: u8 = self.pull(bus);
                let stack_two: u8 = self.pull(bus);
                self.stat = (status & 0xEF) | 0x20;
                self.pc = (stack_two as u16) * 256 + (stack_one as u16);
            },
            Op::PHA => {
                self.push(bus, self.a);
            },
            Op::PHP => {
                self.push(bus, self.stat | 0x30);
            },
            Op::PLA => {
                let value: u8 = self.pull(bus);
                self.load_a(value);
            },
            Op::PLP => {
                let value: u8 = self.pull(bus);
                self.stat = (value & 0xEF) | 0x20;
            },
            Op::NOP | Op::IGN | Op::SKB | Op::KIL | Op::NUL => {},
        }
        cycle_addition
    }
    /// Tells whether the counters are in step, as [`Cpu::clock`] wants them.
    pub fn counters_in_step(&self) -> (ok: bool)
        ensures
            ok == self.in_step(),
    {
        self.cycl <= CYCLE_FOLD + 1 && self.cycl <= self.next
    }

    /// Runs the CPU for one tick. The counters are in step before, and are
    /// so after.
    pub fn clock(&mut self, bus: &mut Bus) -> (tick: Tick)
        requires
            old(self).in_step(),
        ensures
            (Machine { cpu: *final(self), bus: *final(bus) }) == (Machine {
                cpu: *old(self),
                bus: *old(bus),
            }).ticked(),
            final(self).in_step(),
            tick.jammed == (Machine { cpu: *old(self), bus: *old(bus) }).jams(),
            tick.trace is Some == (Machine { cpu: *old(self), bus: *old(bus) }).trace_line() is Some,
            tick.trace matches Some(line) ==> Some(line@) == (Machine {
                cpu: *old(self),
                bus: *old(bus),
            }).trace_line(),
    {
        if bus.oam_dma_cpu {
            self.next = self.next.saturating_add(513 + self.cycl % 2);
            bus.oam_dma_cpu = false;
        }
        if self.cycl > CYCLE_FOLD {
            self.cycl -= CYCLE_FOLD;
            self.next -= CYCLE_FOLD;
        }
        let mut tick = Tick { trace: None, jammed: false };
        if self.cycl == self.next {
            if self.irq_signal && self.get_flag(Flags::ID) == 0 {
                let started: u32 = self.cycl;
                proof {
                    lemma_interrupt_keeps_counters(Machine { cpu: *self, bus: *bus }, IRQ_VECTOR);
                }
                self.interrupt(bus, IRQ_VECTOR);
                self.irq_signal = false;
                self.next = started + 7;
            } else if bus.nmi_signal {
                let started: u32 = self.cycl;
                proof {
                    lemma_interrupt_keeps_counters(Machine { cpu: *self, bus: *bus }, NMI_VECTOR);
                }
                self.interrupt(bus, NMI_VECTOR);
                bus.nmi_signal = false;
                self.next = started + 8;
            } else {
                if bus.cpu_debug {
                    tick.trace = Some(output_debug_info(self, bus));
                }
                let started: u32 = self.cycl;
                let opcode: u8 = self.read(bus, self.pc);
                self.pc = self.pc.wrapping_add(1);
                let opcode_cycles: u8 = base_cycles(opcode);
                proof {
                    lemma_resolve_keeps_counters(Machine { cpu: *self, bus: *bus }, opcode);
                }
                let found: (u16, u8) = self.set_address_mode(bus, opcode);
                proof {
                    lemma_execute_keeps_counters(Machine { cpu: *self, bus: *bus }, opcode, found.0);
                }
                let cycle_addition: u8 = self.execute(bus, opcode, found.0);
                tick.jammed = match operation(opcode) {
                    Op::KIL => true,
                    _ => false,
                };
                let total: u32 = (opcode_cycles as u32) + (found.1 as u32) + (cycle_addition as u32);
                if total == 0 {
                    self.next = started + 1;
                } else {
                    self.next = started + total;
                }
            }
        }
        self.cycl += 1;
        tick
    }
}

} // verus!
