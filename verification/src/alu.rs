//! What each instruction does to the registers, apart from any access to
//! memory: arithmetic, logic, shifts, compares, and the flags they leave.
//!
//! Every operation is stated twice: as a function on register values, over
//! the integers, and as the code that carries it out on bytes.

use crate::cpu::{lemma_flag_after_set, lemma_shift_by_one, lemma_sign_bit, Cpu, Flags};
use crate::opcodes::Op;
use vstd::prelude::*;

verus! {

/// A byte shifted left by one place; bit 7 falls off.
pub open spec fn doubled(m: u8) -> u8 {
    ((m % 128) * 2) as u8
}

/// A byte shifted right by one place; bit 0 falls off.
pub open spec fn halved(m: u8) -> u8 {
    m / 2
}

/// A byte read as a two's-complement number.
pub open spec fn signed(m: u8) -> int {
    if m >= 0x80 {
        m - 256
    } else {
        m as int
    }
}

/// The low byte of an integer.
pub open spec fn low_byte(n: int) -> u8 {
    (n % 256) as u8
}

impl Cpu {
    /// `LDA`, `PLA`, `TXA`, `TYA`: the accumulator takes a value.
    pub open spec fn with_a(self, value: u8) -> Cpu {
        Cpu { a: value, ..self }.with_zn(value)
    }

    /// `LDX`, `TAX`, `TSX`, `INX`, `DEX`: X takes a value.
    pub open spec fn with_x(self, value: u8) -> Cpu {
        Cpu { x: value, ..self }.with_zn(value)
    }

    /// `LDY`, `TAY`, `INY`, `DEY`: Y takes a value.
    pub open spec fn with_y(self, value: u8) -> Cpu {
        Cpu { y: value, ..self }.with_zn(value)
    }

    /// `LAX`: the accumulator and X take a value.
    pub open spec fn with_ax(self, value: u8) -> Cpu {
        Cpu { a: value, x: value, ..self }.with_zn(value)
    }

    /// `ADC`: the accumulator takes the low byte of accumulator plus operand
    /// plus carry. Carry reports a sum above 255. Overflow reports that the
    /// operands agree in sign and the result does not.
    pub open spec fn added(self, m: u8) -> Cpu {
        let sum: int = self.a + m + self.carry_in();
        let result: u8 = low_byte(sum);
        let overflow: bool = ((self.a >= 0x80) == (m >= 0x80)) && ((result >= 0x80) != (self.a
            >= 0x80));
        Cpu { a: result, ..self.with_flag(Flags::OV, overflow) }.with_flag(
            Flags::CA,
            sum > 0xFF,
        ).with_zn(result)
    }

    /// `SBC`: the accumulator takes the low byte of accumulator minus operand
    /// minus borrow, where borrow is the inverse of carry. Carry reports a
    /// difference that is not negative. Overflow reports that the operands
    /// differ in sign and the result left the sign of the accumulator.
    pub open spec fn subtracted(self, m: u8) -> Cpu {
        let difference: int = self.a - m - (1 - self.carry_in());
        let result: u8 = low_byte(difference);
        let overflow: bool = ((self.a >= 0x80) != (m >= 0x80)) && ((result >= 0x80) != (self.a
            >= 0x80));
        Cpu { a: result, ..self.with_flag(Flags::OV, overflow) }.with_flag(
            Flags::CA,
            difference >= 0,
        ).with_zn(result)
    }

    /// `AND`.
    pub open spec fn anded(self, m: u8) -> Cpu {
        self.with_a(self.a & m)
    }

    /// `ORA`.
    pub open spec fn ored(self, m: u8) -> Cpu {
        self.with_a(self.a | m)
    }

    /// `EOR`.
    pub open spec fn xored(self, m: u8) -> Cpu {
        self.with_a(self.a ^ m)
    }

    /// `AAC`: as `AND`, and carry takes the sign of the result.
    pub open spec fn and_carried(self, m: u8) -> Cpu {
        self.with_a(self.a & m).with_flag(Flags::CA, (self.a & m) >= 0x80)
    }

    /// `ASR`: the accumulator takes half of accumulator AND operand.
    pub open spec fn and_halved(self, m: u8) -> Cpu {
        self.with_a(halved(self.a & m))
    }

    /// `ARR`: the accumulator takes accumulator AND operand, rotated right
    /// through carry. Carry takes bit 6 of the result, overflow whether
    /// bits 6 and 5 differ.
    pub open spec fn and_rotated(self, m: u8) -> Cpu {
        let result: u8 = (halved(self.a & m) + 128 * self.carry_in()) as u8;
        let bit6: bool = (result / 64) % 2 == 1;
        let bit5: bool = (result / 32) % 2 == 1;
        self.with_a(result).with_flag(Flags::CA, bit6).with_flag(Flags::OV, bit6 != bit5)
    }

    /// `AXS`: X takes the low byte of (A AND X) minus operand; carry
    /// reports that nothing was borrowed.
    pub open spec fn ax_subtracted(self, m: u8) -> Cpu {
        let result: u8 = low_byte((self.a & self.x) - m);
        Cpu { x: result, ..self }.with_flag(Flags::CA, (self.a & self.x) >= m).with_zn(result)
    }

    /// `BIT`: zero reports that accumulator and operand share no bit,
    /// overflow that the operand has a bit among 4-6, negative its bit 7.
    pub open spec fn bit_tested(self, m: u8) -> Cpu {
        self.with_flag(Flags::ZE, self.a & m == 0).with_flag(Flags::OV, m & 0x70 != 0).with_flag(
            Flags::NG,
            m >= 0x80,
        )
    }

    /// `CMP`, `CPX`, `CPY`: the flags of `register` minus operand. Carry
    /// reports register >= operand, zero that they are equal, negative the
    /// sign of the low byte of the difference.
    pub open spec fn compared(self, register: u8, m: u8) -> Cpu {
        self.with_flag(Flags::CA, register >= m).with_flag(Flags::ZE, register == m).with_flag(
            Flags::NG,
            low_byte(register - m) >= 0x80,
        )
    }

    /// `ASL` and `LSR` on the accumulator: it takes the shifted value, carry
    /// the bit that fell off.
    pub open spec fn a_shifted(self, left: bool) -> Cpu {
        if left {
            Cpu { a: doubled(self.a), ..self.with_flag(Flags::CA, self.a >= 0x80) }.with_zn(
                doubled(self.a),
            )
        } else {
            Cpu { a: halved(self.a), ..self.with_flag(Flags::CA, self.a % 2 == 1) }.with_zn(
                halved(self.a),
            )
        }
    }

    /// `ROL` and `ROR` on the accumulator: as the shifts, with the old carry
    /// entering at the free end.
    pub open spec fn a_rotated(self, left: bool) -> Cpu {
        if left {
            let result: u8 = (doubled(self.a) + self.carry_in()) as u8;
            Cpu { a: result, ..self.with_flag(Flags::CA, self.a >= 0x80) }.with_zn(result)
        } else {
            let result: u8 = (halved(self.a) + 128 * self.carry_in()) as u8;
            Cpu { a: result, ..self.with_flag(Flags::CA, self.a % 2 == 1) }.with_zn(result)
        }
    }

    /// `ASL` and `LSR` on memory: the registers afterwards and the byte to
    /// store.
    pub open spec fn shifted(self, m: u8, left: bool) -> (Cpu, u8) {
        if left {
            (self.with_flag(Flags::CA, m >= 0x80).with_zn(doubled(m)), doubled(m))
        } else {
            (self.with_flag(Flags::CA, m % 2 == 1).with_zn(halved(m)), halved(m))
        }
    }

    /// `ROL` and `ROR` on memory: the registers afterwards and the byte to
    /// store. The old carry enters at the free end, carry takes the bit that
    /// fell off, and zero and negative follow the stored byte.
    pub open spec fn rotated(self, m: u8, left: bool) -> (Cpu, u8) {
        let result: u8 = if left {
            (doubled(m) + self.carry_in()) as u8
        } else {
            (halved(m) + 128 * self.carry_in()) as u8
        };
        let carry: bool = if left {
            m >= 0x80
        } else {
            m % 2 == 1
        };
        (self.with_flag(Flags::CA, carry).with_zn(result), result)
    }

    /// `INC` and `DEC`: the registers afterwards and the byte to store.
    pub open spec fn stepped(self, m: u8, up: bool) -> (Cpu, u8) {
        let result: u8 = if up {
            low_byte(m + 1)
        } else {
            low_byte(m - 1)
        };
        (self.with_zn(result), result)
    }

    /// `SLO`: memory is shifted left, then ORed into the accumulator.
    pub open spec fn slo(self, m: u8) -> (Cpu, u8) {
        (
            self.with_flag(Flags::CA, m >= 0x80).with_a(self.a | doubled(m)),
            doubled(m),
        )
    }

    /// `SRE`: memory is shifted right, then exclusive-ORed into the
    /// accumulator.
    pub open spec fn sre(self, m: u8) -> (Cpu, u8) {
        (
            self.with_flag(Flags::CA, m % 2 == 1).with_a(self.a ^ halved(m)),
            halved(m),
        )
    }

    /// `RLA`: memory is rotated left, then ANDed into the accumulator.
    pub open spec fn rla(self, m: u8) -> (Cpu, u8) {
        let result: u8 = (doubled(m) + self.carry_in()) as u8;
        (self.with_flag(Flags::CA, m >= 0x80).with_a(self.a & result), result)
    }

    /// `RRA`: memory is rotated right, then added to the accumulator with
    /// the carry that the rotation left.
    pub open spec fn rra(self, m: u8) -> (Cpu, u8) {
        let result: u8 = (halved(m) + 128 * self.carry_in()) as u8;
        (self.with_flag(Flags::CA, m % 2 == 1).added(result), result)
    }

    /// `DCP`: memory is decremented, then compared with the accumulator.
    /// Carry reports that the accumulator is not below the low byte of the
    /// difference.
    pub open spec fn dcp(self, m: u8) -> (Cpu, u8) {
        let stored: u8 = low_byte(m - 1);
        let result: u8 = low_byte(self.a - stored);
        (
            self.with_flag(Flags::CA, self.a >= result).with_flag(Flags::ZE, result == 0).with_flag(
                Flags::NG,
                result >= 0x80,
            ),
            stored,
        )
    }

    /// `ISB`: memory is incremented, then subtracted from the accumulator.
    pub open spec fn isb(self, m: u8) -> (Cpu, u8) {
        (self.subtracted(low_byte(m + 1)), low_byte(m + 1))
    }

    /// Gives the accumulator a value and sets zero and negative from it.
    pub fn load_a(&mut self, value: u8)
        ensures
            *final(self) == old(self).with_a(value),
    {
        self.a = value;
        self.set_zn(value);
    }

    /// Gives X a value and sets zero and negative from it.
    pub fn load_x(&mut self, value: u8)
        ensures
            *final(self) == old(self).with_x(value),
    {
        self.x = value;
        self.set_zn(value);
    }

    /// Gives Y a value and sets zero and negative from it.
    pub fn load_y(&mut self, value: u8)
        ensures
            *final(self) == old(self).with_y(value),
    {
        self.y = value;
        self.set_zn(value);
    }

    /// Gives the accumulator and X a value and sets zero and negative from it.
    pub fn load_ax(&mut self, value: u8)
        ensures
            *final(self) == old(self).with_ax(value),
    {
        self.a = value;
        self.x = value;
        self.set_zn(value);
    }

    /// `ADC`: adds the operand and carry to the accumulator.
    pub fn add_with_carry(&mut self, m: u8)
        ensures
            *final(self) == old(self).added(m),
    {
        let sum: u16 = (self.a as u16) + (m as u16) + (self.get_flag(Flags::CA) as u16);
        let result: u8 = (sum % 256) as u8;
        proof {
            lemma_sign_bit(self.a, m);
            lemma_sign_bit(self.a, result);
        }
        let overflow: bool = ((self.a ^ m) & 0x80 == 0) && ((self.a ^ result) & 0x80 == 0x80);
        self.set_flag(Flags::OV, overflow);
        self.a = result;
        self.set_flag(Flags::CA, sum > 0xFF);
        self.set_zn(result);
    }

    /// `SBC`: subtracts the operand and borrow from the accumulator.
    pub fn subtract_with_carry(&mut self, m: u8)
        ensures
            *final(self) == old(self).subtracted(m),
    {
        let borrow: u16 = 1 - (self.get_flag(Flags::CA) as u16);
        let total: u16 = 0x100 + (self.a as u16) - (m as u16) - borrow;
        let result: u8 = (total % 256) as u8;
        proof {
            lemma_sign_bit(self.a, m);
            lemma_sign_bit(self.a, result);
        }
        let overflow: bool = ((self.a ^ m) & 0x80 == 0x80) && ((self.a ^ result) & 0x80 == 0x80);
        self.set_flag(Flags::OV, overflow);
        self.a = result;
        self.set_flag(Flags::CA, total >= 0x100);
        self.set_zn(result);
    }

    /// `AND`: ANDs the operand into the accumulator.
    pub fn and(&mut self, m: u8)
        ensures
            *final(self) == old(self).anded(m),
    {
        self.load_a(self.a & m);
    }

    /// `ORA`: ORs the operand into the accumulator.
    pub fn ora(&mut self, m: u8)
        ensures
            *final(self) == old(self).ored(m),
    {
        self.load_a(self.a | m);
    }

    /// `EOR`: exclusive-ORs the operand into the accumulator.
    pub fn eor(&mut self, m: u8)
        ensures
            *final(self) == old(self).xored(m),
    {
        self.load_a(self.a ^ m);
    }

    /// `AAC`: ANDs the operand into the accumulator and copies its sign to
    /// carry.
    pub fn aac(&mut self, m: u8)
        ensures
            *final(self) == old(self).and_carried(m),
    {
        self.load_a(self.a & m);
        let negative: bool = self.get_flag(Flags::NG) != 0;
        proof {
            lemma_flag_after_set(
                (Cpu { a: old(self).a & m, ..*old(self) }).with_flag(
                    Flags::ZE,
                    (old(self).a & m) == 0,
                ),
                Flags::NG,
                (old(self).a & m) >= 0x80,
                Flags::NG,
            );
        }
        self.set_flag(Flags::CA, negative);
    }

    /// `ASR`: ANDs the operand into the accumulator and shifts it right.
    pub fn asr(&mut self, m: u8)
        ensures
            *final(self) == old(self).and_halved(m),
    {
        proof {
            lemma_shift_by_one(self.a & m);
        }
        self.load_a((self.a & m) >> 1);
    }

    /// `ARR`: ANDs the operand into the accumulator and rotates it right.
    pub fn arr(&mut self, m: u8)
        ensures
            *final(self) == old(self).and_rotated(m),
    {
        proof {
            lemma_shift_by_one(self.a & m);
        }
        let high: u8 = if self.get_flag(Flags::CA) != 0 {
            0x80
        } else {
            0
        };
        let result: u8 = ((self.a & m) >> 1) + high;
        self.load_a(result);
        let bit6: bool = (result / 64) % 2 == 1;
        let bit5: bool = (result / 32) % 2 == 1;
        self.set_flag(Flags::CA, bit6);
        self.set_flag(Flags::OV, bit6 != bit5);
    }

    /// `AXS`: subtracts the operand from A AND X, into X.
    pub fn axs(&mut self, m: u8)
        ensures
            *final(self) == old(self).ax_subtracted(m),
    {
        let total: u16 = 0x100 + ((self.a & self.x) as u16) - (m as u16);
        let result: u8 = (total % 256) as u8;
        self.x = result;
        self.set_flag(Flags::CA, total >= 0x100);
        self.set_zn(result);
    }

    /// `BIT`: tests the operand against the accumulator.
    pub fn bit(&mut self, m: u8)
        ensures
            *final(self) == old(self).bit_tested(m),
    {
        proof {
            lemma_sign_bit(m, 0);
        }
        self.set_flag(Flags::ZE, self.a & m == 0);
        self.set_flag(Flags::OV, m & 0x70 != 0);
        self.set_flag(Flags::NG, m & 0x80 != 0);
    }

    /// `CMP`, `CPX`, `CPY`: compares a register with the operand.
    pub fn compare(&mut self, register: u8, m: u8)
        ensures
            *final(self) == old(self).compared(register, m),
    {
        let result: u8 = register.wrapping_sub(m);
        proof {
            lemma_sign_bit(result, 0);
        }
        self.set_flag(Flags::CA, register >= m);
        self.set_flag(Flags::ZE, register == m);
        self.set_flag(Flags::NG, (result & 0x80) != 0);
    }

    /// `ASL` and `LSR` on the accumulator: shifts it left if `left`, else
    /// right.
    pub fn shift_a(&mut self, left: bool)
        ensures
            *final(self) == old(self).a_shifted(left),
    {
        proof {
            lemma_shift_by_one(self.a);
            lemma_sign_bit(self.a, 0);
        }
        if left {
            self.set_flag(Flags::CA, (self.a & 0x80) != 0);
            self.a = self.a << 1;
        } else {
            self.set_flag(Flags::CA, (self.a & 0x01) != 0);
            self.a = self.a >> 1;
        }
        self.set_zn(self.a);
    }

    /// `ROL` and `ROR` on the accumulator: rotates it left if `left`, else
    /// right.
    pub fn rotate_a(&mut self, left: bool)
        ensures
            *final(self) == old(self).a_rotated(left),
    {
        proof {
            lemma_shift_by_one(self.a);
            lemma_sign_bit(self.a, 0);
        }
        let carry: bool = self.get_flag(Flags::CA) != 0;
        if left {
            let low: u8 = if carry {
                1
            } else {
                0
            };
            self.set_flag(Flags::CA, (self.a & 0x80) != 0);
            self.a = (self.a << 1) + low;
        } else {
            let high: u8 = if carry {
                0x80
            } else {
                0
            };
            self.set_flag(Flags::CA, (self.a & 0x01) != 0);
            self.a = (self.a >> 1) + high;
        }
        self.set_zn(self.a);
    }

    /// `ASL` and `LSR` on memory: shifts `m` left if `left`, else right, and
    /// returns the byte to store.
    pub fn shift(&mut self, m: u8, left: bool) -> (stored: u8)
        ensures
            (*final(self), stored) == old(self).shifted(m, left),
    {
        proof {
            lemma_shift_by_one(m);
            lemma_sign_bit(m, 0);
        }
        let result: u8 = if left {
            self.set_flag(Flags::CA, (m & 0x80) != 0);
            m << 1
        } else {
            self.set_flag(Flags::CA, (m & 0x01) != 0);
            m >> 1
        };
        self.set_zn(result);
        result
    }

    /// `ROL` and `ROR` on memory: rotates `m` left if `left`, else right, and
    /// returns the byte to store.
    pub fn rotate(&mut self, m: u8, left: bool) -> (stored: u8)
        ensures
            (*final(self), stored) == old(self).rotated(m, left),
    {
        proof {
            lemma_shift_by_one(m);
            lemma_sign_bit(m, 0);
        }
        let carry: bool = self.get_flag(Flags::CA) != 0;
        let result: u8 = if left {
            let low: u8 = if carry {
                1
            } else {
                0
            };
            self.set_flag(Flags::CA, (m & 0x80) != 0);
            (m << 1) + low
        } else {
            let high: u8 = if carry {
                0x80
            } else {
                0
            };
            self.set_flag(Flags::CA, (m & 0x01) != 0);
            (m >> 1) + high
        };
        self.set_zn(result);
        result
    }

    /// `INC` and `DEC`: steps `m` up if `up`, else down, and returns the byte
    /// to store.
    pub fn step(&mut self, m: u8, up: bool) -> (stored: u8)
        ensures
            (*final(self), stored) == old(self).stepped(m, up),
    {
        let result: u8 = if up {
            m.wrapping_add(1)
        } else {
            m.wrapping_sub(1)
        };
        self.set_zn(result);
        result
    }

    /// `SLO`: shifts `m` left, ORs it into the accumulator, and returns the
    /// byte to store.
    pub fn shift_left_or(&mut self, m: u8) -> (stored: u8)
        ensures
            (*final(self), stored) == old(self).slo(m),
    {
        proof {
            lemma_shift_by_one(m);
            lemma_sign_bit(m, 0);
        }
        self.set_flag(Flags::CA, (m & 0x80) != 0);
        let result: u8 = m << 1;
        self.load_a(self.a | result);
        result
    }

    /// `SRE`: shifts `m` right, exclusive-ORs it into the accumulator, and
    /// returns the byte to store.
    pub fn shift_right_eor(&mut self, m: u8) -> (stored: u8)
        ensures
            (*final(self), stored) == old(self).sre(m),
    {
        proof {
            lemma_shift_by_one(m);
        }
        self.set_flag(Flags::CA, (m & 0x01) != 0);
        let result: u8 = m >> 1;
        self.load_a(self.a ^ result);
        result
    }

    /// `RLA`: rotates `m` left, ANDs it into the accumulator, and returns the
    /// byte to store.
    pub fn rotate_left_and(&mut self, m: u8) -> (stored: u8)
        ensures
            (*final(self), stored) == old(self).rla(m),
    {
        proof {
            lemma_shift_by_one(m);
            lemma_sign_bit(m, 0);
        }
        let low: u8 = self.get_flag(Flags::CA);
        self.set_flag(Flags::CA, (m & 0x80) != 0);
        let result: u8 = (m << 1) + low;
        self.load_a(self.a & result);
        result
    }

    /// `RRA`: rotates `m` right, adds it to the accumulator, and returns the
    /// byte to store.
    pub fn rotate_right_add(&mut self, m: u8) -> (stored: u8)
        ensures
            (*final(self), stored) == old(self).rra(m),
    {
        proof {
            lemma_shift_by_one(m);
        }
        let high: u8 = if self.get_flag(Flags::CA) != 0 {
            0x80
        } else {
            0
        };
        self.set_flag(Flags::CA, (m & 0x01) != 0);
        let result: u8 = (m >> 1) + high;
        self.add_with_carry(result);
        result
    }

    /// `DCP`: decrements `m`, compares it with the accumulator, and returns
    /// the byte to store.
    pub fn decrement_compare(&mut self, m: u8) -> (stored: u8)
        ensures
            (*final(self), stored) == old(self).dcp(m),
    {
        let stored: u8 = m.wrapping_sub(1);
        let result: u8 = self.a.wrapping_sub(stored);
        proof {
            lemma_sign_bit(result, 0);
        }
        self.set_flag(Flags::CA, self.a >= result);
        self.set_flag(Flags::ZE, result == 0);
        self.set_flag(Flags::NG, (result & 0x80) != 0);
        stored
    }

    /// `ISB`: increments `m`, subtracts it from the accumulator, and returns
    /// the byte to store.
    pub fn increment_subtract(&mut self, m: u8) -> (stored: u8)
        ensures
            (*final(self), stored) == old(self).isb(m),
    {
        let stored: u8 = m.wrapping_add(1);
        self.subtract_with_carry(stored);
        stored
    }
}

/// The operations that read their operand and change registers only.
pub open spec fn reads_operand(op: Op) -> bool {
    matches!(
        op,
        Op::AAC | Op::ADC | Op::AND | Op::ARR | Op::ASR | Op::AXS | Op::BIT | Op::CMP | Op::CPX
            | Op::CPY | Op::EOR | Op::LAX | Op::LDA | Op::LDX | Op::LDY | Op::ORA | Op::SBC
    )
}

/// The shifts and rotates, which work on memory or on the accumulator.
pub open spec fn shifts(op: Op) -> bool {
    matches!(op, Op::ASL | Op::LSR | Op::ROL | Op::ROR)
}

/// The operations that read their operand, change it and store it back.
pub open spec fn modifies_operand(op: Op) -> bool {
    shifts(op) || matches!(
        op,
        Op::INC | Op::DEC | Op::SLO | Op::SRE | Op::RLA | Op::RRA | Op::DCP | Op::ISB
    )
}

/// The operations that store a register.
pub open spec fn stores(op: Op) -> bool {
    matches!(op, Op::STA | Op::STX | Op::STY | Op::SAX)
}

/// The conditional branches.
pub open spec fn branches(op: Op) -> bool {
    matches!(
        op,
        Op::BCC | Op::BCS | Op::BNE | Op::BEQ | Op::BPL | Op::BMI | Op::BVC | Op::BVS
    )
}

/// The operations that touch registers only and have no operand.
pub open spec fn is_implied(op: Op) -> bool {
    matches!(
        op,
        Op::CLC | Op::CLD | Op::CLI | Op::CLV | Op::SEC | Op::SED | Op::SEI | Op::DEX | Op::DEY
            | Op::INX | Op::INY | Op::TAX | Op::TAY | Op::TSX | Op::TXA | Op::TYA | Op::TXS
    )
}

impl Cpu {
    /// The registers after an operation of [`reads_operand`] read `m`.
    pub open spec fn read_effect(self, op: Op, m: u8) -> Cpu
        recommends
            reads_operand(op),
    {
        match op {
            Op::AAC => self.and_carried(m),
            Op::ADC => self.added(m),
            Op::AND => self.anded(m),
            Op::ARR => self.and_rotated(m),
            Op::ASR => self.and_halved(m),
            Op::AXS => self.ax_subtracted(m),
            Op::BIT => self.bit_tested(m),
            Op::CMP => self.compared(self.a, m),
            Op::CPX => self.compared(self.x, m),
            Op::CPY => self.compared(self.y, m),
            Op::EOR => self.xored(m),
            Op::LAX => self.with_ax(m),
            Op::LDA => self.with_a(m),
            Op::LDX => self.with_x(m),
            Op::LDY => self.with_y(m),
            Op::ORA => self.ored(m),
            Op::SBC => self.subtracted(m),
            _ => self,
        }
    }

    /// The registers after an operation of [`modifies_operand`] read `m`,
    /// and the byte that it stores back.
    pub open spec fn modify_effect(self, op: Op, m: u8) -> (Cpu, u8)
        recommends
            modifies_operand(op),
    {
        match op {
            Op::ASL => self.shifted(m, true),
            Op::LSR => self.shifted(m, false),
            Op::ROL => self.rotated(m, true),
            Op::ROR => self.rotated(m, false),
            Op::INC => self.stepped(m, true),
            Op::DEC => self.stepped(m, false),
            Op::SLO => self.slo(m),
            Op::SRE => self.sre(m),
            Op::RLA => self.rla(m),
            Op::RRA => self.rra(m),
            Op::DCP => self.dcp(m),
            Op::ISB => self.isb(m),
            _ => (self, m),
        }
    }

    /// The registers after a shift or rotate of the accumulator.
    pub open spec fn accumulator_effect(self, op: Op) -> Cpu
        recommends
            shifts(op),
    {
        match op {
            Op::ASL => self.a_shifted(true),
            Op::LSR => self.a_shifted(false),
            Op::ROL => self.a_rotated(true),
            Op::ROR => self.a_rotated(false),
            _ => self,
        }
    }

    /// The byte that an operation of [`stores`] writes.
    pub open spec fn stored_value(self, op: Op) -> u8
        recommends
            stores(op),
    {
        match op {
            Op::STA => self.a,
            Op::STX => self.x,
            Op::STY => self.y,
            Op::SAX => self.a & self.x,
            _ => 0,
        }
    }

    /// Whether a conditional branch is taken.
    pub open spec fn branch_condition(self, op: Op) -> bool
        recommends
            branches(op),
    {
        match op {
            Op::BCC => !self.flag(Flags::CA),
            Op::BCS => self.flag(Flags::CA),
            Op::BNE => !self.flag(Flags::ZE),
            Op::BEQ => self.flag(Flags::ZE),
            Op::BPL => !self.flag(Flags::NG),
            Op::BMI => self.flag(Flags::NG),
            Op::BVC => !self.flag(Flags::OV),
            Op::BVS => self.flag(Flags::OV),
            _ => false,
        }
    }

    /// The registers after an operation of [`is_implied`].
    pub open spec fn implied_effect(self, op: Op) -> Cpu
        recommends
            is_implied(op),
    {
        match op {
            Op::CLC => self.with_flag(Flags::CA, false),
            Op::CLD => self.with_flag(Flags::DC, false),
            Op::CLI => self.with_flag(Flags::ID, false),
            Op::CLV => self.with_flag(Flags::OV, false),
            Op::SEC => self.with_flag(Flags::CA, true),
            Op::SED => self.with_flag(Flags::DC, true),
            Op::SEI => self.with_flag(Flags::ID, true),
            Op::DEX => self.with_x(low_byte(self.x - 1)),
            Op::DEY => self.with_y(low_byte(self.y - 1)),
            Op::INX => self.with_x(low_byte(self.x + 1)),
            Op::INY => self.with_y(low_byte(self.y + 1)),
            Op::TAX => self.with_x(self.a),
            Op::TAY => self.with_y(self.a),
            Op::TSX => self.with_x(self.stp),
            Op::TXA => self.with_a(self.x),
            Op::TYA => self.with_a(self.y),
            Op::TXS => Cpu { stp: self.x, ..self },
            _ => self,
        }
    }

    /// Applies an operation that reads its operand, which was `m`.
    pub fn apply_read(&mut self, op: Op, m: u8)
        requires
            reads_operand(op),
        ensures
            *final(self) == old(self).read_effect(op, m),
    {
        match op {
            Op::AAC => self.aac(m),
            Op::ADC => self.add_with_carry(m),
            Op::AND => self.and(m),
            Op::ARR => self.arr(m),
            Op::ASR => self.asr(m),
            Op::AXS => self.axs(m),
            Op::BIT => self.bit(m),
            Op::CMP => self.compare(self.a, m),
            Op::CPX => self.compare(self.x, m),
            Op::CPY => self.compare(self.y, m),
            Op::EOR => self.eor(m),
            Op::LAX => self.load_ax(m),
            Op::LDA => self.load_a(m),
            Op::LDX => self.load_x(m),
            Op::LDY => self.load_y(m),
            Op::ORA => self.ora(m),
            Op::SBC => self.subtract_with_carry(m),
            _ => {
                assert(false);
            },
        }
    }

    /// Applies an operation that modifies its operand, which was `m`, and
    /// returns the byte to store back.
    pub fn apply_modify(&mut self, op: Op, m: u8) -> (stored: u8)
        requires
            modifies_operand(op),
        ensures
            (*final(self), stored) == old(self).modify_effect(op, m),
    {
        match op {
            Op::ASL => self.shift(m, true),
            Op::LSR => self.shift(m, false),
            Op::ROL => self.rotate(m, true),
            Op::ROR => self.rotate(m, false),
            Op::INC => self.step(m, true),
            Op::DEC => self.step(m, false),
            Op::SLO => self.shift_left_or(m),
            Op::SRE => self.shift_right_eor(m),
            Op::RLA => self.rotate_left_and(m),
            Op::RRA => self.rotate_right_add(m),
            Op::DCP => self.decrement_compare(m),
            Op::ISB => self.increment_subtract(m),
            _ => {
                assert(false);
                m
            },
        }
    }

    /// Applies a shift or rotate to the accumulator.
    pub fn apply_accumulator(&mut self, op: Op)
        requires
            shifts(op),
        ensures
            *final(self) == old(self).accumulator_effect(op),
    {
        match op {
            Op::ASL => self.shift_a(true),
            Op::LSR => self.shift_a(false),
            Op::ROL => self.rotate_a(true),
            Op::ROR => self.rotate_a(false),
            _ => {
                assert(false);
            },
        }
    }

    /// The byte that a store writes.
    pub fn value_to_store(&self, op: Op) -> (value: u8)
        requires
            stores(op),
        ensures
            value == self.stored_value(op),
    {
        match op {
            Op::STA => self.a,
            Op::STX => self.x,
            Op::STY => self.y,
            Op::SAX => self.a & self.x,
            _ => {
                assert(false);
                0
            },
        }
    }

    /// Whether a conditional branch is taken.
    pub fn takes_branch(&self, op: Op) -> (taken: bool)
        requires
            branches(op),
        ensures
            taken == self.branch_condition(op),
    {
        match op {
            Op::BCC => self.get_flag(Flags::CA) == 0,
            Op::BCS => self.get_flag(Flags::CA) != 0,
            Op::BNE => self.get_flag(Flags::ZE) == 0,
            Op::BEQ => self.get_flag(Flags::ZE) != 0,
            Op::BPL => self.get_flag(Flags::NG) == 0,
            Op::BMI => self.get_flag(Flags::NG) != 0,
            Op::BVC => self.get_flag(Flags::OV) == 0,
            Op::BVS => self.get_flag(Flags::OV) != 0,
            _ => {
                assert(false);
                false
            },
        }
    }

    /// Applies an operation that has no operand.
    pub fn apply_implied(&mut self, op: Op)
        requires
            is_implied(op),
        ensures
            *final(self) == old(self).implied_effect(op),
    {
        match op {
            Op::CLC => self.set_flag(Flags::CA, false),
            Op::CLD => self.set_flag(Flags::DC, false),
            Op::CLI => self.set_flag(Flags::ID, false),
            Op::CLV => self.set_flag(Flags::OV, false),
            Op::SEC => self.set_flag(Flags::CA, true),
            Op::SED => self.set_flag(Flags::DC, true),
            Op::SEI => self.set_flag(Flags::ID, true),
            Op::DEX => self.load_x(self.x.wrapping_sub(1)),
            Op::DEY => self.load_y(self.y.wrapping_sub(1)),
            Op::INX => self.load_x(self.x.wrapping_add(1)),
            Op::INY => self.load_y(self.y.wrapping_add(1)),
            Op::TAX => self.load_x(self.a),
            Op::TAY => self.load_y(self.a),
            Op::TSX => self.load_x(self.stp),
            Op::TXA => self.load_a(self.x),
            Op::TYA => self.load_a(self.y),
            Op::TXS => {
                self.stp = self.x;
            },
            _ => {
                assert(false);
            },
        }
    }
}

/// No operation on the registers touches the cycle counters or the pending
/// interrupt request.
pub proof fn lemma_effects_keep_counters(cpu: Cpu, op: Op, m: u8)
    ensures
        cpu.read_effect(op, m).same_counters(cpu),
        cpu.modify_effect(op, m).0.same_counters(cpu),
        cpu.accumulator_effect(op).same_counters(cpu),
        cpu.implied_effect(op).same_counters(cpu),
{
}

/// The registers differ in the accumulator and the status register only.
pub open spec fn same_but_a_and_status(before: Cpu, after: Cpu) -> bool {
    after == (Cpu { a: after.a, stat: after.stat, ..before })
}

/// The flags of `ADC` over the integers. The accumulator takes the low
/// byte of the sum of accumulator, operand and carry. Carry reports that
/// the sum does not fit a byte, zero that its low byte is zero, negative
/// that its low byte is 128 or more, and overflow that the sum of the
/// operands read as signed numbers does not fit a signed byte. No other
/// flag and no other register changes.
pub proof fn lemma_adc_flags(cpu: Cpu, m: u8)
    ensures
        cpu.added(m).a == (cpu.a + m + cpu.carry_in()) % 256,
        cpu.added(m).flag(Flags::CA) == (cpu.a + m + cpu.carry_in() > 255),
        cpu.added(m).flag(Flags::ZE) == ((cpu.a + m + cpu.carry_in()) % 256 == 0),
        cpu.added(m).flag(Flags::NG) == ((cpu.a + m + cpu.carry_in()) % 256 >= 128),
        cpu.added(m).flag(Flags::OV) == !(-128 <= signed(cpu.a) + signed(m) + cpu.carry_in()
            <= 127),
        cpu.added(m).flag(Flags::ID) == cpu.flag(Flags::ID),
        cpu.added(m).flag(Flags::DC) == cpu.flag(Flags::DC),
        cpu.added(m).flag(Flags::B1) == cpu.flag(Flags::B1),
        cpu.added(m).flag(Flags::B2) == cpu.flag(Flags::B2),
        same_but_a_and_status(cpu, cpu.added(m)),
{
    let sum: int = cpu.a + m + cpu.carry_in();
    let result: u8 = low_byte(sum);
    let overflow: bool = ((cpu.a >= 0x80) == (m >= 0x80)) && ((result >= 0x80) != (cpu.a >= 0x80));
    lemma_arithmetic_flags(cpu, result, overflow, sum > 0xFF);
}

/// The flags of `SBC` over the integers. The accumulator takes the low
/// byte of accumulator minus operand minus borrow, where borrow is 1 with
/// carry clear. Carry reports that the difference is not negative, zero
/// that its low byte is zero, negative that its low byte is 128 or more,
/// and overflow that the difference of the operands read as signed numbers
/// does not fit a signed byte. No other flag and no other register changes.
pub proof fn lemma_sbc_flags(cpu: Cpu, m: u8)
    ensures
        cpu.subtracted(m).a == (cpu.a - m - (1 - cpu.carry_in())) % 256,
        cpu.subtracted(m).flag(Flags::CA) == (cpu.a - m - (1 - cpu.carry_in()) >= 0),
        cpu.subtracted(m).flag(Flags::ZE) == ((cpu.a - m - (1 - cpu.carry_in())) % 256 == 0),
        cpu.subtracted(m).flag(Flags::NG) == ((cpu.a - m - (1 - cpu.carry_in())) % 256 >= 128),
        cpu.subtracted(m).flag(Flags::OV) == !(-128 <= signed(cpu.a) - signed(m) - (1
            - cpu.carry_in()) <= 127),
        cpu.subtracted(m).flag(Flags::ID) == cpu.flag(Flags::ID),
        cpu.subtracted(m).flag(Flags::DC) == cpu.flag(Flags::DC),
        cpu.subtracted(m).flag(Flags::B1) == cpu.flag(Flags::B1),
        cpu.subtracted(m).flag(Flags::B2) == cpu.flag(Flags::B2),
        same_but_a_and_status(cpu, cpu.subtracted(m)),
{
    let difference: int = cpu.a - m - (1 - cpu.carry_in());
    let result: u8 = low_byte(difference);
    let overflow: bool = ((cpu.a >= 0x80) != (m >= 0x80)) && ((result >= 0x80) != (cpu.a
        >= 0x80));
    lemma_arithmetic_flags(cpu, result, overflow, difference >= 0);
}

/// What the four flag updates that end `ADC` and `SBC` leave in a flag.
proof fn lemma_arithmetic_flag(cpu: Cpu, result: u8, overflow: bool, carry: bool, read: Flags)
    ensures
        (Cpu { a: result, ..cpu.with_flag(Flags::OV, overflow) }).with_flag(
            Flags::CA,
            carry,
        ).with_zn(result).flag(read) == match read {
            Flags::OV => overflow,
            Flags::CA => carry,
            Flags::ZE => result == 0,
            Flags::NG => result >= 0x80,
            _ => cpu.flag(read),
        },
{
    let first = cpu.with_flag(Flags::OV, overflow);
    let second = (Cpu { a: result, ..first }).with_flag(Flags::CA, carry);
    let third = second.with_flag(Flags::ZE, result == 0);
    lemma_flag_after_set(cpu, Flags::OV, overflow, read);
    lemma_flag_after_set(Cpu { a: result, ..first }, Flags::CA, carry, read);
    lemma_flag_after_set(second, Flags::ZE, result == 0, read);
    lemma_flag_after_set(third, Flags::NG, result >= 0x80, read);
}

/// What the four flag updates that end `ADC` and `SBC` leave in the flags.
proof fn lemma_arithmetic_flags(cpu: Cpu, result: u8, overflow: bool, carry: bool)
    ensures
        ({
            let after = (Cpu { a: result, ..cpu.with_flag(Flags::OV, overflow) }).with_flag(
                Flags::CA,
                carry,
            ).with_zn(result);
            &&& after.flag(Flags::CA) == carry
            &&& after.flag(Flags::ZE) == (result == 0)
            &&& after.flag(Flags::NG) == (result >= 0x80)
            &&& after.flag(Flags::OV) == overflow
            &&& after.flag(Flags::ID) == cpu.flag(Flags::ID)
            &&& after.flag(Flags::DC) == cpu.flag(Flags::DC)
            &&& after.flag(Flags::B1) == cpu.flag(Flags::B1)
            &&& after.flag(Flags::B2) == cpu.flag(Flags::B2)
        }),
{
    lemma_arithmetic_flag(cpu, result, overflow, carry, Flags::CA);
    lemma_arithmetic_flag(cpu, result, overflow, carry, Flags::ZE);
    lemma_arithmetic_flag(cpu, result, overflow, carry, Flags::ID);
    lemma_arithmetic_flag(cpu, result, overflow, carry, Flags::DC);
    lemma_arithmetic_flag(cpu, result, overflow, carry, Flags::B1);
    lemma_arithmetic_flag(cpu, result, overflow, carry, Flags::B2);
    lemma_arithmetic_flag(cpu, result, overflow, carry, Flags::OV);
    lemma_arithmetic_flag(cpu, result, overflow, carry, Flags::NG);
}

} // verus!
