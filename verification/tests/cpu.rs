use nes_emulator::bus::Bus;
use nes_emulator::cartridge::{Cart, NesHeader};
use nes_emulator::cpu::{Cpu, Flags};
use nes_emulator::input::Input;
use nes_emulator::opcodes::{
    addressing_mode, base_cycles, operation, page_sensitive, AddrM, Op,
};
use nes_emulator::ram::Ram;

const NMI_HANDLER: u16 = 0x9000;
const RESET_HANDLER: u16 = 0x8123;
const IRQ_HANDLER: u16 = 0xA000;

fn bus() -> Bus {
    let mut prg = vec![0xEAu8; 16384];
    prg[0x3FFA] = (NMI_HANDLER & 0xFF) as u8;
    prg[0x3FFB] = (NMI_HANDLER >> 8) as u8;
    prg[0x3FFC] = (RESET_HANDLER & 0xFF) as u8;
    prg[0x3FFD] = (RESET_HANDLER >> 8) as u8;
    prg[0x3FFE] = (IRQ_HANDLER & 0xFF) as u8;
    prg[0x3FFF] = (IRQ_HANDLER >> 8) as u8;
    let cart = Cart { header: NesHeader { data: [0; 16] }, chr: vec![0; 8192], prg, trainer: None };
    Bus::new(Ram::new(false), cart, Input::new())
}

fn put(bus: &mut Bus, at: u16, bytes: &[u8]) {
    for (i, byte) in bytes.iter().enumerate() {
        bus.write(at + i as u16, *byte);
    }
}

/// Runs the instruction at `at` and returns the ticks it occupies.
fn run(cpu: &mut Cpu, bus: &mut Bus, at: u16, bytes: &[u8]) -> u32 {
    put(bus, at, bytes);
    cpu.pc = at;
    cpu.cycl = 100;
    cpu.next = 100;
    let tick = cpu.clock(bus);
    assert!(!tick.jammed);
    assert!(tick.trace.is_none());
    assert_eq!(cpu.cycl, 101);
    cpu.next - 100
}

fn flag(cpu: &Cpu, flag: Flags) -> bool {
    cpu.get_flag(flag) == 1
}

#[test]
fn power_on_registers() {
    let cpu = Cpu::new();
    assert_eq!((cpu.a, cpu.x, cpu.y), (0, 0, 0));
    assert_eq!(cpu.pc, 0x8000);
    assert_eq!(cpu.stp, 0xFD);
    assert_eq!(cpu.stat, 0x24);
    assert_eq!((cpu.cycl, cpu.next), (0, 0));
    assert!(!cpu.irq_signal);
}

#[test]
fn flags_are_bits_of_the_status_byte() {
    let mut cpu = Cpu::new();
    cpu.stat = 0;
    let all = [
        (Flags::CA, 0x01u8),
        (Flags::ZE, 0x02),
        (Flags::ID, 0x04),
        (Flags::DC, 0x08),
        (Flags::B1, 0x10),
        (Flags::B2, 0x20),
        (Flags::OV, 0x40),
        (Flags::NG, 0x80),
    ];
    for (flag, bit) in all {
        assert_eq!(flag.bit(), bit);
        assert_eq!(cpu.get_flag(flag), 0);
        cpu.set_flag(flag, true);
        assert_eq!(cpu.stat, bit);
        assert_eq!(cpu.get_flag(flag), 1);
        cpu.stat = 0xFF;
        cpu.set_flag(flag, false);
        assert_eq!(cpu.stat, !bit);
        assert_eq!(cpu.get_flag(flag), 0);
        cpu.stat = 0;
    }
    cpu.set_zn(0);
    assert_eq!(cpu.stat, 0x02);
    cpu.set_zn(0x80);
    assert_eq!(cpu.stat, 0x80);
    cpu.set_zn(0x7F);
    assert_eq!(cpu.stat, 0x00);
}

#[test]
fn adc_of_two_positives_that_overflow() {
    let mut bus = bus();
    let mut cpu = Cpu::new();
    cpu.a = 0x50;
    let ticks = run(&mut cpu, &mut bus, 0x0200, &[0x69, 0x50]);
    assert_eq!(ticks, 2);
    assert_eq!(cpu.a, 0xA0);
    assert!(flag(&cpu, Flags::OV));
    assert!(flag(&cpu, Flags::NG));
    assert!(!flag(&cpu, Flags::CA));
    assert!(!flag(&cpu, Flags::ZE));
    assert_eq!(cpu.stat, 0xE4);
    assert_eq!(cpu.pc, 0x0202);
}

#[test]
fn adc_matches_the_truth_table_for_every_input() {
    for a in 0..=255u8 {
        for m in 0..=255u8 {
            for carry in 0..=1u8 {
                let mut cpu = Cpu::new();
                cpu.a = a;
                cpu.stat = 0x24 | carry;
                cpu.add_with_carry(m);
                let sum = a as u16 + m as u16 + carry as u16;
                let signed = (a as i8) as i16 + (m as i8) as i16 + carry as i16;
                let result = (sum & 0xFF) as u8;
                let mut stat = 0x24u8;
                if sum > 0xFF {
                    stat |= 0x01;
                }
                if result == 0 {
                    stat |= 0x02;
                }
                if !(-128..=127).contains(&signed) {
                    stat |= 0x40;
                }
                if result >= 0x80 {
                    stat |= 0x80;
                }
                assert_eq!((cpu.a, cpu.stat), (result, stat), "{a:02X}+{m:02X}+{carry}");
            }
        }
    }
}

#[test]
fn sbc_matches_the_truth_table_for_every_input() {
    for a in 0..=255u8 {
        for m in 0..=255u8 {
            for carry in 0..=1u8 {
                let mut cpu = Cpu::new();
                cpu.a = a;
                cpu.stat = 0x24 | carry;
                cpu.subtract_with_carry(m);
                let difference = a as i16 - m as i16 - (1 - carry as i16);
                let signed = (a as i8) as i16 - (m as i8) as i16 - (1 - carry as i16);
                let result = (difference & 0xFF) as u8;
                let mut stat = 0x24u8;
                if difference >= 0 {
                    stat |= 0x01;
                }
                if result == 0 {
                    stat |= 0x02;
                }
                if !(-128..=127).contains(&signed) {
                    stat |= 0x40;
                }
                if result >= 0x80 {
                    stat |= 0x80;
                }
                assert_eq!((cpu.a, cpu.stat), (result, stat), "{a:02X}-{m:02X}-{carry}");
            }
        }
    }
}

#[test]
fn sbc_through_both_opcodes() {
    let mut bus = bus();
    let mut cpu = Cpu::new();
    cpu.a = 0x50;
    cpu.stat = 0x25;
    assert_eq!(run(&mut cpu, &mut bus, 0x0200, &[0xE9, 0xF0]), 2);
    assert_eq!(cpu.a, 0x60);
    assert_eq!(cpu.stat, 0x24);
    cpu.a = 0x50;
    cpu.stat = 0x24;
    assert_eq!(run(&mut cpu, &mut bus, 0x0200, &[0xEB, 0x10]), 2);
    assert_eq!(cpu.a, 0x3F);
    assert_eq!(cpu.stat, 0x25);
}

#[test]
fn beq_costs_two_three_or_four_ticks() {
    let mut bus = bus();
    let mut cpu = Cpu::new();
    cpu.stat = 0x24;
    assert_eq!(run(&mut cpu, &mut bus, 0x0200, &[0xF0, 0x10]), 2);
    assert_eq!(cpu.pc, 0x0202);
    cpu.stat = 0x26;
    assert_eq!(run(&mut cpu, &mut bus, 0x0200, &[0xF0, 0x10]), 3);
    assert_eq!(cpu.pc, 0x0212);
    assert_eq!(run(&mut cpu, &mut bus, 0x02F0, &[0xF0, 0x20]), 4);
    assert_eq!(cpu.pc, 0x0312);
    assert_eq!(run(&mut cpu, &mut bus, 0x0200, &[0xF0, 0xFC]), 4);
    assert_eq!(cpu.pc, 0x01FE);
    assert_eq!(run(&mut cpu, &mut bus, 0x0210, &[0xF0, 0xFC]), 3);
    assert_eq!(cpu.pc, 0x020E);
    assert_eq!(run(&mut cpu, &mut bus, 0x0280, &[0xF0, 0x80]), 3);
    assert_eq!(cpu.pc, 0x0202);
    assert_eq!(run(&mut cpu, &mut bus, 0x0280, &[0xF0, 0x7F]), 4);
    assert_eq!(cpu.pc, 0x0301);
    assert_eq!(cpu.stat, 0x26);
}

#[test]
fn each_branch_looks_at_its_flag() {
    let cases = [
        (0x10u8, 0x80u8, false),
        (0x30, 0x80, true),
        (0x50, 0x40, false),
        (0x70, 0x40, true),
        (0x90, 0x01, false),
        (0xB0, 0x01, true),
        (0xD0, 0x02, false),
        (0xF0, 0x02, true),
    ];
    for (opcode, bit, when_set) in cases {
        let mut bus = bus();
        let mut cpu = Cpu::new();
        cpu.stat = bit;
        let ticks = run(&mut cpu, &mut bus, 0x0200, &[opcode, 0x05]);
        assert_eq!(ticks, if when_set { 3 } else { 2 }, "{opcode:02X}");
        assert_eq!(cpu.pc, if when_set { 0x0207 } else { 0x0202 });
        cpu.stat = !bit;
        let ticks = run(&mut cpu, &mut bus, 0x0200, &[opcode, 0x05]);
        assert_eq!(ticks, if when_set { 2 } else { 3 }, "{opcode:02X}");
        assert_eq!(cpu.pc, if when_set { 0x0202 } else { 0x0207 });
    }
}

#[test]
fn branch_wraps_around_the_address_space() {
    let mut bus = bus();
    let mut cpu = Cpu::new();
    cpu.stat = 0x02;
    cpu.pc = 0x0001;
    assert_eq!(cpu.branch(&mut bus, 0x0300), 1);
    assert_eq!(cpu.pc, 0x0000);
    cpu.pc = 0x0000;
    assert_eq!(cpu.branch(&mut bus, 0x0300), 2);
    assert_eq!(cpu.pc, 0xFFFF);
    bus.write(0x0300, 0x80);
    cpu.pc = 0x0010;
    assert_eq!(cpu.branch(&mut bus, 0x0300), 2);
    assert_eq!(cpu.pc, 0xFF90);
    bus.write(0x0300, 0x7F);
    cpu.pc = 0xFFF0;
    assert_eq!(cpu.branch(&mut bus, 0x0300), 2);
    assert_eq!(cpu.pc, 0x006F);
}

#[test]
fn indexed_indirect_wraps_in_page_zero() {
    let mut bus = bus();
    let mut cpu = Cpu::new();
    bus.write(0x0001, 0x34);
    bus.write(0x0002, 0x12);
    bus.write(0x0101, 0x78);
    bus.write(0x0102, 0x56);
    bus.write(0x1234, 0x77);
    bus.write(0x5678 % 0x800, 0x66);
    cpu.x = 2;
    put(&mut bus, 0x0400, &[0xA1, 0xFF]);
    cpu.pc = 0x0401;
    assert_eq!(cpu.set_address_mode(&mut bus, 0xA1), (0x1234, 0));
    assert_eq!(cpu.pc, 0x0402);
    assert_eq!(run(&mut cpu, &mut bus, 0x0400, &[0xA1, 0xFF]), 6);
    assert_eq!(cpu.a, 0x77);
    bus.write(0x00FF, 0x40);
    bus.write(0x0000, 0x03);
    bus.write(0x0100, 0x07);
    bus.write(0x0340, 0x55);
    assert_eq!(run(&mut cpu, &mut bus, 0x0400, &[0xA1, 0xFD]), 6);
    assert_eq!(cpu.a, 0x55);
}

#[test]
fn indirect_indexed_adds_y_and_pays_for_the_carry() {
    let mut bus = bus();
    let mut cpu = Cpu::new();
    bus.write(0x0010, 0xF0);
    bus.write(0x0011, 0x02);
    bus.write(0x0310, 0x44);
    bus.write(0x02F5, 0x33);
    cpu.y = 0x20;
    assert_eq!(run(&mut cpu, &mut bus, 0x0400, &[0xB1, 0x10]), 6);
    assert_eq!(cpu.a, 0x44);
    cpu.y = 0x05;
    assert_eq!(run(&mut cpu, &mut bus, 0x0400, &[0xB1, 0x10]), 5);
    assert_eq!(cpu.a, 0x33);
    cpu.y = 0x20;
    cpu.a = 0x99;
    assert_eq!(run(&mut cpu, &mut bus, 0x0400, &[0x91, 0x10]), 6);
    assert_eq!(bus.read(0x0310, false), 0x99);
    bus.write(0x00FF, 0x00);
    bus.write(0x0000, 0x03);
    bus.write(0x0100, 0x07);
    bus.write(0x0320, 0x11);
    assert_eq!(run(&mut cpu, &mut bus, 0x0400, &[0xB1, 0xFF]), 5);
    assert_eq!(cpu.a, 0x11);
}

#[test]
fn indirect_jump_reads_its_high_byte_from_the_same_page() {
    let mut bus = bus();
    let mut cpu = Cpu::new();
    bus.write(0x02FF, 0x34);
    bus.write(0x0200, 0x12);
    bus.write(0x0300, 0x56);
    assert_eq!(run(&mut cpu, &mut bus, 0x0400, &[0x6C, 0xFF, 0x02]), 5);
    assert_eq!(cpu.pc, 0x1234);
    bus.write(0x0250, 0x78);
    bus.write(0x0251, 0x06);
    assert_eq!(run(&mut cpu, &mut bus, 0x0400, &[0x6C, 0x50, 0x02]), 5);
    assert_eq!(cpu.pc, 0x0678);
    assert_eq!(run(&mut cpu, &mut bus, 0x0400, &[0x4C, 0x50, 0x02]), 3);
    assert_eq!(cpu.pc, 0x0250);
}

#[test]
fn loads_pay_for_a_page_crossing_and_stores_do_not() {
    let mut bus = bus();
    let mut cpu = Cpu::new();
    bus.write(0x0310, 0x42);
    bus.write(0x02F5, 0x43);
    cpu.x = 0x20;
    assert_eq!(run(&mut cpu, &mut bus, 0x0400, &[0xBD, 0xF0, 0x02]), 5);
    assert_eq!(cpu.a, 0x42);
    cpu.x = 0x05;
    assert_eq!(run(&mut cpu, &mut bus, 0x0400, &[0xBD, 0xF0, 0x02]), 4);
    assert_eq!(cpu.a, 0x43);
    cpu.y = 0x20;
    assert_eq!(run(&mut cpu, &mut bus, 0x0400, &[0xB9, 0xF0, 0x02]), 5);
    assert_eq!(cpu.a, 0x42);
    assert_eq!(run(&mut cpu, &mut bus, 0x0400, &[0xBE, 0xF0, 0x02]), 5);
    assert_eq!(cpu.x, 0x42);
    cpu.x = 0x20;
    cpu.a = 0x10;
    assert_eq!(run(&mut cpu, &mut bus, 0x0400, &[0x9D, 0xF0, 0x02]), 5);
    assert_eq!(bus.read(0x0310, false), 0x10);
    assert_eq!(run(&mut cpu, &mut bus, 0x0400, &[0x99, 0xF0, 0x02]), 5);
    assert_eq!(run(&mut cpu, &mut bus, 0x0400, &[0xFE, 0xF0, 0x02]), 7);
    assert_eq!(bus.read(0x0310, false), 0x11);
    assert!(page_sensitive(0xBD));
    assert!(page_sensitive(0xB1));
    assert!(!page_sensitive(0x9D));
    assert!(!page_sensitive(0x91));
    assert!(!page_sensitive(0xBF));
    assert!(page_sensitive(0x1C));
}

#[test]
fn zero_page_indexing_stays_in_page_zero() {
    let mut bus = bus();
    let mut cpu = Cpu::new();
    bus.write(0x000F, 0x21);
    bus.write(0x010F, 0x22);
    cpu.x = 0x10;
    cpu.y = 0x11;
    assert_eq!(run(&mut cpu, &mut bus, 0x0400, &[0xB5, 0xFF]), 4);
    assert_eq!(cpu.a, 0x21);
    assert_eq!(run(&mut cpu, &mut bus, 0x0400, &[0xB6, 0xFE]), 4);
    assert_eq!(cpu.x, 0x21);
    assert_eq!(run(&mut cpu, &mut bus, 0x0400, &[0xA5, 0x0F]), 3);
    assert_eq!(cpu.a, 0x21);
}

#[test]
fn addressing_without_operand_leaves_everything() {
    let mut bus = bus();
    let mut cpu = Cpu::new();
    cpu.pc = 0x0400;
    assert_eq!(cpu.set_address_mode(&mut bus, 0xEA), (0, 0));
    assert_eq!(cpu.set_address_mode(&mut bus, 0x0A), (0, 0));
    assert_eq!(cpu.set_address_mode(&mut bus, 0x02), (0, 0));
    assert_eq!(cpu.pc, 0x0400);
    assert_eq!(cpu.set_address_mode(&mut bus, 0xA9), (0x0400, 0));
    assert_eq!(cpu.pc, 0x0401);
    assert_eq!(cpu.set_address_mode(&mut bus, 0xF0), (0x0401, 0));
    assert_eq!(cpu.pc, 0x0402);
    cpu.pc = 0xFFFF;
    assert_eq!(cpu.set_address_mode(&mut bus, 0xA9), (0xFFFF, 0));
    assert_eq!(cpu.pc, 0x0000);
}

#[test]
fn stack_grows_down_and_wraps() {
    let mut bus = bus();
    let mut cpu = Cpu::new();
    cpu.a = 0x5A;
    assert_eq!(run(&mut cpu, &mut bus, 0x0400, &[0x48]), 3);
    assert_eq!(cpu.stp, 0xFC);
    assert_eq!(bus.read(0x01FD, false), 0x5A);
    cpu.a = 0;
    assert_eq!(run(&mut cpu, &mut bus, 0x0400, &[0x68]), 4);
    assert_eq!(cpu.a, 0x5A);
    assert_eq!(cpu.stp, 0xFD);
    cpu.stp = 0x00;
    cpu.push(&mut bus, 0x12);
    assert_eq!(cpu.stp, 0xFF);
    assert_eq!(bus.read(0x0100, false), 0x12);
    bus.write(0x0100, 0x80);
    assert_eq!(run(&mut cpu, &mut bus, 0x0400, &[0x68]), 4);
    assert_eq!(cpu.a, 0x80);
    assert_eq!(cpu.stp, 0x00);
    assert!(flag(&cpu, Flags::NG));
    assert_eq!(cpu.pull(&mut bus), bus.read(0x0101, false));
    assert_eq!(cpu.stp, 0x01);
}

#[test]
fn subroutine_call_and_return() {
    let mut bus = bus();
    let mut cpu = Cpu::new();
    assert_eq!(run(&mut cpu, &mut bus, 0x0400, &[0x20, 0x00, 0x05]), 6);
    assert_eq!(cpu.pc, 0x0500);
    assert_eq!(cpu.stp, 0xFB);
    assert_eq!(bus.read(0x01FD, false), 0x04);
    assert_eq!(bus.read(0x01FC, false), 0x02);
    assert_eq!(run(&mut cpu, &mut bus, 0x0500, &[0x60]), 6);
    assert_eq!(cpu.pc, 0x0403);
    assert_eq!(cpu.stp, 0xFD);
}

#[test]
fn status_pushes_and_pulls() {
    let mut bus = bus();
    let mut cpu = Cpu::new();
    cpu.stat = 0xC3;
    assert_eq!(run(&mut cpu, &mut bus, 0x0400, &[0x08]), 3);
    assert_eq!(bus.read(0x01FD, false), 0xF3);
    assert_eq!(cpu.stat, 0xC3);
    bus.write(0x01FD, 0xDF);
    assert_eq!(run(&mut cpu, &mut bus, 0x0400, &[0x28]), 4);
    assert_eq!(cpu.stat, 0xEF);
    cpu.stp = 0xFC;
    bus.write(0x01FD, 0x00);
    assert_eq!(run(&mut cpu, &mut bus, 0x0400, &[0x28]), 4);
    assert_eq!(cpu.stat, 0x20);
}

#[test]
fn return_from_interrupt() {
    let mut bus = bus();
    let mut cpu = Cpu::new();
    cpu.stp = 0xFA;
    bus.write(0x01FB, 0xD3);
    bus.write(0x01FC, 0x34);
    bus.write(0x01FD, 0x12);
    assert_eq!(run(&mut cpu, &mut bus, 0x0400, &[0x40]), 6);
    assert_eq!(cpu.stat, 0xE3);
    assert_eq!(cpu.pc, 0x1234);
    assert_eq!(cpu.stp, 0xFD);
}

#[test]
fn brk_pushes_with_the_break_flag() {
    let mut bus = bus();
    let mut cpu = Cpu::new();
    cpu.stat = 0x41;
    assert_eq!(run(&mut cpu, &mut bus, 0x0400, &[0x00]), 7);
    assert_eq!(bus.read(0x01FD, false), 0x04);
    assert_eq!(bus.read(0x01FC, false), 0x01);
    assert_eq!(bus.read(0x01FB, false), 0x71);
    assert_eq!(cpu.stp, 0xFA);
    assert_eq!(cpu.stat, 0x45);
    assert_eq!(cpu.pc, 0xFFFE);
}

#[test]
fn interrupt_request_is_served_in_seven_ticks() {
    let mut bus = bus();
    let mut cpu = Cpu::new();
    cpu.stat = 0x30;
    cpu.pc = 0x1234;
    cpu.cycl = 50;
    cpu.next = 50;
    cpu.irq();
    assert!(cpu.irq_signal);
    let tick = cpu.clock(&mut bus);
    assert!(tick.trace.is_none());
    assert!(!tick.jammed);
    assert!(!cpu.irq_signal);
    assert_eq!(cpu.pc, IRQ_HANDLER);
    assert_eq!(cpu.next, 57);
    assert_eq!(cpu.cycl, 51);
    assert_eq!(cpu.stp, 0xFA);
    assert_eq!(bus.read(0x01FD, false), 0x12);
    assert_eq!(bus.read(0x01FC, false), 0x34);
    assert_eq!(bus.read(0x01FB, false), 0x20);
    assert_eq!(cpu.stat, 0x34);
}

#[test]
fn interrupt_request_waits_while_disabled() {
    let mut bus = bus();
    let mut cpu = Cpu::new();
    cpu.irq();
    cpu.stat = 0x24;
    assert_eq!(run(&mut cpu, &mut bus, 0x0400, &[0xEA]), 2);
    assert!(cpu.irq_signal);
    assert_eq!(cpu.pc, 0x0401);
    assert_eq!(run(&mut cpu, &mut bus, 0x0401, &[0x58]), 2);
    cpu.cycl = cpu.next;
    cpu.clock(&mut bus);
    assert_eq!(cpu.pc, IRQ_HANDLER);
    assert!(!cpu.irq_signal);
}

#[test]
fn non_maskable_interrupt_is_served_in_eight_ticks() {
    let mut bus = bus();
    let mut cpu = Cpu::new();
    cpu.stat = 0x24;
    cpu.pc = 0x0456;
    cpu.cycl = 9;
    cpu.next = 9;
    bus.nmi_signal = true;
    cpu.clock(&mut bus);
    assert!(!bus.nmi_signal);
    assert_eq!(cpu.pc, NMI_HANDLER);
    assert_eq!(cpu.next, 17);
    assert_eq!(cpu.cycl, 10);
    assert_eq!(bus.read(0x01FD, false), 0x04);
    assert_eq!(bus.read(0x01FC, false), 0x56);
    assert_eq!(bus.read(0x01FB, false), 0x24);
    assert_eq!(cpu.stat, 0x24);
}

#[test]
fn interrupt_request_goes_before_non_maskable_interrupt() {
    let mut bus = bus();
    let mut cpu = Cpu::new();
    cpu.stat = 0x20;
    cpu.pc = 0x0456;
    bus.nmi_signal = true;
    cpu.irq();
    cpu.clock(&mut bus);
    assert_eq!(cpu.pc, IRQ_HANDLER);
    assert!(bus.nmi_signal);
    assert_eq!(cpu.next, 7);
    cpu.cycl = cpu.next;
    cpu.clock(&mut bus);
    assert_eq!(cpu.pc, NMI_HANDLER);
    assert!(!bus.nmi_signal);
    assert_eq!(cpu.next, 15);
}

#[test]
fn nothing_happens_while_the_cpu_is_busy() {
    let mut bus = bus();
    let mut cpu = Cpu::new();
    cpu.pc = 0x0400;
    cpu.cycl = 3;
    cpu.next = 5;
    bus.nmi_signal = true;
    cpu.irq();
    let before = cpu;
    cpu.clock(&mut bus);
    assert_eq!(cpu, Cpu { cycl: 4, ..before });
    assert!(bus.nmi_signal);
}

#[test]
fn reset_loads_the_vector() {
    let mut bus = bus();
    let mut cpu = Cpu::new();
    cpu.stat = 0x20;
    cpu.cycl = 77;
    cpu.next = 99;
    cpu.reset(&mut bus);
    assert_eq!(cpu.pc, RESET_HANDLER);
    assert_eq!(cpu.stp, 0xFA);
    assert_eq!(cpu.stat, 0x24);
    assert_eq!(cpu.cycl, 0);
    assert_eq!(cpu.next, 8);
    cpu.stp = 0x01;
    cpu.reset(&mut bus);
    assert_eq!(cpu.stp, 0xFE);
}

#[test]
fn sprite_dma_stalls_the_cpu_for_513_ticks() {
    let mut bus = bus();
    let mut cpu = Cpu::new();
    cpu.a = 0x02;
    put(&mut bus, 0x0400, &[0x8D, 0x14, 0x40, 0xEA]);
    cpu.pc = 0x0400;
    cpu.cycl = 9;
    cpu.next = 9;
    cpu.clock(&mut bus);
    assert!(bus.oam_dma_cpu);
    assert_eq!(cpu.next, 13);
    assert_eq!(cpu.cycl, 10);
    cpu.clock(&mut bus);
    assert!(!bus.oam_dma_cpu);
    assert!(bus.oam_dma_ppu);
    assert_eq!(cpu.next, 13 + 513);
    assert_eq!(cpu.cycl, 11);
    cpu.clock(&mut bus);
    assert_eq!(cpu.next, 13 + 513);
    let mut ticks = 0;
    while cpu.pc == 0x0403 {
        cpu.clock(&mut bus);
        ticks += 1;
    }
    assert_eq!(ticks, 13 + 513 - 12 + 1);
    assert_eq!(cpu.pc, 0x0404);
}

#[test]
fn sprite_dma_stalls_one_tick_more_on_an_odd_tick() {
    let mut bus = bus();
    let mut cpu = Cpu::new();
    cpu.cycl = 11;
    cpu.next = 20;
    bus.oam_dma_cpu = true;
    cpu.clock(&mut bus);
    assert_eq!(cpu.next, 20 + 514);
    assert!(!bus.oam_dma_cpu);
    cpu.cycl = 12;
    cpu.next = 20;
    bus.oam_dma_cpu = true;
    cpu.clock(&mut bus);
    assert_eq!(cpu.next, 20 + 513);
    cpu.cycl = 12;
    cpu.next = u32::MAX - 100;
    bus.oam_dma_cpu = true;
    cpu.clock(&mut bus);
    assert_eq!(cpu.next, u32::MAX);
}

#[test]
fn lock_up_opcodes_are_reported_and_passed_over() {
    for opcode in [0x02u8, 0x12, 0x22, 0x32, 0x42, 0x52, 0x62, 0x72, 0x92, 0xB2, 0xD2, 0xF2] {
        let mut bus = bus();
        let mut cpu = Cpu::new();
        put(&mut bus, 0x0400, &[opcode, 0xEA]);
        cpu.pc = 0x0400;
        let before = cpu;
        let tick = cpu.clock(&mut bus);
        assert!(tick.jammed);
        let ticks = if opcode == 0x92 { 2 } else { 1 };
        assert_eq!(cpu, Cpu { pc: 0x0401, cycl: 1, next: ticks, ..before });
        assert!(matches!(operation(opcode), Op::KIL));
    }
}

#[test]
fn opcodes_that_are_no_instruction_do_nothing() {
    for (opcode, ticks) in [
        (0x8Bu8, 1u32),
        (0x93, 1),
        (0x9B, 1),
        (0x9C, 4),
        (0x9E, 4),
        (0x9F, 1),
        (0xAB, 1),
        (0xBB, 1),
    ] {
        let mut bus = bus();
        let mut cpu = Cpu::new();
        put(&mut bus, 0x0400, &[opcode, 0x10, 0x02]);
        cpu.pc = 0x0400;
        let before = cpu;
        let tick = cpu.clock(&mut bus);
        assert!(!tick.jammed);
        assert_eq!(cpu, Cpu { pc: 0x0401, cycl: 1, next: ticks, ..before });
        assert!(matches!(operation(opcode), Op::NUL));
        assert!(matches!(addressing_mode(opcode), AddrM::NUL));
        assert_eq!(base_cycles(opcode), if ticks == 1 { 0 } else { 4 });
    }
}

#[test]
fn counters_fold_down_by_60000() {
    let mut bus = bus();
    let mut cpu = Cpu::new();
    put(&mut bus, 0x0400, &[0xEA, 0xEA]);
    cpu.pc = 0x0400;
    cpu.cycl = 60000;
    cpu.next = 60000;
    cpu.clock(&mut bus);
    assert_eq!((cpu.cycl, cpu.next), (60001, 60002));
    cpu.clock(&mut bus);
    assert_eq!((cpu.cycl, cpu.next), (2, 2));
    assert_eq!(cpu.pc, 0x0401);
    cpu.clock(&mut bus);
    assert_eq!((cpu.cycl, cpu.next), (3, 4));
    assert_eq!(cpu.pc, 0x0402);
    cpu.cycl = 60001;
    cpu.next = 60001;
    cpu.pc = 0x0400;
    cpu.clock(&mut bus);
    assert_eq!((cpu.cycl, cpu.next), (2, 3));
    assert_eq!(cpu.pc, 0x0401);
}

#[test]
fn loads_transfers_and_flags() {
    let mut bus = bus();
    let mut cpu = Cpu::new();
    assert_eq!(run(&mut cpu, &mut bus, 0x0400, &[0xA9, 0x00]), 2);
    assert_eq!((cpu.a, cpu.stat), (0x00, 0x26));
    assert_eq!(run(&mut cpu, &mut bus, 0x0400, &[0xA2, 0x80]), 2);
    assert_eq!((cpu.x, cpu.stat), (0x80, 0xA4));
    assert_eq!(run(&mut cpu, &mut bus, 0x0400, &[0xA0, 0x7F]), 2);
    assert_eq!((cpu.y, cpu.stat), (0x7F, 0x24));
    assert_eq!(run(&mut cpu, &mut bus, 0x0400, &[0x8A]), 2);
    assert_eq!((cpu.a, cpu.stat), (0x80, 0xA4));
    assert_eq!(run(&mut cpu, &mut bus, 0x0400, &[0xA8]), 2);
    assert_eq!(cpu.y, 0x80);
    cpu.a = 0x01;
    assert_eq!(run(&mut cpu, &mut bus, 0x0400, &[0xAA]), 2);
    assert_eq!((cpu.x, cpu.stat), (0x01, 0x24));
    cpu.y = 0;
    assert_eq!(run(&mut cpu, &mut bus, 0x0400, &[0x98]), 2);
    assert_eq!((cpu.a, cpu.stat), (0x00, 0x26));
    cpu.x = 0xF0;
    assert_eq!(run(&mut cpu, &mut bus, 0x0400, &[0x9A]), 2);
    assert_eq!((cpu.stp, cpu.stat), (0xF0, 0x26));
    cpu.stp = 0x00;
    assert_eq!(run(&mut cpu, &mut bus, 0x0400, &[0xBA]), 2);
    assert_eq!((cpu.x, cpu.stat), (0x00, 0x26));
    cpu.stat = 0xFF;
    for (opcode, stat) in [(0x18u8, 0xFEu8), (0xD8, 0xF6), (0x58, 0xF2), (0xB8, 0xB2)] {
        assert_eq!(run(&mut cpu, &mut bus, 0x0400, &[opcode]), 2);
        assert_eq!(cpu.stat, stat);
    }
    for (opcode, stat) in [(0x38u8, 0xB3u8), (0xF8, 0xBB), (0x78, 0xBF)] {
        assert_eq!(run(&mut cpu, &mut bus, 0x0400, &[opcode]), 2);
        assert_eq!(cpu.stat, stat);
    }
}

#[test]
fn increments_and_decrements() {
    let mut bus = bus();
    let mut cpu = Cpu::new();
    cpu.x = 0xFF;
    assert_eq!(run(&mut cpu, &mut bus, 0x0400, &[0xE8]), 2);
    assert_eq!((cpu.x, cpu.stat), (0x00, 0x26));
    assert_eq!(run(&mut cpu, &mut bus, 0x0400, &[0xCA]), 2);
    assert_eq!((cpu.x, cpu.stat), (0xFF, 0xA4));
    cpu.y = 0x7F;
    assert_eq!(run(&mut cpu, &mut bus, 0x0400, &[0xC8]), 2);
    assert_eq!((cpu.y, cpu.stat), (0x80, 0xA4));
    assert_eq!(run(&mut cpu, &mut bus, 0x0400, &[0x88]), 2);
    assert_eq!((cpu.y, cpu.stat), (0x7F, 0x24));
    bus.write(0x0010, 0xFF);
    assert_eq!(run(&mut cpu, &mut bus, 0x0400, &[0xE6, 0x10]), 5);
    assert_eq!((bus.read(0x0010, false), cpu.stat), (0x00, 0x26));
    assert_eq!(run(&mut cpu, &mut bus, 0x0400, &[0xC6, 0x10]), 5);
    assert_eq!((bus.read(0x0010, false), cpu.stat), (0xFF, 0xA4));
    assert_eq!(run(&mut cpu, &mut bus, 0x0400, &[0xEE, 0x10, 0x00]), 6);
    assert_eq!(bus.read(0x0010, false), 0x00);
}

#[test]
fn logic() {
    let mut bus = bus();
    let mut cpu = Cpu::new();
    cpu.a = 0b1100_1010;
    assert_eq!(run(&mut cpu, &mut bus, 0x0400, &[0x29, 0b1010_0110]), 2);
    assert_eq!((cpu.a, cpu.stat), (0b1000_0010, 0xA4));
    assert_eq!(run(&mut cpu, &mut bus, 0x0400, &[0x09, 0b0101_0001]), 2);
    assert_eq!((cpu.a, cpu.stat), (0b1101_0011, 0xA4));
    assert_eq!(run(&mut cpu, &mut bus, 0x0400, &[0x49, 0b1101_0011]), 2);
    assert_eq!((cpu.a, cpu.stat), (0x00, 0x26));
}

#[test]
fn compares() {
    let mut bus = bus();
    let mut cpu = Cpu::new();
    cpu.a = 0x40;
    assert_eq!(run(&mut cpu, &mut bus, 0x0400, &[0xC9, 0x41]), 2);
    assert_eq!(cpu.stat, 0xA4);
    assert_eq!(run(&mut cpu, &mut bus, 0x0400, &[0xC9, 0x40]), 2);
    assert_eq!(cpu.stat, 0x27);
    assert_eq!(run(&mut cpu, &mut bus, 0x0400, &[0xC9, 0x3F]), 2);
    assert_eq!(cpu.stat, 0x25);
    cpu.x = 0x00;
    assert_eq!(run(&mut cpu, &mut bus, 0x0400, &[0xE0, 0x80]), 2);
    assert_eq!(cpu.stat, 0xA4);
    cpu.y = 0xFF;
    assert_eq!(run(&mut cpu, &mut bus, 0x0400, &[0xC0, 0x01]), 2);
    assert_eq!(cpu.stat, 0xA5);
    assert_eq!(cpu.a, 0x40);
}

#[test]
fn bit_test() {
    let mut bus = bus();
    let mut cpu = Cpu::new();
    cpu.a = 0x0F;
    bus.write(0x0010, 0xF0);
    assert_eq!(run(&mut cpu, &mut bus, 0x0400, &[0x24, 0x10]), 3);
    assert_eq!(cpu.stat, 0xE6);
    bus.write(0x0010, 0x0F);
    assert_eq!(run(&mut cpu, &mut bus, 0x0400, &[0x2C, 0x10, 0x00]), 4);
    assert_eq!(cpu.stat, 0x24);
    bus.write(0x0010, 0x10);
    cpu.a = 0x10;
    assert_eq!(run(&mut cpu, &mut bus, 0x0400, &[0x24, 0x10]), 3);
    assert_eq!(cpu.stat, 0x64);
    assert_eq!(cpu.a, 0x10);
}

#[test]
fn shifts_and_rotates_of_the_accumulator() {
    let mut bus = bus();
    let mut cpu = Cpu::new();
    cpu.a = 0x81;
    assert_eq!(run(&mut cpu, &mut bus, 0x0400, &[0x0A]), 2);
    assert_eq!((cpu.a, cpu.stat), (0x02, 0x25));
    cpu.a = 0x01;
    assert_eq!(run(&mut cpu, &mut bus, 0x0400, &[0x4A]), 2);
    assert_eq!((cpu.a, cpu.stat), (0x00, 0x27));
    cpu.a = 0x40;
    assert_eq!(run(&mut cpu, &mut bus, 0x0400, &[0x2A]), 2);
    assert_eq!((cpu.a, cpu.stat), (0x81, 0xA4));
    assert_eq!(run(&mut cpu, &mut bus, 0x0400, &[0x2A]), 2);
    assert_eq!((cpu.a, cpu.stat), (0x02, 0x25));
    assert_eq!(run(&mut cpu, &mut bus, 0x0400, &[0x6A]), 2);
    assert_eq!((cpu.a, cpu.stat), (0x81, 0xA4));
    assert_eq!(run(&mut cpu, &mut bus, 0x0400, &[0x6A]), 2);
    assert_eq!((cpu.a, cpu.stat), (0x40, 0x25));
}

#[test]
fn shifts_and_rotates_of_memory() {
    let mut bus = bus();
    let mut cpu = Cpu::new();
    cpu.a = 0x33;
    bus.write(0x0010, 0x81);
    assert_eq!(run(&mut cpu, &mut bus, 0x0400, &[0x06, 0x10]), 5);
    assert_eq!((bus.read(0x0010, false), cpu.stat), (0x02, 0x25));
    assert_eq!(run(&mut cpu, &mut bus, 0x0400, &[0x46, 0x10]), 5);
    assert_eq!((bus.read(0x0010, false), cpu.stat), (0x01, 0x24));
    assert_eq!(run(&mut cpu, &mut bus, 0x0400, &[0x46, 0x10]), 5);
    assert_eq!((bus.read(0x0010, false), cpu.stat), (0x00, 0x27));
    bus.write(0x0010, 0x40);
    assert_eq!(run(&mut cpu, &mut bus, 0x0400, &[0x26, 0x10]), 5);
    assert_eq!((bus.read(0x0010, false), cpu.stat), (0x81, 0xA4));
    assert_eq!(run(&mut cpu, &mut bus, 0x0400, &[0x66, 0x10]), 5);
    assert_eq!((bus.read(0x0010, false), cpu.stat), (0x40, 0x25));
    assert_eq!(cpu.a, 0x33);
}

#[test]
fn rotates_of_memory_take_zero_from_the_stored_byte() {
    let mut bus = bus();
    let mut cpu = Cpu::new();
    cpu.a = 0x00;
    bus.write(0x0010, 0x40);
    assert_eq!(run(&mut cpu, &mut bus, 0x0400, &[0x26, 0x10]), 5);
    assert_eq!((bus.read(0x0010, false), cpu.stat), (0x80, 0xA4));
    cpu.a = 0x01;
    bus.write(0x0010, 0x80);
    cpu.stat = 0x24;
    assert_eq!(run(&mut cpu, &mut bus, 0x0400, &[0x2E, 0x10, 0x00]), 6);
    assert_eq!((bus.read(0x0010, false), cpu.stat), (0x00, 0x27));
    cpu.a = 0x55;
    bus.write(0x0010, 0x00);
    cpu.stat = 0x24;
    assert_eq!(run(&mut cpu, &mut bus, 0x0400, &[0x66, 0x10]), 5);
    assert_eq!((bus.read(0x0010, false), cpu.stat), (0x00, 0x26));
    cpu.a = 0x00;
    bus.write(0x0010, 0x01);
    cpu.stat = 0x25;
    assert_eq!(run(&mut cpu, &mut bus, 0x0400, &[0x7E, 0x10, 0x00]), 7);
    assert_eq!((bus.read(0x0010, false), cpu.stat), (0x80, 0xA5));
    for opcode in [0x26u8, 0x36, 0x2E, 0x3E, 0x66, 0x76, 0x6E, 0x7E] {
        cpu.a = 0x99;
        cpu.x = 0;
        bus.write(0x0010, 0x00);
        cpu.stat = 0x24;
        run(&mut cpu, &mut bus, 0x0400, &[opcode, 0x10, 0x00]);
        assert_eq!((bus.read(0x0010, false), cpu.stat, cpu.a), (0x00, 0x26, 0x99), "{opcode:02X}");
    }
}

#[test]
fn stores() {
    let mut bus = bus();
    let mut cpu = Cpu::new();
    cpu.a = 0xF5;
    cpu.x = 0x3C;
    cpu.y = 0x77;
    assert_eq!(run(&mut cpu, &mut bus, 0x0400, &[0x85, 0x10]), 3);
    assert_eq!(bus.read(0x0010, false), 0xF5);
    assert_eq!(run(&mut cpu, &mut bus, 0x0400, &[0x86, 0x11]), 3);
    assert_eq!(bus.read(0x0011, false), 0x3C);
    assert_eq!(run(&mut cpu, &mut bus, 0x0400, &[0x8C, 0x12, 0x00]), 4);
    assert_eq!(bus.read(0x0012, false), 0x77);
    assert_eq!(run(&mut cpu, &mut bus, 0x0400, &[0x87, 0x13]), 3);
    assert_eq!(bus.read(0x0013, false), 0x34);
    assert_eq!(cpu.stat, 0x24);
}

#[test]
fn undocumented_loads_and_logic() {
    let mut bus = bus();
    let mut cpu = Cpu::new();
    bus.write(0x0010, 0x9A);
    assert_eq!(run(&mut cpu, &mut bus, 0x0400, &[0xA7, 0x10]), 3);
    assert_eq!((cpu.a, cpu.x, cpu.stat), (0x9A, 0x9A, 0xA4));
    cpu.a = 0xF0;
    assert_eq!(run(&mut cpu, &mut bus, 0x0400, &[0x0B, 0x81]), 2);
    assert_eq!((cpu.a, cpu.stat), (0x80, 0xA5));
    cpu.a = 0x0F;
    assert_eq!(run(&mut cpu, &mut bus, 0x0400, &[0x2B, 0x03]), 2);
    assert_eq!((cpu.a, cpu.stat), (0x03, 0x24));
    cpu.a = 0xFF;
    cpu.stat = 0x25;
    assert_eq!(run(&mut cpu, &mut bus, 0x0400, &[0x4B, 0x07]), 2);
    assert_eq!((cpu.a, cpu.stat), (0x03, 0x25));
    cpu.a = 0xFF;
    cpu.stat = 0x25;
    assert_eq!(run(&mut cpu, &mut bus, 0x0400, &[0x6B, 0xC0]), 2);
    assert_eq!((cpu.a, cpu.stat), (0xE0, 0xA5));
    cpu.a = 0xFF;
    cpu.stat = 0x24;
    assert_eq!(run(&mut cpu, &mut bus, 0x0400, &[0x6B, 0x40]), 2);
    assert_eq!((cpu.a, cpu.stat), (0x20, 0x64));
    cpu.a = 0x3C;
    cpu.x = 0x0F;
    cpu.stat = 0x24;
    assert_eq!(run(&mut cpu, &mut bus, 0x0400, &[0xCB, 0x0D]), 2);
    assert_eq!((cpu.a, cpu.x, cpu.stat), (0x3C, 0xFF, 0xA4));
    cpu.x = 0x0F;
    assert_eq!(run(&mut cpu, &mut bus, 0x0400, &[0xCB, 0x0C]), 2);
    assert_eq!((cpu.x, cpu.stat), (0x00, 0x27));
}

#[test]
fn undocumented_read_modify_write() {
    let mut bus = bus();
    let mut cpu = Cpu::new();
    cpu.a = 0x20;
    bus.write(0x0010, 0x10);
    assert_eq!(run(&mut cpu, &mut bus, 0x0400, &[0xC7, 0x10]), 5);
    assert_eq!((bus.read(0x0010, false), cpu.a, cpu.stat), (0x0F, 0x20, 0x25));
    cpu.stat = 0x25;
    assert_eq!(run(&mut cpu, &mut bus, 0x0400, &[0xE7, 0x10]), 5);
    assert_eq!((bus.read(0x0010, false), cpu.a, cpu.stat), (0x10, 0x10, 0x25));
    cpu.a = 0x01;
    bus.write(0x0010, 0xC0);
    cpu.stat = 0x24;
    assert_eq!(run(&mut cpu, &mut bus, 0x0400, &[0x07, 0x10]), 5);
    assert_eq!((bus.read(0x0010, false), cpu.a, cpu.stat), (0x80, 0x81, 0xA5));
    cpu.a = 0xFF;
    bus.write(0x0010, 0x03);
    cpu.stat = 0x24;
    assert_eq!(run(&mut cpu, &mut bus, 0x0400, &[0x47, 0x10]), 5);
    assert_eq!((bus.read(0x0010, false), cpu.a, cpu.stat), (0x01, 0xFE, 0xA5));
    cpu.a = 0x0F;
    bus.write(0x0010, 0x82);
    cpu.stat = 0x25;
    assert_eq!(run(&mut cpu, &mut bus, 0x0400, &[0x27, 0x10]), 5);
    assert_eq!((bus.read(0x0010, false), cpu.a, cpu.stat), (0x05, 0x05, 0x25));
    cpu.a = 0x10;
    bus.write(0x0010, 0x03);
    cpu.stat = 0x24;
    assert_eq!(run(&mut cpu, &mut bus, 0x0400, &[0x67, 0x10]), 5);
    assert_eq!((bus.read(0x0010, false), cpu.a, cpu.stat), (0x01, 0x12, 0x24));
    assert_eq!(run(&mut cpu, &mut bus, 0x0400, &[0xDB, 0x10, 0x00]), 7);
    assert_eq!(run(&mut cpu, &mut bus, 0x0400, &[0x03, 0x10]), 8);
}

#[test]
fn decrement_and_compare_takes_carry_from_the_difference() {
    let mut cpu = Cpu::new();
    cpu.a = 0x10;
    assert_eq!(cpu.decrement_compare(0x21), 0x20);
    assert_eq!(cpu.stat, 0xA4);
    cpu.a = 0x80;
    cpu.stat = 0x24;
    assert_eq!(cpu.decrement_compare(0x01), 0x00);
    assert_eq!(cpu.stat, 0xA5);
    cpu.a = 0x05;
    cpu.stat = 0x24;
    assert_eq!(cpu.decrement_compare(0x06), 0x05);
    assert_eq!(cpu.stat, 0x27);
}

#[test]
fn no_operations_of_every_length() {
    let mut bus = bus();
    let mut cpu = Cpu::new();
    let before = cpu;
    for (bytes, ticks) in [
        (vec![0xEAu8], 2u32),
        (vec![0x1A], 2),
        (vec![0x80, 0x00], 2),
        (vec![0x04, 0x10], 3),
        (vec![0x14, 0x10], 4),
        (vec![0x0C, 0x02, 0x20], 4),
        (vec![0x1C, 0x02, 0x20], 4),
    ] {
        bus.ppu_data.status = 0x80;
        bus.ppu_data.nmi_occurred = true;
        assert_eq!(run(&mut cpu, &mut bus, 0x0400, &bytes), ticks);
        assert_eq!(cpu.pc, 0x0400 + bytes.len() as u16);
        assert_eq!((cpu.a, cpu.x, cpu.y, cpu.stp, cpu.stat), (0, 0, 0, 0xFD, before.stat));
        assert!(bus.ppu_data.nmi_occurred);
    }
    cpu.x = 0xFF;
    assert_eq!(run(&mut cpu, &mut bus, 0x0400, &[0x1C, 0x02, 0x20]), 5);
}

#[test]
fn instructions_read_registers_with_their_side_effects() {
    let mut bus = bus();
    let mut cpu = Cpu::new();
    bus.ppu_data.status = 0x80;
    bus.ppu_data.nmi_occurred = true;
    assert_eq!(run(&mut cpu, &mut bus, 0x0400, &[0xAD, 0x02, 0x20]), 4);
    assert_eq!(cpu.a, 0x80);
    assert!(!bus.ppu_data.nmi_occurred);
    assert_eq!(bus.ppu_data.status, 0x00);
    bus.input.joypad_one = 0x01;
    assert_eq!(run(&mut cpu, &mut bus, 0x0400, &[0xAD, 0x16, 0x40]), 4);
    assert_eq!(cpu.a, 0x01);
    assert_eq!(bus.input.joypad_one, 0x00);
}

#[test]
fn trace_is_written_where_the_bus_asks_for_it() {
    let mut bus = bus();
    let mut cpu = Cpu::new();
    bus.cpu_debug = true;
    put(&mut bus, 0x0400, &[0xA9, 0x05, 0xEA]);
    cpu.pc = 0x0400;
    cpu.cycl = 7;
    cpu.next = 7;
    let tick = cpu.clock(&mut bus);
    assert_eq!(
        tick.trace.unwrap(),
        "0400  A9 05     LDA #$05                        A:00 X:00 Y:00 P:24 SP:FD CYC:7"
    );
    assert_eq!(cpu.a, 5);
    let tick = cpu.clock(&mut bus);
    assert!(tick.trace.is_none());
    let tick = cpu.clock(&mut bus);
    assert_eq!(
        tick.trace.unwrap(),
        "0402  EA        NOP                             A:05 X:00 Y:00 P:24 SP:FD CYC:9"
    );
    bus.nmi_signal = true;
    cpu.cycl = cpu.next;
    let tick = cpu.clock(&mut bus);
    assert!(tick.trace.is_none());
    assert_eq!(cpu.pc, NMI_HANDLER);
}

#[test]
fn tables_cover_the_instruction_set() {
    assert!(matches!(addressing_mode(0x00), AddrM::IMP));
    assert!(matches!(addressing_mode(0x0A), AddrM::ACC));
    assert!(matches!(addressing_mode(0xA9), AddrM::IMD));
    assert!(matches!(addressing_mode(0xA5), AddrM::ZPG));
    assert!(matches!(addressing_mode(0xAD), AddrM::ABS));
    assert!(matches!(addressing_mode(0x20), AddrM::ADR));
    assert!(matches!(addressing_mode(0x4C), AddrM::ADR));
    assert!(matches!(addressing_mode(0xF0), AddrM::REL));
    assert!(matches!(addressing_mode(0x6C), AddrM::IND));
    assert!(matches!(addressing_mode(0xB5), AddrM::ZIX));
    assert!(matches!(addressing_mode(0xB6), AddrM::ZIY));
    assert!(matches!(addressing_mode(0xBD), AddrM::AIX));
    assert!(matches!(addressing_mode(0xB9), AddrM::AIY));
    assert!(matches!(addressing_mode(0xA1), AddrM::IIX));
    assert!(matches!(addressing_mode(0xB1), AddrM::IIY));
    assert!(matches!(addressing_mode(0x02), AddrM::NUL));
    let mut total = 0u32;
    let mut sensitive = 0u32;
    for opcode in 0..=255u8 {
        total += base_cycles(opcode) as u32;
        if page_sensitive(opcode) {
            sensitive += 1;
        }
    }
    assert_eq!(total, 1019);
    assert_eq!(sensitive, 30);
}

#[test]
fn counters_in_step_is_what_the_clock_wants() {
    let mut cpu = Cpu::new();
    assert!(cpu.counters_in_step());
    cpu.cycl = 60001;
    cpu.next = 60001;
    assert!(cpu.counters_in_step());
    cpu.next = 60000;
    assert!(!cpu.counters_in_step());
    cpu.cycl = 60002;
    cpu.next = 70000;
    assert!(!cpu.counters_in_step());
    cpu.cycl = 5;
    cpu.next = u32::MAX;
    assert!(cpu.counters_in_step());
}
