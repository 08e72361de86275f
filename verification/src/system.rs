//! The console as a whole: CPU, PPU and bus on one master clock, the CPU
//! running one tick for every three dots of the PPU.

use crate::bus::Bus;
use crate::cartridge::Cart;
use crate::cpu::{Cpu, Machine, Tick};
use crate::input::Input;
use crate::ppu::{lemma_dot_progress, Ppu, Video};
use crate::ram::Ram;
use vstd::prelude::*;

verus! {

/// Master ticks after which the divider starts over.
pub const MASTER_PERIOD: u16 = 3840;

/// Master ticks for each CPU tick.
pub const CPU_DIVIDE: u16 = 12;

/// Master ticks for each PPU dot.
pub const PPU_DIVIDE: u16 = 4;

/// Master ticks that are enough for any frame to complete.
pub const FRAME_BUDGET: u32 = 357368;

/// The console.
pub struct Nes {
    /// The CPU.
    pub cpu: Cpu,
    /// The PPU.
    pub ppu: Ppu,
    /// The bus, with memory, cartridge and controller on it.
    pub bus: Bus,
    /// The master clock divider, 0-3839.
    pub clock: u16,
}

impl Nes {
    /// The console is fit to run: the CPU's counters are in step.
    pub open spec fn wf(self) -> bool {
        self.cpu.in_step()
    }

    /// The console with a cartridge in it, after power-on and reset.
    pub open spec fn power_on(cart: Cart) -> Nes {
        let started = (Machine {
            cpu: Cpu::fresh(),
            bus: Bus::fresh(Ram::fresh(cart.header.data[6] & 0x01 != 0), cart, Input::fresh()),
        }).reset_spec();
        Nes { cpu: started.cpu, ppu: Ppu::fresh(), bus: started.bus, clock: 0 }
    }

    /// The console after one master tick: the CPU runs on every twelfth
    /// tick, then the PPU on every fourth, and the divider moves on.
    pub open spec fn ticked(self) -> Nes {
        let machine = if self.clock % CPU_DIVIDE == 0 {
            (Machine { cpu: self.cpu, bus: self.bus }).ticked()
        } else {
            Machine { cpu: self.cpu, bus: self.bus }
        };
        let video = if self.clock % PPU_DIVIDE == 0 {
            (Video { ppu: self.ppu, bus: machine.bus }).dot()
        } else {
            Video { ppu: self.ppu, bus: machine.bus }
        };
        Nes {
            cpu: machine.cpu,
            ppu: video.ppu,
            bus: video.bus,
            clock: if self.clock >= MASTER_PERIOD - 1 {
                0
            } else {
                (self.clock + 1) as u16
            },
        }
    }

    /// What the CPU reports of one master tick: its trace line, if it has
    /// one, and whether it met a lock-up.
    pub open spec fn reported(self) -> (Option<Seq<char>>, bool) {
        if self.clock % CPU_DIVIDE == 0 {
            (
                (Machine { cpu: self.cpu, bus: self.bus }).trace_line(),
                (Machine { cpu: self.cpu, bus: self.bus }).jams(),
            )
        } else {
            (None, false)
        }
    }

    /// The console after master ticks until a frame is complete, or until
    /// `budget` ticks have passed.
    pub open spec fn frame_run(self, budget: nat) -> Nes
        decreases budget,
    {
        if self.ppu.render_frame || budget == 0 {
            self
        } else {
            self.ticked().frame_run((budget - 1) as nat)
        }
    }

    /// The master ticks that are enough to complete the frame: the wait for
    /// the next dot, and four ticks for every dot that is left but the
    /// first.
    pub open spec fn ticks_needed(self) -> int {
        (if self.clock % PPU_DIVIDE == 0 {
            0int
        } else {
            4 - self.clock % PPU_DIVIDE
        }) + 4 * self.ppu.dots_left() - 3
    }

    /// The console after a replay: for each byte of `inputs` in turn, the
    /// buttons are set to it, a frame is run, and the frame is taken.
    pub open spec fn replayed(self, inputs: Seq<u8>) -> Nes
        decreases inputs.len(),
    {
        if inputs.len() == 0 {
            self
        } else {
            let before = self.replayed(inputs.drop_last());
            let pressed = Nes {
                bus: Bus { input: Input { snapshot: inputs.last(), ..before.bus.input }, ..before.bus },
                ppu: Ppu { render_frame: false, ..before.ppu },
                ..before
            };
            pressed.frame_run(FRAME_BUDGET as nat)
        }
    }

    /// Puts a cartridge in the console, powers it on and resets the CPU.
    pub fn new(cart: Cart) -> (nes: Nes)
        ensures
            nes == Nes::power_on(cart),
            nes.wf(),
    {
        let ram: Ram = Ram::new(cart.header.mirror());
        let input: Input = Input::new();
        let mut bus: Bus = Bus::new(ram, cart, input);
        let mut cpu: Cpu = Cpu::new();
        let ppu: Ppu = Ppu::new();
        cpu.reset(&mut bus);
        Nes { cpu, ppu, bus, clock: 0 }
    }

    /// Tells whether the console is fit to run.
    pub fn fit_to_run(&self) -> (ok: bool)
        ensures
            ok == self.wf(),
    {
        self.cpu.counters_in_step()
    }

    /// Runs the console for one master tick.
    pub fn tick(&mut self) -> (tick: Tick)
        requires
            old(self).wf(),
        ensures
            *final(self) == old(self).ticked(),
            final(self).wf(),
            tick.jammed == old(self).reported().1,
            tick.trace is Some == old(self).reported().0 is Some,
            tick.trace matches Some(line) ==> Some(line@) == old(self).reported().0,
    {
        let mut tick = Tick { trace: None, jammed: false };
        if self.clock % CPU_DIVIDE == 0 {
            tick = self.cpu.clock(&mut self.bus);
        }
        if self.clock % PPU_DIVIDE == 0 {
            self.ppu.clock(&mut self.bus);
        }
        if self.clock >= MASTER_PERIOD - 1 {
            self.clock = 0;
        } else {
            self.clock += 1;
        }
        tick
    }

    /// Runs the console until the PPU has completed a frame. The driver
    /// shows the frame and takes `render_frame` down before it calls again.
    pub fn run_frame(&mut self)
        requires
            old(self).wf(),
        ensures
            *final(self) == old(self).frame_run(FRAME_BUDGET as nat),
            final(self).wf(),
            final(self).ppu.render_frame,
    {
        proof {
            lemma_frame_completes(*self, FRAME_BUDGET as nat);
        }
        let mut budget: u32 = FRAME_BUDGET;
        while !self.ppu.render_frame && budget > 0
            invariant
                self.wf(),
                self.frame_run(budget as nat) == old(self).frame_run(FRAME_BUDGET as nat),
            decreases budget,
        {
            self.tick();
            budget -= 1;
        }
    }
    /// Replays a recording of the buttons, one byte for each frame: sets
    /// the buttons, runs a frame and takes it, as a driver would.
    pub fn replay(&mut self, inputs: &[u8])
        requires
            old(self).wf(),
        ensures
            *final(self) == old(self).replayed(inputs@),
            final(self).wf(),
    {
        let mut i: usize = 0;
        while i < inputs.len()
            invariant
                i <= inputs@.len(),
                self.wf(),
                *self == old(self).replayed(inputs@.subrange(0, i as int)),
            decreases inputs@.len() - i,
        {
            proof {
                assert(inputs@.subrange(0, i + 1).drop_last() =~= inputs@.subrange(0, i as int));
            }
            self.bus.input.set_snapshot(inputs[i]);
            self.ppu.render_frame = false;
            self.run_frame();
            i += 1;
        }
        proof {
            assert(inputs@.subrange(0, i as int) =~= inputs@);
        }
    }
}

/// One master tick brings the end of the frame closer.
pub proof fn lemma_tick_progress(nes: Nes)
    requires
        !nes.ppu.render_frame,
    ensures
        nes.ticked().ppu.render_frame || (1 <= nes.ticked().ticks_needed() < nes.ticks_needed()),
{
    let machine = if nes.clock % CPU_DIVIDE == 0 {
        (Machine { cpu: nes.cpu, bus: nes.bus }).ticked()
    } else {
        Machine { cpu: nes.cpu, bus: nes.bus }
    };
    if nes.clock % PPU_DIVIDE == 0 {
        lemma_dot_progress(Video { ppu: nes.ppu, bus: machine.bus });
    }
}

/// A frame always completes: from any state, running for as many master
/// ticks as the frame needs ends with a complete frame.
pub proof fn lemma_frame_completes(nes: Nes, budget: nat)
    requires
        budget >= nes.ticks_needed(),
        budget >= 1,
    ensures
        nes.frame_run(budget).ppu.render_frame,
    decreases budget,
{
    if !nes.ppu.render_frame {
        lemma_tick_progress(nes);
        if !nes.ticked().ppu.render_frame {
            lemma_frame_completes(nes.ticked(), (budget - 1) as nat);
        } else {
            assert(nes.ticked().frame_run((budget - 1) as nat) == nes.ticked());
        }
    }
}

/// Frames are determined by what goes in: two consoles in the same state
/// that replay the same recording of the buttons end in the same state,
/// and so show the same frame.
pub proof fn lemma_replay_deterministic(first: Nes, second: Nes, inputs: Seq<u8>)
    requires
        first == second,
    ensures
        first.replayed(inputs) == second.replayed(inputs),
        first.replayed(inputs).ppu.screen == second.replayed(inputs).ppu.screen,
{
}

} // verus!
