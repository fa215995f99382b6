//! The console: a CPU on a bus with a cartridge inserted.
use vstd::prelude::*;
use crate::bus::Bus;
use crate::ppu::Ppu2C02;
use crate::ppu_render::{dot_index, effective_cycle, ends_frame, next_dot};
use crate::cartridge::Cartridge;
use crate::cpu::{Cpu6502, word};
use crate::pad::{PadButton, button_mask};

verus! {

/// The most master clock steps one frame can take: 262 lines of 341 dots.
pub const FRAME_DOTS: u32 = 89342;

/// The keys the console answers to.
#[derive(Clone, Copy, Debug, PartialEq, Eq, Structural)]
pub enum Key {
    /// Controller B.
    Z,
    /// Controller A.
    X,
    Up,
    Down,
    Right,
    Left,
    /// Controller Start.
    Space,
    /// Controller Select.
    C,
    /// Pause or resume.
    P,
    /// Run one instruction.
    N,
    /// Next palette for the pattern-table views.
    T,
    /// RAM view 100 bytes on.
    PageDown,
    /// RAM view 100 bytes back.
    PageUp,
    /// RAM view one byte on.
    NumPadPlus,
    /// RAM view one byte back.
    NumPadMinus,
    /// Any other key.
    Other,
}

/// The controller button a key stands for.
pub open spec fn key_button(key: Key) -> Option<PadButton> {
    match key {
        Key::Z => Some(PadButton::B),
        Key::X => Some(PadButton::A),
        Key::Up => Some(PadButton::Up),
        Key::Down => Some(PadButton::Down),
        Key::Right => Some(PadButton::Right),
        Key::Left => Some(PadButton::Left),
        Key::Space => Some(PadButton::Start),
        Key::C => Some(PadButton::Select),
        _ => None,
    }
}

fn button_of(key: Key) -> (r: Option<PadButton>)
    ensures
        r == key_button(key),
{
    match key {
        Key::Z => Some(PadButton::B),
        Key::X => Some(PadButton::A),
        Key::Up => Some(PadButton::Up),
        Key::Down => Some(PadButton::Down),
        Key::Right => Some(PadButton::Right),
        Key::Left => Some(PadButton::Left),
        Key::Space => Some(PadButton::Start),
        Key::C => Some(PadButton::Select),
        _ => None,
    }
}

/// The RAM view's first address after `key`.
pub open spec fn next_ram_offset(offset: u16, key: Key) -> u16 {
    match key {
        Key::PageDown => if offset < 0xFFFE - 100 {
            (offset + 100) as u16
        } else {
            0xFFFF
        },
        Key::PageUp => if offset > 100 {
            (offset - 100) as u16
        } else {
            0
        },
        Key::NumPadPlus => if offset < 0xFFFE {
            (offset + 1) as u16
        } else {
            offset
        },
        Key::NumPadMinus => if offset > 0 {
            (offset - 1) as u16
        } else {
            offset
        },
        _ => offset,
    }
}

/// `c` with the PPU's frame-complete flag set to `f`.
pub open spec fn with_frame_flag(c: Cpu6502, f: bool) -> Cpu6502 {
    Cpu6502 { bus: Bus { ppu: Ppu2C02 { frame_complete: f, ..c.bus.ppu }, ..c.bus }, ..c }
}

/// `trace` is a run of master clock steps from `start` in which the last step, and only
/// that one, ends the frame.
pub open spec fn frame_run(trace: Seq<Cpu6502>, start: Cpu6502) -> bool {
    &&& trace.len() >= 2
    &&& trace[0] == start
    &&& forall|i: int| 0 <= i < trace.len() - 1 ==> #[trigger] trace[i].clock_step(&trace[i + 1])
    &&& forall|i: int|
        0 <= i < trace.len() - 1 ==> (#[trigger] ends_frame(&trace[i].bus.ppu) <==> i
            == trace.len() - 2)
}

/// `trace` is a run of master clock steps from `start` that reaches an instruction
/// boundary (no cycles left) and then takes three more steps.
pub open spec fn step_run(trace: Seq<Cpu6502>, start: Cpu6502) -> bool {
    &&& trace.len() >= 4
    &&& trace[0] == start
    &&& forall|i: int| 0 <= i < trace.len() - 1 ==> #[trigger] trace[i].clock_step(&trace[i + 1])
    &&& trace[trace.len() - 4].cycles == 0
}

/// A master clock step that does not end the frame moves the PPU at least one dot on.
proof fn lemma_dot_advances(p: &Ppu2C02)
    requires
        p.wf(),
    ensures
        ({
            let (s2, c2) = next_dot(p.scanline, effective_cycle(p));
            &&& !ends_frame(p) ==> dot_index(s2, c2) >= dot_index(p.scanline, p.cycle) + 1
            &&& ends_frame(p) ==> s2 == -1 && c2 == 0
            &&& dot_index(p.scanline, p.cycle) <= 89341
        }),
{
}

/// The most lines the disassembly history keeps.
pub const HISTORY_LEN: usize = 5;

/// The most master clock steps an instruction in progress can still take: 255 cycles
/// left, plus a 514-cycle OAM-DMA transfer, three dots each, plus two dots to the next CPU
/// cycle.
pub const STEP_LIMIT: u32 = 2310;

/// Master clock steps until the next CPU cycle.
pub open spec fn dots_to_cpu_cycle(counter: u32) -> int {
    (3 - counter as int % 3) % 3
}

/// CPU cycles the DMA engine still holds the CPU for.
pub open spec fn dma_work(b: &Bus) -> int {
    if b.dma_transfer {
        crate::bus::dma_cycles_left(
            b.dma_dummy,
            b.dma_addr,
            (b.system_clock_counter as int + dots_to_cpu_cycle(b.system_clock_counter)) % 2 == 1,
        )
    } else {
        0
    }
}

/// An upper bound on the master clock steps until the instruction in progress ends.
pub open spec fn wait_bound(c: &Cpu6502) -> int {
    3 * (c.cycles as int + dma_work(&c.bus)) + dots_to_cpu_cycle(c.bus.system_clock_counter)
}

/// While an instruction is in progress, each master clock step lowers the bound.
proof fn lemma_wait_shrinks(old: Cpu6502, new: Cpu6502)
    requires
        old.cycles > 0,
        old.bus.dma_dummy ==> old.bus.dma_addr == 0,
        new.bus.system_clock_counter == crate::cpu_clock::inc32(old.bus.system_clock_counter),
        old.bus.system_clock_counter % 3 == 0 && !old.bus.dma_transfer ==> new.cycles == old.cycles
            - 1 && !new.bus.dma_transfer,
        old.bus.system_clock_counter % 3 == 0 && old.bus.dma_transfer ==> new.cycles == old.cycles
            && (new.bus.dma_transfer, new.bus.dma_dummy, new.bus.dma_addr)
            == crate::bus::dma_next(
            old.bus.dma_dummy,
            old.bus.dma_addr,
            old.bus.system_clock_counter % 2 == 1,
        ),
        old.bus.system_clock_counter % 3 != 0 ==> new.cycles == old.cycles
            && new.bus.dma_transfer == old.bus.dma_transfer && new.bus.dma_dummy
            == old.bus.dma_dummy && new.bus.dma_addr == old.bus.dma_addr,
    ensures
        0 <= wait_bound(&new) < wait_bound(&old),
{
    crate::bus::lemma_dma_cycle(old.bus.dma_dummy, old.bus.dma_addr, old.bus.system_clock_counter % 2 == 1);
    assert(0xFFFF_FFFFu32 as int % 3 == 0);
}

/// The bound is at most the limit single-stepping allows.
proof fn lemma_wait_bound_max(c: &Cpu6502)
    ensures
        wait_bound(c) <= STEP_LIMIT,
{
}

pub struct Nes {
    pub cpu: Cpu6502,
    /// The last instructions disassembled, oldest first.
    pub history: Vec<String>,
    /// The palette the pattern-table views are drawn with, 0-7.
    pub palette_table: u8,
    /// Emulation runs frame by frame while set.
    pub running: bool,
    /// First address of the RAM view.
    pub ram_offset: u16,
}

impl Nes {
    pub open spec fn wf(&self) -> bool {
        &&& self.cpu.wf()
        &&& self.palette_table < 8
        &&& self.history@.len() <= HISTORY_LEN
    }

    /// A console with `cartridge` inserted, powered but not yet reset.
    pub fn new_with_cartridge(cartridge: Cartridge) -> (r: Nes)
        requires
            cartridge.wf(),
        ensures
            r.wf(),
            r.cpu.bus.prg_rom.prg_memory@ == cartridge.prg_memory@,
            r.cpu.bus.ppu.chr_rom.chr_memory@ == cartridge.chr_memory@,
            !r.running,
            r.history@.len() == 0,
            r.palette_table == 0,
            r.ram_offset == 0,
    {
        let bus = Bus::new(cartridge);
        Nes {
            cpu: Cpu6502::new_with_bus(bus),
            history: Vec::new(),
            palette_table: 0,
            running: false,
            ram_offset: 0,
        }
    }

    /// Resets the CPU so that it starts at the cartridge's reset vector, and records the
    /// first instruction in the history.
    pub fn start(&mut self)
        requires
            old(self).wf(),
        ensures
            final(self).wf(),
            final(self).cpu.pc == word(
                old(self).cpu.bus.peek(0xFFFC),
                old(self).cpu.bus.peek(0xFFFD),
            ),
            final(self).cpu.stkp == 0xFD,
            final(self).cpu.status == 0x24,
            final(self).cpu.cycles == 8,
    {
        self.cpu.reset();
        self.push_history();
    }

    /// Appends the disassembly of the instruction at PC to the history, dropping the
    /// oldest line when the history is full.
    pub fn push_history(&mut self)
        requires
            old(self).wf(),
        ensures
            final(self).wf(),
            final(self).cpu.unchanged_except(&old(self).cpu, false, false, false, false, false, false, false, true),
            final(self).cpu.bus.same_except(&old(self).cpu.bus, false, false, false, false),
            final(self).history@.len() == (if old(self).history@.len() == HISTORY_LEN {
                HISTORY_LEN as int
            } else {
                old(self).history@.len() + 1int
            }),
            old(self).history@.len() == HISTORY_LEN ==> final(self).history@.subrange(0, 4)
                == old(self).history@.subrange(1, 5),
            old(self).history@.len() < HISTORY_LEN ==> final(self).history@.subrange(
                0,
                old(self).history@.len() as int,
            ) == old(self).history@,
            old(self).cpu.instruction_quiet(old(self).cpu.pc) ==> final(self).history@.last()@
                == old(self).cpu.spec_line(old(self).cpu.pc),
            final(self).palette_table == old(self).palette_table,
            final(self).running == old(self).running,
            final(self).ram_offset == old(self).ram_offset,
    {
        if self.history.len() == HISTORY_LEN {
            self.history.remove(0);
        }
        let ghost kept = self.history@;
        let line = self.cpu.disassemble_instruction();
        self.history.push(line);
        assert(self.history@.subrange(0, kept.len() as int) =~= kept);
        assert(old(self).history@.len() == HISTORY_LEN ==> kept =~= old(self).history@.subrange(1, 5));
    }

    /// Runs the master clock until the PPU completes a frame, and clears the frame flag
    /// again. A frame always completes within one frame's worth of dots plus one, so the
    /// result is always true: the console went through a sequence of master clock steps
    /// of which only the last ended the frame.
    #[verifier::rlimit(100)]
    pub fn run_frame(&mut self) -> (r: bool)
        requires
            old(self).wf(),
        ensures
            final(self).wf(),
            r,
            !final(self).cpu.bus.ppu.frame_complete,
            final(self).cpu.bus.ppu.scanline == -1 && final(self).cpu.bus.ppu.cycle == 0,
            exists|trace: Seq<Cpu6502>|
                #[trigger] frame_run(trace, with_frame_flag(old(self).cpu, false)) && final(self).cpu == with_frame_flag(trace.last(), false),
            final(self).history@ == old(self).history@,
            final(self).palette_table == old(self).palette_table,
            final(self).running == old(self).running,
            final(self).ram_offset == old(self).ram_offset,
    {
        self.cpu.bus.ppu.frame_complete = false;
        let ghost start = self.cpu;
        let ghost mut trace: Seq<Cpu6502> = seq![self.cpu];
        let mut steps: u32 = 0;
        let mut done = false;
        while steps <= FRAME_DOTS && !done
            invariant
                self.wf(),
                steps <= FRAME_DOTS + 1,
                done == self.cpu.bus.ppu.frame_complete,
                done ==> self.cpu.bus.ppu.scanline == -1 && self.cpu.bus.ppu.cycle == 0,
                trace.len() == steps + 1,
                trace[0] == start,
                trace.last() == self.cpu,
                forall|i: int| 0 <= i < steps ==> #[trigger] trace[i].clock_step(&trace[i + 1]),
                forall|i: int|
                    0 <= i < steps ==> (#[trigger] ends_frame(&trace[i].bus.ppu) <==> (done && i
                        == steps - 1)),
                !done ==> steps + 89342 - dot_index(
                    self.cpu.bus.ppu.scanline,
                    self.cpu.bus.ppu.cycle,
                ) <= FRAME_DOTS,
                self.history@ == old(self).history@,
                self.palette_table == old(self).palette_table,
                self.running == old(self).running,
                self.ram_offset == old(self).ram_offset,
                start == with_frame_flag(old(self).cpu, false),
            decreases FRAME_DOTS + 1 - steps,
        {
            let ghost before = self.cpu;
            proof {
                lemma_dot_advances(&before.bus.ppu);
            }
            self.cpu.clock();
            steps = steps + 1;
            done = self.cpu.bus.ppu.frame_complete;
            proof {
                trace = trace.push(self.cpu);
            }
        }
        proof {
            if !done {
                assert(dot_index(self.cpu.bus.ppu.scanline, self.cpu.bus.ppu.cycle) <= 89341);
            }
        }
        let ghost last = self.cpu;
        self.cpu.bus.ppu.frame_complete = false;
        assert(self.cpu == with_frame_flag(last, false));
        assert(frame_run(trace, start));
        done
    }

    /// Finishes the instruction in progress, runs three more master clock steps (one CPU
    /// cycle), and records the instruction at PC in the history.
    #[verifier::rlimit(100)]
    pub fn step_instruction(&mut self)
        requires
            old(self).wf(),
        ensures
            final(self).wf(),
            exists|trace: Seq<Cpu6502>|
                #[trigger] step_run(trace, old(self).cpu) && final(self).cpu.unchanged_except(
                    &trace.last(),
                    false,
                    false,
                    false,
                    false,
                    false,
                    false,
                    false,
                    true,
                ) && final(self).cpu.bus.same_except(&trace.last().bus, false, false, false, false),
            final(self).palette_table == old(self).palette_table,
            final(self).running == old(self).running,
            final(self).ram_offset == old(self).ram_offset,
    {
        let ghost mut trace: Seq<Cpu6502> = seq![self.cpu];
        let mut steps: u32 = 0;
        proof {
            lemma_wait_bound_max(&self.cpu);
        }
        while !self.cpu.complete() && steps < STEP_LIMIT
            invariant
                self.wf(),
                self.palette_table == old(self).palette_table,
                self.running == old(self).running,
                self.ram_offset == old(self).ram_offset,
                trace.len() == steps + 1,
                trace[0] == old(self).cpu,
                trace.last() == self.cpu,
                forall|i: int| 0 <= i < steps ==> #[trigger] trace[i].clock_step(&trace[i + 1]),
                self.cpu.cycles > 0 ==> steps + wait_bound(&self.cpu) <= STEP_LIMIT,
            decreases STEP_LIMIT - steps,
        {
            let ghost before = self.cpu;
            self.cpu.clock();
            proof {
                lemma_wait_shrinks(before, self.cpu);
                trace = trace.push(self.cpu);
            }
            steps = steps + 1;
        }
        let ghost k = trace.len() - 1;
        assert(trace[k].cycles == 0);
        let ghost b1 = self.cpu;
        self.cpu.clock();
        proof {
            trace = trace.push(self.cpu);
        }
        self.cpu.clock();
        proof {
            trace = trace.push(self.cpu);
        }
        self.cpu.clock();
        proof {
            trace = trace.push(self.cpu);
        }
        assert(step_run(trace, old(self).cpu));
        self.push_history();
    }

    /// Handles a key press: controller buttons press on controller 1, P pauses or resumes,
    /// N single-steps, T cycles the palette of the pattern views, and the page and keypad
    /// keys move the RAM view.
    pub fn on_buttom_press(&mut self, key: Key)
        requires
            old(self).wf(),
        ensures
            final(self).wf(),
            key_button(key) matches Some(b) ==> final(self).cpu.bus.pad1.reg == old(self).cpu.bus.pad1.reg | button_mask(b) && final(self).cpu.bus.pad1.shift == old(self).cpu.bus.pad1.shift && final(self).cpu.bus.pad1.strobe == old(self).cpu.bus.pad1.strobe,
            key_button(key) is None && key != Key::N ==> final(self).cpu.bus.pad1 == old(self).cpu.bus.pad1,
            final(self).running == (if key == Key::P {
                !old(self).running
            } else {
                old(self).running
            }),
            final(self).palette_table == (if key == Key::T {
                if old(self).palette_table == 7 {
                    0
                } else {
                    (old(self).palette_table + 1) as u8
                }
            } else {
                old(self).palette_table
            }),
            final(self).ram_offset == next_ram_offset(old(self).ram_offset, key),
    {
        match button_of(key) {
            Some(b) => {
                self.cpu.bus.pad1.press_button(b);
                return;
            },
            None => {},
        }
        match key {
            Key::P => {
                self.running = !self.running;
            },
            Key::N => {
                self.step_instruction();
            },
            Key::T => {
                self.palette_table = if self.palette_table == 7 {
                    0
                } else {
                    self.palette_table + 1
                };
            },
            Key::PageDown => {
                self.ram_offset = if self.ram_offset < 0xFFFE - 100 {
                    self.ram_offset + 100
                } else {
                    0xFFFF
                };
            },
            Key::PageUp => {
                self.ram_offset = if self.ram_offset > 100 {
                    self.ram_offset - 100
                } else {
                    0
                };
            },
            Key::NumPadPlus => {
                if self.ram_offset < 0xFFFE {
                    self.ram_offset = self.ram_offset + 1;
                }
            },
            Key::NumPadMinus => {
                if self.ram_offset > 0 {
                    self.ram_offset = self.ram_offset - 1;
                }
            },
            _ => {},
        }
    }

    /// Handles a key release: controller buttons release on controller 1.
    pub fn on_buttom_release(&mut self, key: Key)
        requires
            old(self).wf(),
        ensures
            final(self).wf(),
            key_button(key) matches Some(b) ==> final(self).cpu.bus.pad1.reg == old(self).cpu.bus.pad1.reg & !button_mask(b),
            key_button(key) is None ==> final(self).cpu.bus.pad1 == old(self).cpu.bus.pad1,
            final(self).running == old(self).running,
            final(self).palette_table == old(self).palette_table,
            final(self).ram_offset == old(self).ram_offset,
    {
        match button_of(key) {
            Some(b) => {
                self.cpu.bus.pad1.release_button(b);
            },
            None => {},
        }
    }
}

} // verus!
