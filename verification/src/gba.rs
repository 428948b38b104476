use vstd::prelude::*;

use crate::bus::{lemma_read_after_write_16, word_readable, Bus, BusView, BIOS_ROM_SIZE};
use crate::cpu::Cpu;
use crate::thumb::{decode, ThumbInstruction};

verus! {

pub const DISPLAY_WIDTH: usize = 240;
pub const DISPLAY_HEIGHT: usize = 160;

/// A Game Boy Advance: the processor and the memory bus it runs against.
pub struct Gba {
    cpu: Cpu,
    bus: Bus,
}

impl Gba {
    /// The processor's register file.
    pub closed spec fn cpu(self) -> Cpu {
        self.cpu
    }

    /// The contents of memory.
    pub closed spec fn bus(self) -> BusView {
        self.bus@
    }

    /// Every memory region has its size.
    pub open spec fn wf(self) -> bool {
        self.bus().wf()
    }

    /// A machine at reset: every register zero and all memory zero.
    pub fn new() -> (gba: Self)
        ensures
            gba.wf(),
            gba.cpu() == Cpu::reset_value(),
            forall|a: int| #[trigger] gba.bus().byte_at(a) == 0,
    {
        Self { cpu: Cpu::default(), bus: Bus::new() }
    }

    /// Whether the next cycle is defined (see `Cpu::cycle_defined`).
    pub fn can_cycle(&self) -> (r: bool)
        requires
            self.wf(),
        ensures
            r == self.cpu().cycle_defined(self.bus()),
    {
        self.cpu.can_cycle(&self.bus)
    }

    /// Runs one processor cycle against the bus.
    pub fn cpu_cycle(&mut self)
        requires
            old(self).wf(),
            old(self).cpu().cycle_defined(old(self).bus()),
        ensures
            final(self).wf(),
            final(self).cpu() == old(self).cpu().cycle_result(old(self).bus()).0,
            final(self).bus() == old(self).cpu().cycle_result(old(self).bus()).1,
    {
        self.cpu.cpu_cycle(&mut self.bus);
    }

    /// The opcode at the program counter and its decoded format.
    pub fn get_next_instruction(&self) -> (r: (u16, ThumbInstruction))
        requires
            self.wf(),
            word_readable(self.cpu().program_counter as int),
        ensures
            r.0 == self.cpu().fetch(self.bus()),
            r.1 == decode(r.0),
    {
        self.cpu.get_next_instruction(&self.bus)
    }

    /// Writes `value` as the opcode at the program counter.
    pub fn insert_opcode(&mut self, value: u16)
        requires
            old(self).wf(),
            old(self).cpu().program_counter + 1 < BIOS_ROM_SIZE,
        ensures
            final(self).wf(),
            final(self).cpu() == old(self).cpu(),
            final(self).bus() == old(self).bus().after_write_16(
                old(self).cpu().program_counter as int,
                value,
            ),
    {
        self.bus.write_16(self.cpu.get_program_counter() as usize, value);
    }

    pub fn get_program_counter(&self) -> (r: u32)
        ensures
            r == self.cpu().program_counter,
    {
        self.cpu.get_program_counter()
    }

    /// The word at the program counter.
    pub fn get_rom(&self) -> (r: u32)
        requires
            self.wf(),
            word_readable(self.cpu().program_counter as int),
        ensures
            r == self.bus().word_at(self.cpu().program_counter as int),
    {
        self.bus.read_32(self.cpu.get_program_counter() as usize)
    }

    pub fn get_r00(&self) -> (r: u32)
        ensures
            r == self.cpu().r00,
    {
        self.cpu.get_r00()
    }

    pub fn get_r01(&self) -> (r: u32)
        ensures
            r == self.cpu().r01,
    {
        self.cpu.get_r01()
    }

    pub fn set_r00(&mut self, value: u32)
        ensures
            final(self).cpu() == old(self).cpu().with_reg(0, value),
            final(self).bus() == old(self).bus(),
    {
        self.cpu.set_r00(value);
    }
}

/// The opcode inserted at the program counter is the next one fetched, wherever
/// the four bytes from the program counter lie in the BIOS ROM.
pub proof fn lemma_fetch_after_insert_opcode(gba: Gba, value: u16)
    requires
        gba.wf(),
        gba.cpu().program_counter + 4 <= BIOS_ROM_SIZE,
    ensures
        gba.cpu().fetch(gba.bus().after_write_16(gba.cpu().program_counter as int, value))
            == value,
{
    lemma_read_after_write_16(gba.bus(), gba.cpu().program_counter as int, value);
}

} // verus!
