use vstd::prelude::*;

verus! {

pub const BIOS_ROM_SIZE: usize = 0x4000;
pub const EXTERNAL_WORKING_RAM_SIZE: usize = 0x0004_0000;
pub const INTERNAL_WORKING_RAM_SIZE: usize = 0x8000;
pub const IO_REGISTERS_SIZE: usize = 0x03FF;
pub const PALETTE_RAM_SIZE: usize = 0x0400;
pub const VRAM_SIZE: usize = 0x0024_0000;
pub const OAM_SIZE: usize = 0x0400;

pub const BIOS_ROM_START_ADDRESS: usize = 0x0000_0000;
pub const EXTERNAL_WORKING_RAM_START_ADDRESS: usize = 0x0200_0000;
pub const INTERNAL_WORKING_RAM_START_ADDRESS: usize = 0x0300_0000;
pub const IO_REGISTERS_START_ADDRESS: usize = 0x0400_0000;
pub const PALETTE_RAM_START_ADDRESS: usize = 0x0500_0000;
pub const VRAM_START_ADDRESS: usize = 0x0600_0000;
pub const OAM_START_ADDRESS: usize = 0x0700_0000;

pub const BIOS_ROM_END_ADDRESS: usize = BIOS_ROM_START_ADDRESS + BIOS_ROM_SIZE;
pub const EXTERNAL_WORKING_RAM_END_ADDRESS: usize = EXTERNAL_WORKING_RAM_START_ADDRESS
    + EXTERNAL_WORKING_RAM_SIZE;
pub const INTERNAL_WORKING_RAM_END_ADDRESS: usize = INTERNAL_WORKING_RAM_START_ADDRESS
    + INTERNAL_WORKING_RAM_SIZE;
pub const IO_REGISTERS_END_ADDRESS: usize = IO_REGISTERS_START_ADDRESS + IO_REGISTERS_SIZE;
pub const PALETTE_RAM_END_ADDRESS: usize = PALETTE_RAM_START_ADDRESS + PALETTE_RAM_SIZE;
pub const VRAM_END_ADDRESS: usize = VRAM_START_ADDRESS + VRAM_SIZE;
pub const OAM_END_ADDRESS: usize = OAM_START_ADDRESS + OAM_SIZE;

/// The GBA memory bus: the BIOS ROM, the on-board and on-chip work RAM, the I/O
/// registers, palette RAM, VRAM and OAM, each at its own place in the address map.
/// Words are stored big-endian: the byte at the lowest address is the most
/// significant.
pub struct Bus {
    bios_rom: Vec<u8>,
    external_working_ram: Vec<u8>,
    internal_working_ram: Vec<u8>,
    io_registers: Vec<u8>,
    palette_ram: Vec<u8>,
    vram: Vec<u8>,
    oam: Vec<u8>,
}

/// The contents of each memory region of a bus.
#[verifier::ext_equal]
pub struct BusView {
    pub bios_rom: Seq<u8>,
    pub external_working_ram: Seq<u8>,
    pub internal_working_ram: Seq<u8>,
    pub io_registers: Seq<u8>,
    pub palette_ram: Seq<u8>,
    pub vram: Seq<u8>,
    pub oam: Seq<u8>,
}

/// Whether `address` lies in `[start, start + size)`.
pub open spec fn in_region(address: int, start: usize, size: usize) -> bool {
    start <= address < start + size
}

/// Whether some memory region holds `address`.
pub open spec fn mapped(address: int) -> bool {
    ||| in_region(address, BIOS_ROM_START_ADDRESS, BIOS_ROM_SIZE)
    ||| in_region(address, EXTERNAL_WORKING_RAM_START_ADDRESS, EXTERNAL_WORKING_RAM_SIZE)
    ||| in_region(address, INTERNAL_WORKING_RAM_START_ADDRESS, INTERNAL_WORKING_RAM_SIZE)
    ||| in_region(address, IO_REGISTERS_START_ADDRESS, IO_REGISTERS_SIZE)
    ||| in_region(address, PALETTE_RAM_START_ADDRESS, PALETTE_RAM_SIZE)
    ||| in_region(address, VRAM_START_ADDRESS, VRAM_SIZE)
    ||| in_region(address, OAM_START_ADDRESS, OAM_SIZE)
}

/// The start address and the size of the region that holds `address`, if any.
pub open spec fn region_bounds(address: int) -> Option<(int, int)> {
    if in_region(address, BIOS_ROM_START_ADDRESS, BIOS_ROM_SIZE) {
        Some((BIOS_ROM_START_ADDRESS as int, BIOS_ROM_SIZE as int))
    } else if in_region(address, EXTERNAL_WORKING_RAM_START_ADDRESS, EXTERNAL_WORKING_RAM_SIZE) {
        Some((EXTERNAL_WORKING_RAM_START_ADDRESS as int, EXTERNAL_WORKING_RAM_SIZE as int))
    } else if in_region(address, INTERNAL_WORKING_RAM_START_ADDRESS, INTERNAL_WORKING_RAM_SIZE) {
        Some((INTERNAL_WORKING_RAM_START_ADDRESS as int, INTERNAL_WORKING_RAM_SIZE as int))
    } else if in_region(address, IO_REGISTERS_START_ADDRESS, IO_REGISTERS_SIZE) {
        Some((IO_REGISTERS_START_ADDRESS as int, IO_REGISTERS_SIZE as int))
    } else if in_region(address, PALETTE_RAM_START_ADDRESS, PALETTE_RAM_SIZE) {
        Some((PALETTE_RAM_START_ADDRESS as int, PALETTE_RAM_SIZE as int))
    } else if in_region(address, VRAM_START_ADDRESS, VRAM_SIZE) {
        Some((VRAM_START_ADDRESS as int, VRAM_SIZE as int))
    } else if in_region(address, OAM_START_ADDRESS, OAM_SIZE) {
        Some((OAM_START_ADDRESS as int, OAM_SIZE as int))
    } else {
        None
    }
}

/// Whether a word read at `address` succeeds: the address is unmapped, or all four
/// bytes from it lie in the region that holds it.
pub open spec fn word_readable(address: int) -> bool {
    match region_bounds(address) {
        None => true,
        Some((start, size)) => address - start + 4 <= size,
    }
}

/// The unsigned value of four bytes taken most significant first.
pub open spec fn big_endian_word(b0: u8, b1: u8, b2: u8, b3: u8) -> u32 {
    (b0 * 0x100_0000 + b1 * 0x1_0000 + b2 * 0x100 + b3) as u32
}

impl BusView {
    /// Each region has its size.
    pub open spec fn wf(self) -> bool {
        &&& self.bios_rom.len() == BIOS_ROM_SIZE
        &&& self.external_working_ram.len() == EXTERNAL_WORKING_RAM_SIZE
        &&& self.internal_working_ram.len() == INTERNAL_WORKING_RAM_SIZE
        &&& self.io_registers.len() == IO_REGISTERS_SIZE
        &&& self.palette_ram.len() == PALETTE_RAM_SIZE
        &&& self.vram.len() == VRAM_SIZE
        &&& self.oam.len() == OAM_SIZE
    }

    /// The byte stored at `address`; 0 where no region holds it.
    pub open spec fn byte_at(self, address: int) -> u8 {
        if in_region(address, BIOS_ROM_START_ADDRESS, BIOS_ROM_SIZE) {
            self.bios_rom[address - BIOS_ROM_START_ADDRESS]
        } else if in_region(address, EXTERNAL_WORKING_RAM_START_ADDRESS, EXTERNAL_WORKING_RAM_SIZE) {
            self.external_working_ram[address - EXTERNAL_WORKING_RAM_START_ADDRESS]
        } else if in_region(address, INTERNAL_WORKING_RAM_START_ADDRESS, INTERNAL_WORKING_RAM_SIZE) {
            self.internal_working_ram[address - INTERNAL_WORKING_RAM_START_ADDRESS]
        } else if in_region(address, IO_REGISTERS_START_ADDRESS, IO_REGISTERS_SIZE) {
            self.io_registers[address - IO_REGISTERS_START_ADDRESS]
        } else if in_region(address, PALETTE_RAM_START_ADDRESS, PALETTE_RAM_SIZE) {
            self.palette_ram[address - PALETTE_RAM_START_ADDRESS]
        } else if in_region(address, VRAM_START_ADDRESS, VRAM_SIZE) {
            self.vram[address - VRAM_START_ADDRESS]
        } else if in_region(address, OAM_START_ADDRESS, OAM_SIZE) {
            self.oam[address - OAM_START_ADDRESS]
        } else {
            0
        }
    }

    /// What a word read at `address` gives: the big-endian word of the four bytes
    /// from `address` if a region holds it, else 0.
    pub open spec fn word_at(self, address: int) -> u32 {
        if mapped(address) {
            big_endian_word(
                self.byte_at(address),
                self.byte_at(address + 1),
                self.byte_at(address + 2),
                self.byte_at(address + 3),
            )
        } else {
            0
        }
    }

    /// What a halfword read at `address` gives: the high half of `word_at`, that is
    /// the bytes at `address` and `address + 1`, most significant first.
    pub open spec fn halfword_at(self, address: int) -> u16 {
        (self.word_at(address) / 0x1_0000) as u16
    }

    /// What a byte read at `address` gives: the top byte of `word_at`.
    pub open spec fn top_byte_at(self, address: int) -> u16 {
        (self.word_at(address) / 0x100_0000) as u16
    }

    /// The bus after the BIOS ROM byte at `index` is set to `value`.
    pub open spec fn with_bios_byte(self, index: int, value: u8) -> BusView {
        BusView { bios_rom: self.bios_rom.update(index, value), ..self }
    }

    /// The bus after a halfword write of `value` at BIOS ROM index `index`: the
    /// high byte at `index`, the low byte after it.
    pub open spec fn after_write_16(self, index: int, value: u16) -> BusView {
        self.with_bios_byte(index, (value / 0x100) as u8).with_bios_byte(
            index + 1,
            (value % 0x100) as u8,
        )
    }

    /// The bus after a byte write of `value` at BIOS ROM index `index`.
    pub open spec fn after_write_8(self, index: int, value: u8) -> BusView {
        self.with_bios_byte(index, value)
    }

    /// The bus after a word write of `value` at BIOS ROM index `index`, most
    /// significant byte first.
    pub open spec fn after_write_32(self, index: int, value: u32) -> BusView {
        self.with_bios_byte(index, (value / 0x100_0000) as u8).with_bios_byte(
            index + 1,
            ((value / 0x1_0000) % 0x100) as u8,
        ).with_bios_byte(index + 2, ((value / 0x100) % 0x100) as u8).with_bios_byte(
            index + 3,
            (value % 0x100) as u8,
        )
    }
}

impl View for Bus {
    type V = BusView;

    closed spec fn view(&self) -> BusView {
        BusView {
            bios_rom: self.bios_rom@,
            external_working_ram: self.external_working_ram@,
            internal_working_ram: self.internal_working_ram@,
            io_registers: self.io_registers@,
            palette_ram: self.palette_ram@,
            vram: self.vram@,
            oam: self.oam@,
        }
    }
}

/// A halfword write stores the high byte at its address and the low byte after
/// it, and changes no other byte.
pub proof fn lemma_write_16_bytes(v: BusView, address: int, value: u16, other: int)
    requires
        v.wf(),
        0 <= address,
        address + 1 < BIOS_ROM_SIZE,
    ensures
        v.after_write_16(address, value).wf(),
        v.after_write_16(address, value).byte_at(address) == value / 0x100,
        v.after_write_16(address, value).byte_at(address + 1) == value % 0x100,
        other != address && other != address + 1 ==> v.after_write_16(address, value).byte_at(
            other,
        ) == v.byte_at(other),
{
}

/// A halfword read gives back what a halfword write to the same address wrote,
/// and a byte read gives its high byte, wherever the four bytes from that address
/// lie in the BIOS ROM.
pub proof fn lemma_read_after_write_16(v: BusView, address: int, value: u16)
    requires
        v.wf(),
        0 <= address,
        address + 4 <= BIOS_ROM_SIZE,
    ensures
        v.after_write_16(address, value).halfword_at(address) == value,
        v.after_write_16(address, value).top_byte_at(address) == value / 0x100,
{
    let w = v.after_write_16(address, value);
    let b2 = w.byte_at(address + 2);
    let b3 = w.byte_at(address + 3);
    assert(w.byte_at(address) == value / 0x100);
    assert(w.byte_at(address + 1) == value % 0x100);
    assert(w.word_at(address) == (value / 0x100) * 0x100_0000 + (value % 0x100) * 0x1_0000 + b2
        * 0x100 + b3);
    assert(((value / 0x100) * 0x100_0000 + (value % 0x100) * 0x1_0000 + b2 * 0x100 + b3)
        / 0x1_0000 == value) by (nonlinear_arith)
        requires
            0 <= b2 < 0x100,
            0 <= b3 < 0x100,
    ;
}

/// A word read gives back what a word write to the same address wrote, and a
/// halfword read its high half, wherever the four bytes lie in the BIOS ROM.
pub proof fn lemma_read_after_write_32(v: BusView, address: int, value: u32)
    requires
        v.wf(),
        0 <= address,
        address + 4 <= BIOS_ROM_SIZE,
    ensures
        v.after_write_32(address, value).word_at(address) == value,
        v.after_write_32(address, value).halfword_at(address) == value / 0x1_0000,
{
    let w = v.after_write_32(address, value);
    assert(w.byte_at(address) == value / 0x100_0000);
    assert(w.byte_at(address + 1) == (value / 0x1_0000) % 0x100);
    assert(w.byte_at(address + 2) == (value / 0x100) % 0x100);
    assert(w.byte_at(address + 3) == value % 0x100);
    assert((value / 0x100_0000) * 0x100_0000 + ((value / 0x1_0000) % 0x100) * 0x1_0000 + ((value
        / 0x100) % 0x100) * 0x100 + value % 0x100 == value) by (nonlinear_arith);
}

/// A byte read gives back what a byte write to the same address wrote, wherever
/// the four bytes from that address lie in the BIOS ROM.
pub proof fn lemma_read_after_write_8(v: BusView, address: int, value: u8)
    requires
        v.wf(),
        0 <= address,
        address + 4 <= BIOS_ROM_SIZE,
    ensures
        v.after_write_8(address, value).top_byte_at(address) == value,
{
    let w = v.after_write_8(address, value);
    let b1 = w.byte_at(address + 1);
    let b2 = w.byte_at(address + 2);
    let b3 = w.byte_at(address + 3);
    assert(w.byte_at(address) == value);
    assert((value * 0x100_0000 + b1 * 0x1_0000 + b2 * 0x100 + b3) / 0x100_0000 == value)
        by (nonlinear_arith)
        requires
            0 <= b1 < 0x100,
            0 <= b2 < 0x100,
            0 <= b3 < 0x100,
    ;
}

/// The value of four bytes as the exec code assembles them with shifts and ors.
proof fn lemma_assemble_word(b0: u8, b1: u8, b2: u8, b3: u8)
    by (bit_vector)
    ensures
        ((b0 as u32) << 24u32) | ((b1 as u32) << 16u32) | ((b2 as u32) << 8u32) | (b3 as u32)
            == b0 * 0x100_0000 + b1 * 0x1_0000 + b2 * 0x100 + b3,
{
}

/// The word stored big-endian in `mem` from `index`.
fn word_from(mem: &Vec<u8>, index: usize) -> (r: u32)
    requires
        index + 4 <= mem.len(),
    ensures
        r == big_endian_word(
            mem@[index as int],
            mem@[index + 1],
            mem@[index + 2],
            mem@[index + 3],
        ),
{
    let b0 = mem[index];
    let b1 = mem[index + 1];
    let b2 = mem[index + 2];
    let b3 = mem[index + 3];
    proof {
        lemma_assemble_word(b0, b1, b2, b3);
    }
    ((b0 as u32) << 24) | ((b1 as u32) << 16) | ((b2 as u32) << 8) | b3 as u32
}

/// Whether a word read at `address` succeeds (see `word_readable`).
pub fn is_word_readable(address: usize) -> (r: bool)
    ensures
        r == word_readable(address as int),
{
    if BIOS_ROM_START_ADDRESS <= address && address < BIOS_ROM_END_ADDRESS {
        address - BIOS_ROM_START_ADDRESS <= BIOS_ROM_SIZE - 4
    } else if EXTERNAL_WORKING_RAM_START_ADDRESS <= address && address
        < EXTERNAL_WORKING_RAM_END_ADDRESS {
        address - EXTERNAL_WORKING_RAM_START_ADDRESS <= EXTERNAL_WORKING_RAM_SIZE - 4
    } else if INTERNAL_WORKING_RAM_START_ADDRESS <= address && address
        < INTERNAL_WORKING_RAM_END_ADDRESS {
        address - INTERNAL_WORKING_RAM_START_ADDRESS <= INTERNAL_WORKING_RAM_SIZE - 4
    } else if IO_REGISTERS_START_ADDRESS <= address && address < IO_REGISTERS_END_ADDRESS {
        address - IO_REGISTERS_START_ADDRESS <= IO_REGISTERS_SIZE - 4
    } else if PALETTE_RAM_START_ADDRESS <= address && address < PALETTE_RAM_END_ADDRESS {
        address - PALETTE_RAM_START_ADDRESS <= PALETTE_RAM_SIZE - 4
    } else if VRAM_START_ADDRESS <= address && address < VRAM_END_ADDRESS {
        address - VRAM_START_ADDRESS <= VRAM_SIZE - 4
    } else if OAM_START_ADDRESS <= address && address < OAM_END_ADDRESS {
        address - OAM_START_ADDRESS <= OAM_SIZE - 4
    } else {
        true
    }
}

impl Bus {
    /// The bus is well formed: each region has its size.
    pub open spec fn wf(&self) -> bool {
        self@.wf()
    }

    /// A bus with every byte of every region zero.
    pub fn new() -> (bus: Self)
        ensures
            bus.wf(),
            forall|a: int| #[trigger] bus@.byte_at(a) == 0,
            forall|a: int| #[trigger] bus@.word_at(a) == 0,
    {
        let bus = Self {
            bios_rom: vec![0u8; BIOS_ROM_SIZE],
            external_working_ram: vec![0u8; EXTERNAL_WORKING_RAM_SIZE],
            internal_working_ram: vec![0u8; INTERNAL_WORKING_RAM_SIZE],
            io_registers: vec![0u8; IO_REGISTERS_SIZE],
            palette_ram: vec![0u8; PALETTE_RAM_SIZE],
            vram: vec![0u8; VRAM_SIZE],
            oam: vec![0u8; OAM_SIZE],
        };
        bus
    }

    /// Writes `value` big-endian into the BIOS ROM at index `address`.
    pub fn write_16(&mut self, address: usize, value: u16)
        requires
            old(self).wf(),
            address + 1 < BIOS_ROM_SIZE,
        ensures
            final(self)@ == old(self)@.after_write_16(address as int, value),
            final(self).wf(),
    {
        self.bios_rom.set(address, ((value & 0xFF00) >> 8) as u8);
        self.bios_rom.set(address + 1, (value & 0xFF) as u8);
        proof {
            assert(((value & 0xFF00u16) >> 8u16) == value / 0x100) by (bit_vector);
            assert((value & 0xFFu16) == value % 0x100) by (bit_vector);
        }
    }

    /// Writes `value` into the BIOS ROM at index `address`.
    pub fn write_8(&mut self, address: usize, value: u8)
        requires
            old(self).wf(),
            address < BIOS_ROM_SIZE,
        ensures
            final(self)@ == old(self)@.after_write_8(address as int, value),
            final(self).wf(),
    {
        self.bios_rom.set(address, value);
    }

    /// Writes `value` big-endian into the BIOS ROM from index `address`.
    pub fn write_32(&mut self, address: usize, value: u32)
        requires
            old(self).wf(),
            address + 3 < BIOS_ROM_SIZE,
        ensures
            final(self)@ == old(self)@.after_write_32(address as int, value),
            final(self).wf(),
    {
        self.bios_rom.set(address, ((value & 0xFF00_0000) >> 24) as u8);
        self.bios_rom.set(address + 1, ((value & 0x00FF_0000) >> 16) as u8);
        self.bios_rom.set(address + 2, ((value & 0x0000_FF00) >> 8) as u8);
        self.bios_rom.set(address + 3, (value & 0xFF) as u8);
        proof {
            assert(((value & 0xFF00_0000u32) >> 24u32) == value / 0x100_0000) by (bit_vector);
            assert(((value & 0x00FF_0000u32) >> 16u32) == (value / 0x1_0000) % 0x100)
                by (bit_vector);
            assert(((value & 0x0000_FF00u32) >> 8u32) == (value / 0x100) % 0x100) by (bit_vector);
            assert((value & 0xFFu32) == value % 0x100) by (bit_vector);
        }
    }

    /// Reads the word at `address` and gives its top byte.
    pub fn read_8(&self, address: usize) -> (r: u16)
        requires
            self.wf(),
            word_readable(address as int),
        ensures
            r == self@.top_byte_at(address as int),
    {
        let data = self.read_32(address);
        let data8 = (data & 0xFF00_0000) >> 24;
        proof {
            assert((data & 0xFF00_0000u32) >> 24u32 == data / 0x100_0000) by (bit_vector);
        }
        data8 as u16
    }

    /// Reads the word at `address` and gives its high half.
    pub fn read_16(&self, address: usize) -> (r: u16)
        requires
            self.wf(),
            word_readable(address as int),
        ensures
            r == self@.halfword_at(address as int),
    {
        let data = self.read_32(address);
        let data16 = (data & 0xFFFF_0000) >> 16;
        proof {
            assert((data & 0xFFFF_0000u32) >> 16u32 == data / 0x1_0000) by (bit_vector);
        }
        data16 as u16
    }

    /// Reads the big-endian word at `address` from the region that holds it; an
    /// address that no region holds reads as 0.
    pub fn read_32(&self, address: usize) -> (r: u32)
        requires
            self.wf(),
            word_readable(address as int),
        ensures
            r == self@.word_at(address as int),
    {
        if BIOS_ROM_START_ADDRESS <= address && address < BIOS_ROM_END_ADDRESS {
            self.get_bios(address)
        } else if EXTERNAL_WORKING_RAM_START_ADDRESS <= address && address
            < EXTERNAL_WORKING_RAM_END_ADDRESS {
            self.get_external_working_ram(address)
        } else if INTERNAL_WORKING_RAM_START_ADDRESS <= address && address
            < INTERNAL_WORKING_RAM_END_ADDRESS {
            self.get_internal_working_ram(address)
        } else if IO_REGISTERS_START_ADDRESS <= address && address < IO_REGISTERS_END_ADDRESS {
            self.get_io(address)
        } else if PALETTE_RAM_START_ADDRESS <= address && address < PALETTE_RAM_END_ADDRESS {
            self.get_palette_ram(address)
        } else if VRAM_START_ADDRESS <= address && address < VRAM_END_ADDRESS {
            self.get_vram(address)
        } else if OAM_START_ADDRESS <= address && address < OAM_END_ADDRESS {
            self.get_oam(address)
        } else {
            0x0000_0000
        }
    }

    fn get_bios(&self, address: usize) -> (r: u32)
        requires
            self.wf(),
            in_region(address as int, BIOS_ROM_START_ADDRESS, BIOS_ROM_SIZE),
            word_readable(address as int),
        ensures
            r == self@.word_at(address as int),
    {
        let index = address.saturating_sub(BIOS_ROM_START_ADDRESS);
        word_from(&self.bios_rom, index)
    }

    fn get_external_working_ram(&self, address: usize) -> (r: u32)
        requires
            self.wf(),
            in_region(
                address as int,
                EXTERNAL_WORKING_RAM_START_ADDRESS,
                EXTERNAL_WORKING_RAM_SIZE,
            ),
            word_readable(address as int),
        ensures
            r == self@.word_at(address as int),
    {
        let index = address.saturating_sub(EXTERNAL_WORKING_RAM_START_ADDRESS);
        word_from(&self.external_working_ram, index)
    }

    fn get_internal_working_ram(&self, address: usize) -> (r: u32)
        requires
            self.wf(),
            in_region(
                address as int,
                INTERNAL_WORKING_RAM_START_ADDRESS,
                INTERNAL_WORKING_RAM_SIZE,
            ),
            word_readable(address as int),
        ensures
            r == self@.word_at(address as int),
    {
        let index = address.saturating_sub(INTERNAL_WORKING_RAM_START_ADDRESS);
        word_from(&self.internal_working_ram, index)
    }

    fn get_io(&self, address: usize) -> (r: u32)
        requires
            self.wf(),
            in_region(address as int, IO_REGISTERS_START_ADDRESS, IO_REGISTERS_SIZE),
            word_readable(address as int),
        ensures
            r == self@.word_at(address as int),
    {
        let index = address.saturating_sub(IO_REGISTERS_START_ADDRESS);
        word_from(&self.io_registers, index)
    }

    fn get_palette_ram(&self, address: usize) -> (r: u32)
        requires
            self.wf(),
            in_region(address as int, PALETTE_RAM_START_ADDRESS, PALETTE_RAM_SIZE),
            word_readable(address as int),
        ensures
            r == self@.word_at(address as int),
    {
        let index = address.saturating_sub(PALETTE_RAM_START_ADDRESS);
        word_from(&self.palette_ram, index)
    }

    fn get_vram(&self, address: usize) -> (r: u32)
        requires
            self.wf(),
            in_region(address as int, VRAM_START_ADDRESS, VRAM_SIZE),
            word_readable(address as int),
        ensures
            r == self@.word_at(address as int),
    {
        let index = address.saturating_sub(VRAM_START_ADDRESS);
        word_from(&self.vram, index)
    }

    fn get_oam(&self, address: usize) -> (r: u32)
        requires
            self.wf(),
            in_region(address as int, OAM_START_ADDRESS, OAM_SIZE),
            word_readable(address as int),
        ensures
            r == self@.word_at(address as int),
    {
        let index = address.saturating_sub(OAM_START_ADDRESS);
        word_from(&self.oam, index)
    }
}

} // verus!
