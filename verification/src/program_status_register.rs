use vstd::prelude::*;

verus! {

/// The current program status register (CPSR) of the ARM7TDMI.
///
/// The condition flags N, Z, C and V live in bits 15..12 of the packed word, the
/// interrupt masks I and F in bits 7 and 6, the THUMB state bit T in bit 5 and the
/// processor mode in the low bits.
pub struct ProgramStatusRegister {
    negative: bool,
    zero: bool,
    carry: bool,
    overflow: bool,
    irq_disable: bool,
    fiq_disable: bool,
    state_bit: bool,
    mode_bits: u8,
}

/// The word value of one flag placed at the given bit weight.
pub open spec fn flag_value(flag: bool, weight: int) -> int {
    if flag { weight } else { 0 }
}

/// The CPSR word made of the given mode bits and flags.
pub open spec fn packed_word(
    mode: u8,
    n: bool,
    z: bool,
    c: bool,
    v: bool,
    i: bool,
    f: bool,
    t: bool,
) -> u32 {
    (mode as u32) | (if t { 0x20u32 } else { 0u32 }) | (if f { 0x40u32 } else { 0u32 }) | (if i {
        0x80u32
    } else {
        0u32
    }) | (if v { 0x1000u32 } else { 0u32 }) | (if c { 0x2000u32 } else { 0u32 }) | (if z {
        0x4000u32
    } else {
        0u32
    }) | (if n { 0x8000u32 } else { 0u32 })
}

/// Bit-level facts about `packed_word`: where each flag lands, and that
/// replacing one flag rewrites exactly its own bit.
proof fn lemma_packed_word_bits(
    mode: u8,
    n: bool,
    z: bool,
    c: bool,
    v: bool,
    i: bool,
    f: bool,
    t: bool,
    b: bool,
)
    by (bit_vector)
    ensures
        ((packed_word(mode, n, z, c, v, i, f, t) >> 15u32) & 1u32 == 1u32) == n,
        ((packed_word(mode, n, z, c, v, i, f, t) >> 14u32) & 1u32 == 1u32) == z,
        ((packed_word(mode, n, z, c, v, i, f, t) >> 13u32) & 1u32 == 1u32) == c,
        ((packed_word(mode, n, z, c, v, i, f, t) >> 12u32) & 1u32 == 1u32) == v,
        mode & 0xE0u8 == 0u8 ==> ((packed_word(mode, n, z, c, v, i, f, t) >> 7u32) & 1u32 == 1u32)
            == i,
        mode & 0xE0u8 == 0u8 ==> ((packed_word(mode, n, z, c, v, i, f, t) >> 6u32) & 1u32 == 1u32)
            == f,
        mode & 0xE0u8 == 0u8 ==> ((packed_word(mode, n, z, c, v, i, f, t) >> 5u32) & 1u32 == 1u32)
            == t,
        packed_word(mode, n, z, c, v, i, f, t) & 0x1Fu32 == (mode as u32) & 0x1Fu32,
        packed_word(mode, n, z, c, v, i, f, t) & 0xFFFF0F00u32 == 0u32,
        packed_word(mode, b, z, c, v, i, f, t) == (packed_word(mode, n, z, c, v, i, f, t)
            & !0x8000u32) | (if b { 0x8000u32 } else { 0u32 }),
        packed_word(mode, n, b, c, v, i, f, t) == (packed_word(mode, n, z, c, v, i, f, t)
            & !0x4000u32) | (if b { 0x4000u32 } else { 0u32 }),
        packed_word(mode, n, z, b, v, i, f, t) == (packed_word(mode, n, z, c, v, i, f, t)
            & !0x2000u32) | (if b { 0x2000u32 } else { 0u32 }),
        packed_word(mode, n, z, c, b, i, f, t) == (packed_word(mode, n, z, c, v, i, f, t)
            & !0x1000u32) | (if b { 0x1000u32 } else { 0u32 }),
{
}

impl ProgramStatusRegister {
    pub closed spec fn negative(self) -> bool { self.negative }
    pub closed spec fn zero(self) -> bool { self.zero }
    pub closed spec fn carry(self) -> bool { self.carry }
    pub closed spec fn overflow(self) -> bool { self.overflow }
    pub closed spec fn irq_disable(self) -> bool { self.irq_disable }
    pub closed spec fn fiq_disable(self) -> bool { self.fiq_disable }
    pub closed spec fn state_bit(self) -> bool { self.state_bit }
    pub closed spec fn mode_bits(self) -> u8 { self.mode_bits }

    /// The register with every field as in `self` but the negative flag.
    pub closed spec fn with_negative(self, state: bool) -> Self {
        ProgramStatusRegister { negative: state, ..self }
    }

    pub closed spec fn with_zero(self, state: bool) -> Self {
        ProgramStatusRegister { zero: state, ..self }
    }

    pub closed spec fn with_carry(self, state: bool) -> Self {
        ProgramStatusRegister { carry: state, ..self }
    }

    pub closed spec fn with_overflow(self, state: bool) -> Self {
        ProgramStatusRegister { overflow: state, ..self }
    }

    pub closed spec fn with_irq_disable(self, state: bool) -> Self {
        ProgramStatusRegister { irq_disable: state, ..self }
    }

    pub closed spec fn with_fiq_disable(self, state: bool) -> Self {
        ProgramStatusRegister { fiq_disable: state, ..self }
    }

    pub closed spec fn with_state_bit(self, state: bool) -> Self {
        ProgramStatusRegister { state_bit: state, ..self }
    }

    /// The register that reset leaves: every flag clear and mode bits zero.
    pub closed spec fn reset_value() -> Self {
        ProgramStatusRegister {
            negative: false,
            zero: false,
            carry: false,
            overflow: false,
            irq_disable: false,
            fiq_disable: false,
            state_bit: false,
            mode_bits: 0,
        }
    }

    /// The packed 32-bit CPSR word: the mode bits, with T, F, I, V, C, Z and N
    /// set at bits 5, 6, 7, 12, 13, 14 and 15.
    pub open spec fn packed(self) -> u32 {
        packed_word(
            self.mode_bits(),
            self.negative(),
            self.zero(),
            self.carry(),
            self.overflow(),
            self.irq_disable(),
            self.fiq_disable(),
            self.state_bit(),
        )
    }

    pub fn set_negative(&mut self, state: bool)
        ensures
            *final(self) == old(self).with_negative(state),
            final(self).negative() == state,
            final(self).zero() == old(self).zero(),
            final(self).carry() == old(self).carry(),
            final(self).overflow() == old(self).overflow(),
            final(self).irq_disable() == old(self).irq_disable(),
            final(self).fiq_disable() == old(self).fiq_disable(),
            final(self).state_bit() == old(self).state_bit(),
            final(self).mode_bits() == old(self).mode_bits(),
    {
        self.negative = state;
    }

    pub fn get_negative(&self) -> (r: bool)
        ensures
            r == self.negative(),
    {
        self.negative
    }

    pub fn set_zero(&mut self, state: bool)
        ensures
            *final(self) == old(self).with_zero(state),
            final(self).zero() == state,
            final(self).negative() == old(self).negative(),
            final(self).carry() == old(self).carry(),
            final(self).overflow() == old(self).overflow(),
            final(self).irq_disable() == old(self).irq_disable(),
            final(self).fiq_disable() == old(self).fiq_disable(),
            final(self).state_bit() == old(self).state_bit(),
            final(self).mode_bits() == old(self).mode_bits(),
    {
        self.zero = state;
    }

    pub fn get_zero(&self) -> (r: bool)
        ensures
            r == self.zero(),
    {
        self.zero
    }

    pub fn set_carry(&mut self, state: bool)
        ensures
            *final(self) == old(self).with_carry(state),
            final(self).carry() == state,
            final(self).negative() == old(self).negative(),
            final(self).zero() == old(self).zero(),
            final(self).overflow() == old(self).overflow(),
            final(self).irq_disable() == old(self).irq_disable(),
            final(self).fiq_disable() == old(self).fiq_disable(),
            final(self).state_bit() == old(self).state_bit(),
            final(self).mode_bits() == old(self).mode_bits(),
    {
        self.carry = state;
    }

    pub fn get_carry(&self) -> (r: bool)
        ensures
            r == self.carry(),
    {
        self.carry
    }

    pub fn set_overflow(&mut self, state: bool)
        ensures
            *final(self) == old(self).with_overflow(state),
            final(self).overflow() == state,
            final(self).negative() == old(self).negative(),
            final(self).zero() == old(self).zero(),
            final(self).carry() == old(self).carry(),
            final(self).irq_disable() == old(self).irq_disable(),
            final(self).fiq_disable() == old(self).fiq_disable(),
            final(self).state_bit() == old(self).state_bit(),
            final(self).mode_bits() == old(self).mode_bits(),
    {
        self.overflow = state;
    }

    pub fn get_overflow(&self) -> (r: bool)
        ensures
            r == self.overflow(),
    {
        self.overflow
    }

    pub fn set_irq_disable(&mut self, state: bool)
        ensures
            *final(self) == old(self).with_irq_disable(state),
            final(self).irq_disable() == state,
            final(self).negative() == old(self).negative(),
            final(self).zero() == old(self).zero(),
            final(self).carry() == old(self).carry(),
            final(self).overflow() == old(self).overflow(),
            final(self).fiq_disable() == old(self).fiq_disable(),
            final(self).state_bit() == old(self).state_bit(),
            final(self).mode_bits() == old(self).mode_bits(),
    {
        self.irq_disable = state;
    }

    pub fn get_irq_disable(&self) -> (r: bool)
        ensures
            r == self.irq_disable(),
    {
        self.irq_disable
    }

    pub fn set_fiq_disable(&mut self, state: bool)
        ensures
            *final(self) == old(self).with_fiq_disable(state),
            final(self).fiq_disable() == state,
            final(self).negative() == old(self).negative(),
            final(self).zero() == old(self).zero(),
            final(self).carry() == old(self).carry(),
            final(self).overflow() == old(self).overflow(),
            final(self).irq_disable() == old(self).irq_disable(),
            final(self).state_bit() == old(self).state_bit(),
            final(self).mode_bits() == old(self).mode_bits(),
    {
        self.fiq_disable = state;
    }

    pub fn get_fiq_disable(&self) -> (r: bool)
        ensures
            r == self.fiq_disable(),
    {
        self.fiq_disable
    }

    pub fn set_state_bit(&mut self, state: bool)
        ensures
            *final(self) == old(self).with_state_bit(state),
            final(self).state_bit() == state,
            final(self).negative() == old(self).negative(),
            final(self).zero() == old(self).zero(),
            final(self).carry() == old(self).carry(),
            final(self).overflow() == old(self).overflow(),
            final(self).irq_disable() == old(self).irq_disable(),
            final(self).fiq_disable() == old(self).fiq_disable(),
            final(self).mode_bits() == old(self).mode_bits(),
    {
        self.state_bit = state;
    }

    pub fn get_state_bit(&self) -> (r: bool)
        ensures
            r == self.state_bit(),
    {
        self.state_bit
    }
}

/// Reading a condition flag's bit of the packed word gives the flag back (N at
/// bit 15, Z at 14, C at 13, V at 12); the interrupt masks and the state bit read
/// back from bits 7, 6 and 5 whenever the mode bits leave those bits clear, as they
/// do at reset; the low five bits are the mode; bits 8..11 and 16..31 are clear.
pub proof fn lemma_packed_flags_read_back(psr: ProgramStatusRegister)
    ensures
        ((psr.packed() >> 15u32) & 1u32 == 1u32) == psr.negative(),
        ((psr.packed() >> 14u32) & 1u32 == 1u32) == psr.zero(),
        ((psr.packed() >> 13u32) & 1u32 == 1u32) == psr.carry(),
        ((psr.packed() >> 12u32) & 1u32 == 1u32) == psr.overflow(),
        psr.mode_bits() & 0xE0u8 == 0u8 ==> {
            &&& ((psr.packed() >> 7u32) & 1u32 == 1u32) == psr.irq_disable()
            &&& ((psr.packed() >> 6u32) & 1u32 == 1u32) == psr.fiq_disable()
            &&& ((psr.packed() >> 5u32) & 1u32 == 1u32) == psr.state_bit()
        },
        psr.packed() & 0x1Fu32 == (psr.mode_bits() as u32) & 0x1Fu32,
        psr.packed() & 0xFFFF0F00u32 == 0u32,
{
    lemma_packed_word_bits(
        psr.mode_bits(),
        psr.negative(),
        psr.zero(),
        psr.carry(),
        psr.overflow(),
        psr.irq_disable(),
        psr.fiq_disable(),
        psr.state_bit(),
        false,
    );
}

/// The reset register has every flag clear, mode bits zero, and packs to 0.
pub proof fn lemma_reset_value_fields()
    ensures
        !ProgramStatusRegister::reset_value().negative(),
        !ProgramStatusRegister::reset_value().zero(),
        !ProgramStatusRegister::reset_value().carry(),
        !ProgramStatusRegister::reset_value().overflow(),
        !ProgramStatusRegister::reset_value().irq_disable(),
        !ProgramStatusRegister::reset_value().fiq_disable(),
        !ProgramStatusRegister::reset_value().state_bit(),
        ProgramStatusRegister::reset_value().mode_bits() == 0,
        ProgramStatusRegister::reset_value().packed() == 0,
{
    assert(packed_word(0, false, false, false, false, false, false, false) == 0u32) by (bit_vector);
}

/// Setting one flag gives it the new value and keeps every other flag and the
/// mode bits.
pub proof fn lemma_with_keeps_other_fields(psr: ProgramStatusRegister, b: bool)
    ensures
        psr.with_negative(b).negative() == b,
        psr.with_negative(b).zero() == psr.zero(),
        psr.with_negative(b).carry() == psr.carry(),
        psr.with_negative(b).overflow() == psr.overflow(),
        psr.with_negative(b).irq_disable() == psr.irq_disable(),
        psr.with_negative(b).fiq_disable() == psr.fiq_disable(),
        psr.with_negative(b).state_bit() == psr.state_bit(),
        psr.with_negative(b).mode_bits() == psr.mode_bits(),
        psr.with_zero(b).zero() == b,
        psr.with_zero(b).negative() == psr.negative(),
        psr.with_zero(b).carry() == psr.carry(),
        psr.with_zero(b).overflow() == psr.overflow(),
        psr.with_zero(b).irq_disable() == psr.irq_disable(),
        psr.with_zero(b).fiq_disable() == psr.fiq_disable(),
        psr.with_zero(b).state_bit() == psr.state_bit(),
        psr.with_zero(b).mode_bits() == psr.mode_bits(),
        psr.with_carry(b).carry() == b,
        psr.with_carry(b).negative() == psr.negative(),
        psr.with_carry(b).zero() == psr.zero(),
        psr.with_carry(b).overflow() == psr.overflow(),
        psr.with_carry(b).irq_disable() == psr.irq_disable(),
        psr.with_carry(b).fiq_disable() == psr.fiq_disable(),
        psr.with_carry(b).state_bit() == psr.state_bit(),
        psr.with_carry(b).mode_bits() == psr.mode_bits(),
        psr.with_overflow(b).overflow() == b,
        psr.with_overflow(b).negative() == psr.negative(),
        psr.with_overflow(b).zero() == psr.zero(),
        psr.with_overflow(b).carry() == psr.carry(),
        psr.with_overflow(b).irq_disable() == psr.irq_disable(),
        psr.with_overflow(b).fiq_disable() == psr.fiq_disable(),
        psr.with_overflow(b).state_bit() == psr.state_bit(),
        psr.with_overflow(b).mode_bits() == psr.mode_bits(),
        psr.with_irq_disable(b).irq_disable() == b,
        psr.with_irq_disable(b).negative() == psr.negative(),
        psr.with_irq_disable(b).zero() == psr.zero(),
        psr.with_irq_disable(b).carry() == psr.carry(),
        psr.with_irq_disable(b).overflow() == psr.overflow(),
        psr.with_irq_disable(b).fiq_disable() == psr.fiq_disable(),
        psr.with_irq_disable(b).state_bit() == psr.state_bit(),
        psr.with_irq_disable(b).mode_bits() == psr.mode_bits(),
        psr.with_fiq_disable(b).fiq_disable() == b,
        psr.with_fiq_disable(b).negative() == psr.negative(),
        psr.with_fiq_disable(b).zero() == psr.zero(),
        psr.with_fiq_disable(b).carry() == psr.carry(),
        psr.with_fiq_disable(b).overflow() == psr.overflow(),
        psr.with_fiq_disable(b).irq_disable() == psr.irq_disable(),
        psr.with_fiq_disable(b).state_bit() == psr.state_bit(),
        psr.with_fiq_disable(b).mode_bits() == psr.mode_bits(),
        psr.with_state_bit(b).state_bit() == b,
        psr.with_state_bit(b).negative() == psr.negative(),
        psr.with_state_bit(b).zero() == psr.zero(),
        psr.with_state_bit(b).carry() == psr.carry(),
        psr.with_state_bit(b).overflow() == psr.overflow(),
        psr.with_state_bit(b).irq_disable() == psr.irq_disable(),
        psr.with_state_bit(b).fiq_disable() == psr.fiq_disable(),
        psr.with_state_bit(b).mode_bits() == psr.mode_bits(),
{
}

/// Setting a flag sets it and leaves every other field as it was.
pub proof fn lemma_setters_touch_one_field(psr: ProgramStatusRegister, b: bool)
    ensures
        psr.with_negative(b).negative() == b,
        psr.with_zero(b).zero() == b,
        psr.with_carry(b).carry() == b,
        psr.with_overflow(b).overflow() == b,
        psr.with_irq_disable(b).irq_disable() == b,
        psr.with_fiq_disable(b).fiq_disable() == b,
        psr.with_state_bit(b).state_bit() == b,
        psr.with_negative(b).with_negative(psr.negative()) == psr,
        psr.with_zero(b).with_zero(psr.zero()) == psr,
        psr.with_carry(b).with_carry(psr.carry()) == psr,
        psr.with_overflow(b).with_overflow(psr.overflow()) == psr,
        psr.with_irq_disable(b).with_irq_disable(psr.irq_disable()) == psr,
        psr.with_fiq_disable(b).with_fiq_disable(psr.fiq_disable()) == psr,
        psr.with_state_bit(b).with_state_bit(psr.state_bit()) == psr,
{
}

/// Setting a condition flag rewrites exactly that flag's bit of the packed word.
pub proof fn lemma_set_condition_flag_packed(psr: ProgramStatusRegister, b: bool)
    ensures
        psr.with_negative(b).packed() == (psr.packed() & !0x8000u32) | (if b {
            0x8000u32
        } else {
            0u32
        }),
        psr.with_zero(b).packed() == (psr.packed() & !0x4000u32) | (if b {
            0x4000u32
        } else {
            0u32
        }),
        psr.with_carry(b).packed() == (psr.packed() & !0x2000u32) | (if b {
            0x2000u32
        } else {
            0u32
        }),
        psr.with_overflow(b).packed() == (psr.packed() & !0x1000u32) | (if b {
            0x1000u32
        } else {
            0u32
        }),
{
    lemma_packed_word_bits(
        psr.mode_bits(),
        psr.negative(),
        psr.zero(),
        psr.carry(),
        psr.overflow(),
        psr.irq_disable(),
        psr.fiq_disable(),
        psr.state_bit(),
        b,
    );
}

impl Default for ProgramStatusRegister {
    fn default() -> (r: Self)
        ensures
            r == ProgramStatusRegister::reset_value(),
            !r.negative(),
            !r.zero(),
            !r.carry(),
            !r.overflow(),
            !r.irq_disable(),
            !r.fiq_disable(),
            !r.state_bit(),
            r.mode_bits() == 0,
            r.packed() == 0,
    {
        proof {
            lemma_reset_value_fields();
        }
        ProgramStatusRegister {
            negative: false,
            zero: false,
            carry: false,
            overflow: false,
            irq_disable: false,
            fiq_disable: false,
            state_bit: false,
            mode_bits: 0,
        }
    }
}

impl From<ProgramStatusRegister> for u32 {
    fn from(psr: ProgramStatusRegister) -> (value: u32) {
        let mut value = psr.mode_bits as u32;
        if psr.state_bit {
            value |= 0x20;
        }
        if psr.fiq_disable {
            value |= 0x40;
        }
        if psr.irq_disable {
            value |= 0x80;
        }
        if psr.overflow {
            value |= 0x1000;
        }
        if psr.carry {
            value |= 0x2000;
        }
        if psr.zero {
            value |= 0x4000;
        }
        if psr.negative {
            value |= 0x8000;
        }
        assert(forall|v: u32| #[trigger] (v | 0u32) == v) by (bit_vector);
        value
    }
}

impl vstd::std_specs::convert::FromSpecImpl<ProgramStatusRegister> for u32 {
    open spec fn obeys_from_spec() -> bool {
        true
    }

    open spec fn from_spec(psr: ProgramStatusRegister) -> u32 {
        psr.packed()
    }
}

} // verus!
