use vstd::prelude::*;

verus! {

/// The five interrupt sources, in priority order.
#[derive(Debug, Clone, Copy, PartialEq, Eq, Structural)]
pub enum Interrupt {
    VBlank,
    Stat,
    Timer,
    Serial,
    Joypad,
}

impl Interrupt {
    /// Position of this source's bit in the enable and flag registers.
    pub open spec fn bit_index(self) -> nat {
        match self {
            Interrupt::VBlank => 0,
            Interrupt::Stat => 1,
            Interrupt::Timer => 2,
            Interrupt::Serial => 3,
            Interrupt::Joypad => 4,
        }
    }

    /// The mask with only this source's bit set.
    pub open spec fn mask_spec(self) -> u8 {
        match self {
            Interrupt::VBlank => 0x01,
            Interrupt::Stat => 0x02,
            Interrupt::Timer => 0x04,
            Interrupt::Serial => 0x08,
            Interrupt::Joypad => 0x10,
        }
    }

    /// The address execution jumps to when this source is serviced: the
    /// vectors start at 0x0040 and lie eight bytes apart.
    pub open spec fn vector_spec(self) -> u16 {
        (0x0040 + 8 * self.bit_index()) as u16
    }

    /// The mask with only this source's bit set.
    pub fn mask(self) -> (m: u8)
        ensures
            m == self.mask_spec(),
    {
        match self {
            Interrupt::VBlank => 0x01,
            Interrupt::Stat => 0x02,
            Interrupt::Timer => 0x04,
            Interrupt::Serial => 0x08,
            Interrupt::Joypad => 0x10,
        }
    }

    /// The address execution jumps to when this source is serviced.
    pub fn vector(self) -> (v: u16)
        ensures
            v == self.vector_spec(),
    {
        match self {
            Interrupt::VBlank => 0x0040,
            Interrupt::Stat => 0x0048,
            Interrupt::Timer => 0x0050,
            Interrupt::Serial => 0x0058,
            Interrupt::Joypad => 0x0060,
        }
    }
}

/// The bits of the enable and flag registers that stand for a source.
pub const SOURCES: u8 = 0x1F;

/// Whether the bit of `source` is set in a register.
pub open spec fn has(register: u8, source: Interrupt) -> bool {
    match source {
        Interrupt::VBlank => register % 2 == 1,
        Interrupt::Stat => (register / 2) % 2 == 1,
        Interrupt::Timer => (register / 4) % 2 == 1,
        Interrupt::Serial => (register / 8) % 2 == 1,
        Interrupt::Joypad => (register / 16) % 2 == 1,
    }
}

/// The register with the bit of `source` set.
pub open spec fn with_source(register: u8, source: Interrupt) -> u8 {
    if has(register, source) {
        register
    } else {
        (register + source.mask_spec()) as u8
    }
}

/// The register with the bit of `source` clear.
pub open spec fn without_source(register: u8, source: Interrupt) -> u8 {
    if has(register, source) {
        (register - source.mask_spec()) as u8
    } else {
        register
    }
}

/// The sources that are both enabled and requested, as a mask: the bits
/// that are set in both registers, of the five that stand for a source.
pub open spec fn pending_spec(enable: u8, flags: u8) -> u8 {
    enable & flags & SOURCES
}

/// The source that is served first among those in `pending`: the one with
/// the lowest bit.
pub open spec fn first_pending_spec(pending: u8) -> Option<Interrupt> {
    if has(pending, Interrupt::VBlank) {
        Some(Interrupt::VBlank)
    } else if has(pending, Interrupt::Stat) {
        Some(Interrupt::Stat)
    } else if has(pending, Interrupt::Timer) {
        Some(Interrupt::Timer)
    } else if has(pending, Interrupt::Serial) {
        Some(Interrupt::Serial)
    } else if has(pending, Interrupt::Joypad) {
        Some(Interrupt::Joypad)
    } else {
        None
    }
}

proof fn lemma_bit_tests(register: u8)
    by (bit_vector)
    ensures
        (register & 0x01 != 0) == ((register / 0x01) % 2 == 1),
        (register & 0x02 != 0) == ((register / 0x02) % 2 == 1),
        (register & 0x04 != 0) == ((register / 0x04) % 2 == 1),
        (register & 0x08 != 0) == ((register / 0x08) % 2 == 1),
        (register & 0x10 != 0) == ((register / 0x10) % 2 == 1),
        register & 0x1F == 0 <==> register & 0x01 == 0 && register & 0x02 == 0 && register & 0x04
            == 0 && register & 0x08 == 0 && register & 0x10 == 0,
{
}

proof fn lemma_set_and_clear(register: u8, mask: u8)
    by (bit_vector)
    requires
        mask == 0x01 || mask == 0x02 || mask == 0x04 || mask == 0x08 || mask == 0x10,
    ensures
        register & mask != 0 ==> register | mask == register && register & !mask == register
            - mask,
        register & mask == 0 ==> register | mask == register + mask && register & !mask
            == register,
{
}

proof fn lemma_both(enable: u8, flags: u8, mask: u8)
    by (bit_vector)
    requires
        mask == 0x01 || mask == 0x02 || mask == 0x04 || mask == 0x08 || mask == 0x10,
    ensures
        ((enable & flags & 0x1F) & mask != 0) == (enable & mask != 0 && flags & mask != 0),
{
}

/// The bit of a source is set exactly when the register and the mask of
/// the source have a bit in common; setting and clearing it are the
/// bitwise operations with the mask.
pub proof fn lemma_has(register: u8, source: Interrupt)
    ensures
        has(register, source) == (register & source.mask_spec() != 0),
        with_source(register, source) == register | source.mask_spec(),
        without_source(register, source) == register & !source.mask_spec(),
{
    lemma_bit_tests(register);
    lemma_set_and_clear(register, source.mask_spec());
}

/// A source is pending exactly when it is both enabled and requested.
pub proof fn lemma_pending(enable: u8, flags: u8, source: Interrupt)
    ensures
        has(pending_spec(enable, flags), source) == (has(enable, source) && has(flags, source)),
{
    lemma_has(pending_spec(enable, flags), source);
    lemma_has(enable, source);
    lemma_has(flags, source);
    lemma_both(enable, flags, source.mask_spec());
}

/// A source is served exactly when one is pending. The source served is
/// pending itself and no source above it in priority is.
pub proof fn lemma_first_pending(pending: u8)
    ensures
        first_pending_spec(pending) is None <==> pending & SOURCES == 0,
        first_pending_spec(pending) matches Some(source) ==> has(pending, source),
        forall|other: Interrupt|
            first_pending_spec(pending) matches Some(source) && other.bit_index()
                < source.bit_index() ==> !#[trigger] has(pending, other),
{
    lemma_bit_tests(pending);
}

/// The sources that are both enabled and requested, as a mask.
pub fn pending(enable: u8, flags: u8) -> (mask: u8)
    ensures
        mask == pending_spec(enable, flags),
{
    enable & flags & SOURCES
}

/// The source that is served first among those in `pending`.
pub fn first_pending(pending: u8) -> (source: Option<Interrupt>)
    ensures
        source == first_pending_spec(pending),
{
    proof {
        lemma_bit_tests(pending);
    }
    if pending & 0x01 != 0 {
        Some(Interrupt::VBlank)
    } else if pending & 0x02 != 0 {
        Some(Interrupt::Stat)
    } else if pending & 0x04 != 0 {
        Some(Interrupt::Timer)
    } else if pending & 0x08 != 0 {
        Some(Interrupt::Serial)
    } else if pending & 0x10 != 0 {
        Some(Interrupt::Joypad)
    } else {
        None
    }
}

/// Adds the request of `source` to the interrupt flags.
pub fn raised(flags: u8, source: Interrupt) -> (set: u8)
    ensures
        set == with_source(flags, source),
{
    proof {
        lemma_has(flags, source);
    }
    flags | source.mask()
}

/// Takes the request of `source` back.
pub fn acknowledged(flags: u8, source: Interrupt) -> (cleared: u8)
    ensures
        cleared == without_source(flags, source),
{
    proof {
        lemma_has(flags, source);
    }
    flags & !source.mask()
}

} // verus!
