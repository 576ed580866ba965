use vstd::prelude::*;

verus! {

/// One bit of the processor status register.
#[derive(Clone, Copy, Debug, PartialEq, Eq, Structural)]
pub enum Flag {
    Carry,
    Zero,
    Interrupt,
    Decimal,
    Break,
    /// Wired high: set by every reset and never cleared by an instruction.
    Unused,
    Overflow,
    Negative,
}

/// The bit that `flag` occupies in the status byte.
pub open spec fn spec_mask(flag: Flag) -> u8 {
    match flag {
        Flag::Carry => 0x01,
        Flag::Zero => 0x02,
        Flag::Interrupt => 0x04,
        Flag::Decimal => 0x08,
        Flag::Break => 0x10,
        Flag::Unused => 0x20,
        Flag::Overflow => 0x40,
        Flag::Negative => 0x80,
    }
}

/// Whether `flag` is raised in the status byte `bits`.
pub open spec fn spec_contains(bits: u8, flag: Flag) -> bool {
    (bits / spec_mask(flag)) % 2 == 1
}

/// The status byte `bits` with `flag` raised or lowered: the flag's bit is
/// added where it has to rise, taken away where it has to fall, and the
/// byte is left alone where the flag already stands as asked.
pub open spec fn spec_set(bits: u8, flag: Flag, on: bool) -> u8 {
    if spec_contains(bits, flag) == on {
        bits
    } else if on {
        (bits + spec_mask(flag)) as u8
    } else {
        (bits - spec_mask(flag)) as u8
    }
}

/// A flag's mask is a single bit.
pub open spec fn spec_single_bit(mask: u8) -> bool {
    mask == 1 || mask == 2 || mask == 4 || mask == 8 || mask == 16 || mask == 32 || mask == 64
        || mask == 128
}

/// The status byte after a register took the value `number`: Negative
/// follows bit 7 of the value, Zero says whether the value is zero.
pub open spec fn spec_upd_nz(bits: u8, number: u8) -> u8 {
    spec_set(spec_set(bits, Flag::Negative, number >= 0x80), Flag::Zero, number == 0)
}

/// The processor status register.
#[derive(Clone, Copy, Debug, PartialEq, Eq, Structural)]
pub struct Status {
    bits: u8,
}

impl View for Status {
    type V = u8;

    closed spec fn view(&self) -> u8 {
        self.bits
    }
}

impl Flag {
    /// The bit that this flag occupies in the status byte.
    pub fn mask(self) -> (mask: u8)
        ensures
            mask == spec_mask(self),
    {
        match self {
            Flag::Carry => 0x01,
            Flag::Zero => 0x02,
            Flag::Interrupt => 0x04,
            Flag::Decimal => 0x08,
            Flag::Break => 0x10,
            Flag::Unused => 0x20,
            Flag::Overflow => 0x40,
            Flag::Negative => 0x80,
        }
    }
}

impl Status {
    /// A status register with every flag lowered.
    pub fn empty() -> (status: Self)
        ensures
            status@ == 0,
    {
        Self { bits: 0 }
    }

    /// The register as one byte.
    pub fn bits(&self) -> (bits: u8)
        ensures
            bits == self@,
    {
        self.bits
    }

    /// Whether `flag` is raised.
    pub fn contains(&self, flag: Flag) -> (raised: bool)
        ensures
            raised == spec_contains(self@, flag),
    {
        let mask = flag.mask();
        let bits = self.bits;
        assert((bits & mask == mask) == ((bits / mask) % 2 == 1)) by (bit_vector)
            requires
                spec_single_bit(mask),
        ;
        self.bits & mask == mask
    }

    /// Raises `flag` and leaves the others as they were.
    pub fn insert(&mut self, flag: Flag)
        ensures
            final(self)@ == spec_set(old(self)@, flag, true),
    {
        let mask = flag.mask();
        let bits = self.bits;
        assert(bits | mask == if (bits / mask) % 2 == 1 {
            bits
        } else {
            (bits + mask) as u8
        }) by (bit_vector)
            requires
                spec_single_bit(mask),
        ;
        self.bits = bits | mask;
    }

    /// Lowers `flag` and leaves the others as they were.
    pub fn remove(&mut self, flag: Flag)
        ensures
            final(self)@ == spec_set(old(self)@, flag, false),
    {
        let mask = flag.mask();
        let bits = self.bits;
        assert(bits & !mask == if (bits / mask) % 2 == 1 {
            (bits - mask) as u8
        } else {
            bits
        }) by (bit_vector)
            requires
                spec_single_bit(mask),
        ;
        self.bits = bits & !mask;
    }

    /// Raises `flag` if `on`, lowers it otherwise.
    pub fn set(&mut self, flag: Flag, on: bool)
        ensures
            final(self)@ == spec_set(old(self)@, flag, on),
    {
        if on {
            self.insert(flag);
        } else {
            self.remove(flag);
        }
    }
}

/// Setting a flag makes it read as set, and no other flag moves.
pub proof fn lemma_set_contains(bits: u8, flag: Flag, on: bool, other: Flag)
    ensures
        spec_contains(spec_set(bits, flag, on), flag) == on,
        other != flag ==> spec_contains(spec_set(bits, flag, on), other) == spec_contains(
            bits,
            other,
        ),
{
    let m = spec_mask(flag);
    let o = spec_mask(other);
    assert(spec_single_bit(m) && spec_single_bit(o));
    assert((bits / m) % 2 == 1 ==> bits >= m && ((bits - m) as u8 / m) % 2 == 0) by (bit_vector)
        requires
            spec_single_bit(m),
    ;
    assert((bits / m) % 2 == 0 ==> bits + m <= 255 && ((bits + m) as u8 / m) % 2 == 1)
        by (bit_vector)
        requires
            spec_single_bit(m),
    ;
    if other != flag {
        assert(o != m);
        assert((bits / m) % 2 == 1 ==> ((bits - m) as u8 / o) % 2 == (bits / o) % 2)
            by (bit_vector)
            requires
                spec_single_bit(m),
                spec_single_bit(o),
                o != m,
        ;
        assert((bits / m) % 2 == 0 ==> ((bits + m) as u8 / o) % 2 == (bits / o) % 2)
            by (bit_vector)
            requires
                spec_single_bit(m),
                spec_single_bit(o),
                o != m,
        ;
    }
}

/// After a load of `number`, Zero is raised exactly for zero, Negative
/// exactly for a value with bit 7 set, and the six other flags keep their
/// value.
pub proof fn lemma_upd_nz(bits: u8, number: u8, other: Flag)
    ensures
        spec_contains(spec_upd_nz(bits, number), Flag::Zero) == (number == 0),
        spec_contains(spec_upd_nz(bits, number), Flag::Negative) == (number >= 0x80),
        other != Flag::Zero && other != Flag::Negative ==> spec_contains(
            spec_upd_nz(bits, number),
            other,
        ) == spec_contains(bits, other),
{
    let negative = number >= 0x80;
    let mid = spec_set(bits, Flag::Negative, negative);
    lemma_set_contains(bits, Flag::Negative, negative, other);
    lemma_set_contains(bits, Flag::Negative, negative, Flag::Negative);
    lemma_set_contains(mid, Flag::Zero, number == 0, Flag::Negative);
    lemma_set_contains(mid, Flag::Zero, number == 0, other);
}

} // verus!
