use crate::hardware::apu::APU;
use crate::hardware::cart::{Cart, CartView};
use crate::hardware::ppu::PPU;
use crate::hardware::ram::{spec_mirror, WorkMemory, RAM_SIZE};
use vstd::prelude::*;

verus! {

/// Last address of the work-memory range (the memory and its three mirrors).
pub const RAM_END: u16 = 0x1FFF;

/// Last address of the picture unit's register range.
pub const PPU_END: u16 = 0x3FFF;

/// Last address of the audio and I/O unit's register range.
pub const APU_END: u16 = 0x401F;

/// The byte read from the cartridge range while no cartridge is loaded.
pub const NO_CART_VALUE: u8 = 0;

/// The picture unit's register that `address` selects: its eight registers
/// repeat through the whole range.
pub open spec fn spec_ppu_register(address: u16) -> u16 {
    (0x2000 + address % 8) as u16
}

/// The memory bus: the one place where an address is decoded and handed to
/// the device behind it.
pub struct Bus {
    mem: WorkMemory,
    ppu: PPU,
    apu: APU,
    cart: Option<Cart>,
}

/// What the bus joins: the work memory's cells, the two register units, and
/// the cartridge, if one is loaded.
pub struct BusView {
    pub ram: Seq<u8>,
    pub ppu: PPU,
    pub apu: APU,
    pub cart: Option<CartView>,
}

impl BusView {
    pub open spec fn wf(self) -> bool {
        self.ram.len() == RAM_SIZE
    }

    /// The byte seen at `address`: a cell of work memory, what the picture
    /// unit gives for the register that the address folds onto, what the
    /// audio unit gives for the address itself, or a byte of the cartridge.
    pub open spec fn spec_read(self, address: u16) -> u8 {
        if address <= RAM_END {
            self.ram[spec_mirror(address)]
        } else if address <= PPU_END {
            self.ppu.spec_read(spec_ppu_register(address))
        } else if address <= APU_END {
            self.apu.spec_read(address)
        } else {
            match self.cart {
                Some(cart) => cart.spec_read(address),
                None => NO_CART_VALUE,
            }
        }
    }

    /// The bus after `value` was written to `address`: a store in the
    /// work-memory range lands on the mirrored cell, one in the picture
    /// unit's range goes to the register that the address folds onto, one
    /// in the audio unit's range goes to that unit under the address itself,
    /// and one in the cartridge range changes nothing.
    pub open spec fn spec_write(self, address: u16, value: u8) -> BusView {
        if address <= RAM_END {
            BusView { ram: self.ram.update(spec_mirror(address), value), ..self }
        } else if address <= PPU_END {
            BusView { ppu: self.ppu.spec_write(spec_ppu_register(address), value), ..self }
        } else if address <= APU_END {
            BusView { apu: self.apu.spec_write(address, value), ..self }
        } else {
            self
        }
    }
}

impl View for Bus {
    type V = BusView;

    closed spec fn view(&self) -> BusView {
        BusView {
            ram: self.mem@,
            ppu: self.ppu,
            apu: self.apu,
            cart: match self.cart {
                Some(cart) => Some(cart@),
                None => None,
            },
        }
    }
}

/// Folds an address of the picture unit's range onto one of its eight
/// registers.
pub fn ppu_register(address: u16) -> (register: u16)
    ensures
        register == spec_ppu_register(address),
        0x2000 <= register <= 0x2007,
{
    assert(address & 0x0007 == address % 8) by (bit_vector);
    0x2000 + (address & 0x0007)
}

impl Bus {
    /// The bus always sees a full work memory.
    pub proof fn lemma_wf(&self)
        ensures
            self@.wf(),
    {
        self.mem.lemma_len();
    }

    /// A bus that joins the two register units handed in, with cleared work
    /// memory and no cartridge.
    pub fn new(ppu: PPU, apu: APU) -> (bus: Self)
        ensures
            bus@.wf(),
            bus@.ppu == ppu,
            bus@.apu == apu,
            bus@.cart is None,
            forall|i: int| 0 <= i < RAM_SIZE ==> bus@.ram[i] == 0,
    {
        Self { mem: WorkMemory::new(), ppu, apu, cart: None }
    }

    /// The picture unit on the bus.
    pub fn ppu(&self) -> (ppu: &PPU)
        ensures
            *ppu == self@.ppu,
    {
        &self.ppu
    }

    /// The audio and I/O unit on the bus.
    pub fn apu(&self) -> (apu: &APU)
        ensures
            *apu == self@.apu,
    {
        &self.apu
    }

    /// Plugs in `cart`, replacing any cartridge loaded before. Work memory
    /// and the register units are untouched.
    pub fn load_cart(&mut self, cart: Cart)
        ensures
            final(self)@ == (BusView { cart: Some(cart@), ..old(self)@ }),
    {
        self.cart = Some(cart);
    }

    /// Reads the byte at `address` from the device that the address decodes
    /// to.
    pub fn read(&self, address: u16) -> (value: u8)
        ensures
            value == self@.spec_read(address),
    {
        if address <= RAM_END {
            assert(address & 0x07FF == address % 0x800) by (bit_vector);
            self.mem.read(address & 0x07FF)
        } else if address <= PPU_END {
            self.ppu.read(ppu_register(address))
        } else if address <= APU_END {
            self.apu.read(address)
        } else {
            match &self.cart {
                Some(cart) => cart.read(address),
                None => NO_CART_VALUE,
            }
        }
    }

    /// Writes `value` at `address` to the device that the address decodes
    /// to.
    pub fn write(&mut self, address: u16, value: u8)
        ensures
            final(self)@ == old(self)@.spec_write(address, value),
    {
        if address <= RAM_END {
            assert(address & 0x07FF == address % 0x800) by (bit_vector);
            self.mem.write(address & 0x07FF, value);
        } else if address <= PPU_END {
            self.ppu.write(ppu_register(address), value);
        } else if address <= APU_END {
            self.apu.write(address, value);
        } else {
            if let Some(cart) = &self.cart {
                cart.write(address, value);
            }
        }
    }
}

/// A byte written anywhere in the work-memory range is read back through
/// the written address and through each of its mirror images.
pub proof fn lemma_ram_mirrors(bus: BusView, address: u16, image: u16, value: u8)
    requires
        bus.wf(),
        address <= RAM_END,
        image <= RAM_END,
        spec_mirror(image) == spec_mirror(address),
    ensures
        bus.spec_write(address, value).spec_read(image) == value,
{
}

/// A store changes what is read at the cell it lands on and at no other
/// address, in work memory or outside it.
pub proof fn lemma_write_frame(bus: BusView, address: u16, other: u16, value: u8)
    requires
        bus.wf(),
        other > RAM_END || address > RAM_END || spec_mirror(other) != spec_mirror(address),
    ensures
        bus.spec_write(address, value).spec_read(other) == bus.spec_read(other),
        bus.spec_write(address, value).wf(),
{
    let after = bus.spec_write(address, value);
    bus.ppu.lemma_spec_read(spec_ppu_register(other));
    after.ppu.lemma_spec_read(spec_ppu_register(other));
    bus.apu.lemma_spec_read(other);
    after.apu.lemma_spec_read(other);
}

/// Both register ranges read as zero, whatever was stored there.
pub proof fn lemma_registers_read_zero(bus: BusView, address: u16)
    requires
        RAM_END < address <= APU_END,
    ensures
        bus.spec_read(address) == 0,
{
    bus.ppu.lemma_spec_read(spec_ppu_register(address));
    bus.apu.lemma_spec_read(address);
}

} // verus!
