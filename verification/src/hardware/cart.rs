use crate::error::RustNesError;
use crate::header::{has_signature, spec_from_bytes, NESHeader, HEADER_LEN};
use vstd::prelude::*;
use vstd::slice::{slice_subrange, slice_to_vec};

verus! {

/// First bus address of the window that program storage is mapped into.
pub const CART_BASE: u16 = 0x8000;

/// The byte that a read outside program storage yields.
pub const CART_OPEN_VALUE: u8 = 0;

/// A cartridge: its decoded header and its program storage.
pub struct Cart {
    header: NESHeader,
    data: Vec<u8>,
}

/// What a cartridge holds, as plain values.
pub struct CartView {
    pub header: NESHeader,
    pub data: Seq<u8>,
}

impl CartView {
    /// Whether `address` lands on a stored byte: at or above the window's
    /// base and within the stored length.
    pub open spec fn maps(self, address: u16) -> bool {
        address >= CART_BASE && address - CART_BASE < self.data.len()
    }

    /// The byte seen at `address`: the stored one where the address is
    /// mapped, `CART_OPEN_VALUE` everywhere else.
    pub open spec fn spec_read(self, address: u16) -> u8 {
        if self.maps(address) {
            self.data[address - CART_BASE]
        } else {
            CART_OPEN_VALUE
        }
    }
}

impl View for Cart {
    type V = CartView;

    closed spec fn view(&self) -> CartView {
        CartView { header: self.header, data: self.data@ }
    }
}

impl Cart {
    /// A cartridge with the given header and a copy of `data` as its program
    /// storage.
    pub fn new(header: NESHeader, data: &[u8]) -> (cart: Self)
        ensures
            cart@.header == header,
            cart@.data == data@,
    {
        Self { header, data: slice_to_vec(data) }
    }

    /// Builds a cartridge from a whole image: the header at its start and,
    /// behind it, the program storage.
    ///
    /// An image that is shorter than a header or does not start with the
    /// signature is refused with `InvalidHeader`; every other image gives a
    /// cartridge.
    pub fn from_image(image: &[u8]) -> (result: Result<Self, RustNesError>)
        ensures
            result is Ok <==> image@.len() >= HEADER_LEN && has_signature(image@),
            result is Err ==> result->Err_0 == RustNesError::InvalidHeader,
            result is Ok ==> Some(result->Ok_0@.header) == spec_from_bytes(image@)
                && result->Ok_0@.data == image@.subrange(HEADER_LEN as int, image@.len() as int),
    {
        if image.len() < HEADER_LEN {
            return Err(RustNesError::InvalidHeader);
        }
        match NESHeader::from_bytes(image) {
            Some(header) => Ok(Self::new(header, slice_subrange(image, HEADER_LEN, image.len()))),
            None => Err(RustNesError::InvalidHeader),
        }
    }

    /// The header the cartridge was built with.
    pub fn header(&self) -> (header: &NESHeader)
        ensures
            *header == self@.header,
    {
        &self.header
    }

    /// Reads the byte mapped at `address`. An address below the window or
    /// past the end of storage is not a fault: it reads as `CART_OPEN_VALUE`.
    pub fn read(&self, address: u16) -> (value: u8)
        ensures
            value == self@.spec_read(address),
    {
        if address < CART_BASE {
            return CART_OPEN_VALUE;
        }
        let index: usize = (address - CART_BASE) as usize;
        if index < self.data.len() {
            self.data[index]
        } else {
            CART_OPEN_VALUE
        }
    }

    /// Writes to the cartridge. Program storage is read-only and there are no
    /// mapper registers, so the value is dropped; the shared borrow rules out
    /// any change.
    pub fn write(&self, address: u16, value: u8) {
    }
}

} // verus!
