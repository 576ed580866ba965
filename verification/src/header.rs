use vstd::arithmetic::power2::pow2;
use vstd::bits::{lemma_u64_pow2_no_overflow, lemma_u64_shl_is_mul};
use vstd::prelude::*;

verus! {

/// How the two nametables are laid out in picture memory.
#[derive(Clone, Copy, Debug, PartialEq, Eq, Structural)]
pub enum NameTableLayout {
    Vertical,
    Horizontal,
}

/// The console variant a cartridge was built for.
///
/// `VsSystem` carries the two nibbles of header byte 13, the low one first,
/// each as a number below 16; `Extended` carries its low nibble.
#[derive(Clone, Copy, Debug, PartialEq, Eq, Structural)]
pub enum ConsoleType {
    NESFami,
    VsSystem(u8, u8),
    Playchoice,
    Extended(u8),
}

/// The video timing the cartridge expects.
#[derive(Clone, Copy, Debug, PartialEq, Eq, Structural)]
pub enum TimingMode {
    NTSC,
    PAL,
    Multi,
    Dendy,
}

/// The decoded 16-byte cartridge header.
///
/// `prg_size` and `chr_size` count 16 KiB and 8 KiB units in the plain
/// encoding, and bytes in the exponent encoding; the latter can reach
/// `7 * 2^63`, which is why both are 128 bits wide.
#[derive(Clone, Copy, Debug, PartialEq, Eq, Structural)]
pub struct NESHeader {
    pub prg_size: u128,
    pub chr_size: u128,
    pub mapper_number: usize,
    pub nes2: bool,
    pub battery: bool,
    pub trainer: bool,
    pub alt_nametables: bool,
    pub nametable_layout: NameTableLayout,
    pub console_type: ConsoleType,
    pub timing_mode: TimingMode,
}

/// Number of bytes a header occupies at the start of an image.
pub const HEADER_LEN: usize = 16;

/// The nibble value that switches a size field to the exponent encoding.
pub const EXPONENT_SENTINEL: u8 = 0x0F;

/// The image starts with `N`, `E`, `S`, 0x1A.
pub open spec fn has_signature(bytes: Seq<u8>) -> bool {
    &&& bytes.len() >= 4
    &&& bytes[0] == 0x4E
    &&& bytes[1] == 0x45
    &&& bytes[2] == 0x53
    &&& bytes[3] == 0x1A
}

/// The size that a size byte `low` and its companion nibble `high` denote.
///
/// With the sentinel in `high`, the top six bits of `low` are an exponent and
/// its bottom two bits select an odd multiplier: `2^(low / 4) * ((low % 4) * 2 + 1)`.
/// Otherwise the two form a 12-bit number with `high` on top.
pub open spec fn spec_rom_size(low: u8, high: u8) -> nat {
    if high == EXPONENT_SENTINEL {
        pow2((low / 4) as nat) * (((low % 4) * 2 + 1) as nat)
    } else {
        (high as nat) * 256 + (low as nat)
    }
}

/// The 12-bit mapper number spread over bytes 6, 7 and 8: the high nibble of
/// byte 6 at the bottom, the high nibble of byte 7 in the middle, the low
/// nibble of byte 8 on top.
pub open spec fn spec_mapper_number(b6: u8, b7: u8, b8: u8) -> nat {
    (b6 / 16 + (b7 / 16) * 16 + (b8 % 16) * 256) as nat
}

/// The lower four bits of `byte`, as a number below 16.
pub open spec fn spec_low_nibble(byte: u8) -> u8 {
    byte % 16
}

/// The upper four bits of `byte`, as a number below 16.
pub open spec fn spec_high_nibble(byte: u8) -> u8 {
    byte / 16
}

/// Whether `byte` has the bit of the given weight (a power of two) set.
pub open spec fn spec_has_bit(byte: u8, weight: nat) -> bool
    recommends
        weight > 0,
{
    (byte as nat / weight) % 2 == 1
}

pub open spec fn spec_nametable_layout(b6: u8) -> NameTableLayout {
    if b6 % 2 == 0 {
        NameTableLayout::Vertical
    } else {
        NameTableLayout::Horizontal
    }
}

pub open spec fn spec_console_type(b7: u8, b13: u8) -> ConsoleType {
    if b7 % 4 == 0 {
        ConsoleType::NESFami
    } else if b7 % 4 == 1 {
        ConsoleType::VsSystem(spec_low_nibble(b13), spec_high_nibble(b13))
    } else if b7 % 4 == 2 {
        ConsoleType::Playchoice
    } else {
        ConsoleType::Extended(spec_low_nibble(b13))
    }
}

pub open spec fn spec_timing_mode(b12: u8) -> TimingMode {
    if b12 % 4 == 0 {
        TimingMode::NTSC
    } else if b12 % 4 == 1 {
        TimingMode::PAL
    } else if b12 % 4 == 2 {
        TimingMode::Multi
    } else {
        TimingMode::Dendy
    }
}

/// What a header decodes to: nothing without the signature, and otherwise
/// every field as a function of its header byte.
pub open spec fn spec_from_bytes(bytes: Seq<u8>) -> Option<NESHeader>
    recommends
        bytes.len() >= HEADER_LEN,
{
    if has_signature(bytes) {
        Some(
            NESHeader {
                prg_size: spec_rom_size(bytes[4], spec_low_nibble(bytes[9])) as u128,
                chr_size: spec_rom_size(bytes[5], spec_high_nibble(bytes[9])) as u128,
                mapper_number: spec_mapper_number(bytes[6], bytes[7], bytes[8]) as usize,
                nes2: spec_has_bit(bytes[7], 8) && !spec_has_bit(bytes[7], 4),
                battery: spec_has_bit(bytes[6], 2),
                trainer: spec_has_bit(bytes[6], 4),
                alt_nametables: spec_has_bit(bytes[6], 8),
                nametable_layout: spec_nametable_layout(bytes[6]),
                console_type: spec_console_type(bytes[7], bytes[13]),
                timing_mode: spec_timing_mode(bytes[12]),
            },
        )
    } else {
        None
    }
}

/// A size never exceeds `7 * 2^63`, so it fits the 128-bit fields with room
/// to spare.
pub proof fn lemma_rom_size_bound(low: u8, high: u8)
    ensures
        spec_rom_size(low, high) <= 7 * 0x8000_0000_0000_0000,
{
    if high == EXPONENT_SENTINEL {
        let e = (low / 4) as nat;
        let m = ((low % 4) * 2 + 1) as nat;
        lemma_u64_pow2_no_overflow(e);
        vstd::arithmetic::power2::lemma_pow2_strictly_increases(e, 64);
        vstd::arithmetic::power2::lemma2_to64();
        vstd::arithmetic::power2::lemma2_to64_rest();
        if e < 63 {
            vstd::arithmetic::power2::lemma_pow2_strictly_increases(e, 63);
        }
        assert(pow2(e) <= 0x8000_0000_0000_0000);
        assert(pow2(e) * m <= 7 * 0x8000_0000_0000_0000) by (nonlinear_arith)
            requires
                pow2(e) <= 0x8000_0000_0000_0000,
                m <= 7,
        ;
    }
}

/// Every payload of a console type is a 4-bit value.
pub proof fn lemma_console_payload_bound(b7: u8, b13: u8)
    ensures
        match spec_console_type(b7, b13) {
            ConsoleType::VsSystem(low, high) => low < 16 && high < 16,
            ConsoleType::Extended(low) => low < 16,
            _ => true,
        },
{
}

/// The mapper number is a 12-bit value.
pub proof fn lemma_mapper_number_bound(b6: u8, b7: u8, b8: u8)
    ensures
        spec_mapper_number(b6, b7, b8) < 4096,
{
}

/// Testing a byte against a one-bit mask reads that bit.
proof fn lemma_bits(byte: u8)
    ensures
        (byte & 2 == 2) == spec_has_bit(byte, 2),
        (byte & 4 == 4) == spec_has_bit(byte, 4),
        (byte & 8 == 8) == spec_has_bit(byte, 8),
{
    assert((byte & 2 == 2) == ((byte / 2) % 2 == 1)) by (bit_vector);
    assert((byte & 4 == 4) == ((byte / 4) % 2 == 1)) by (bit_vector);
    assert((byte & 8 == 8) == ((byte / 8) % 2 == 1)) by (bit_vector);
}

/// Decodes one size field.
fn rom_size(low: u8, high: u8) -> (size: u128)
    ensures
        size == spec_rom_size(low, high),
{
    if high == EXPONENT_SENTINEL {
        let exponent: u64 = (low >> 2) as u64;
        let multiplier: u128 = ((low & 3) as u128) * 2 + 1;
        proof {
            assert(low >> 2 == low / 4) by (bit_vector);
            assert(low & 3 == low % 4) by (bit_vector);
            lemma_u64_pow2_no_overflow(exponent as nat);
            lemma_u64_shl_is_mul(1u64, exponent);
        }
        let power: u64 = 1u64 << exponent;
        assert(power * multiplier <= 7 * 0xFFFF_FFFF_FFFF_FFFF) by (nonlinear_arith)
            requires
                power <= 0xFFFF_FFFF_FFFF_FFFF,
                multiplier <= 7,
        ;
        (power as u128) * multiplier
    } else {
        (high as u128) * 256 + (low as u128)
    }
}

/// Assembles the mapper number from its three nibbles.
fn mapper_number(b6: u8, b7: u8, b8: u8) -> (number: usize)
    ensures
        number == spec_mapper_number(b6, b7, b8),
{
    let low: usize = (b6 >> 4) as usize;
    let mid: usize = (b7 >> 4) as usize;
    let high: usize = (b8 & 0x0F) as usize;
    proof {
        assert(b6 >> 4 == b6 / 16) by (bit_vector);
        assert(b7 >> 4 == b7 / 16) by (bit_vector);
        assert(b8 & 0x0F == b8 % 16) by (bit_vector);
    }
    low + mid * 16 + high * 256
}

impl NESHeader {
    /// Decodes the header at the start of `bytes`.
    ///
    /// Returns `None` exactly when the signature is missing; otherwise every
    /// field is the one that `spec_from_bytes` gives.
    pub fn from_bytes(bytes: &[u8]) -> (header: Option<Self>)
        requires
            bytes@.len() >= HEADER_LEN,
        ensures
            header == spec_from_bytes(bytes@),
            header is Some <==> has_signature(bytes@),
    {
        if !(bytes[0] == 0x4E && bytes[1] == 0x45 && bytes[2] == 0x53 && bytes[3] == 0x1A) {
            return None;
        }
        let prg_size = rom_size(bytes[4], bytes[9] & 0x0F);
        let chr_size = rom_size(bytes[5], bytes[9] >> 4);
        let mapper_number = mapper_number(bytes[6], bytes[7], bytes[8]);
        let nes2 = (bytes[7] & 0x0C) == 0x08;
        let battery = bytes[6] & 2 == 2;
        let trainer = bytes[6] & 4 == 4;
        let alt_nametables = bytes[6] & 8 == 8;
        let b6 = bytes[6];
        let b7 = bytes[7];
        let b12 = bytes[12];
        let b13 = bytes[13];
        let b9 = bytes[9];
        proof {
            lemma_bits(b6);
            lemma_bits(b7);
            assert(b9 & 0x0F == b9 % 16 && b9 >> 4 == b9 / 16) by (bit_vector);
            assert(b7 & 0x0C == 0x08 <==> (b7 & 8 == 8 && b7 & 4 != 4)) by (bit_vector);
            assert(b6 & 1 == b6 % 2) by (bit_vector);
            assert(b7 & 3 == b7 % 4) by (bit_vector);
            assert(b12 & 3 == b12 % 4) by (bit_vector);
            assert(b13 & 0x0F == b13 % 16 && b13 >> 4 == b13 / 16) by (bit_vector);
        }
        let nametable_layout = if b6 & 1 == 0 {
            NameTableLayout::Vertical
        } else {
            NameTableLayout::Horizontal
        };
        let console_bits: u8 = b7 & 3;
        let console_type = if console_bits == 0 {
            ConsoleType::NESFami
        } else if console_bits == 1 {
            ConsoleType::VsSystem(b13 & 0x0F, b13 >> 4)
        } else if console_bits == 2 {
            ConsoleType::Playchoice
        } else {
            ConsoleType::Extended(b13 & 0x0F)
        };
        let timing_bits: u8 = b12 & 3;
        let timing_mode = if timing_bits == 0 {
            TimingMode::NTSC
        } else if timing_bits == 1 {
            TimingMode::PAL
        } else if timing_bits == 2 {
            TimingMode::Multi
        } else {
            TimingMode::Dendy
        };
        Some(
            Self {
                prg_size,
                chr_size,
                mapper_number,
                nes2,
                battery,
                trainer,
                alt_nametables,
                nametable_layout,
                console_type,
                timing_mode,
            },
        )
    }
}

/// Whether a header can be written down in the plain encoding: both sizes
/// below the sentinel range, a 12-bit mapper number, and console payloads of
/// four bits each.
pub open spec fn encodable(h: NESHeader) -> bool {
    &&& h.prg_size < 0xF00
    &&& h.chr_size < 0xF00
    &&& h.mapper_number < 4096
    &&& match h.console_type {
        ConsoleType::VsSystem(low, high) => low < 16 && high < 16,
        ConsoleType::Extended(low) => low < 16,
        _ => true,
    }
}

pub open spec fn spec_flag_bit(flag: bool) -> nat {
    if flag {
        1
    } else {
        0
    }
}

pub open spec fn spec_layout_bit(layout: NameTableLayout) -> nat {
    match layout {
        NameTableLayout::Vertical => 0,
        NameTableLayout::Horizontal => 1,
    }
}

pub open spec fn spec_console_bits(console: ConsoleType) -> nat {
    match console {
        ConsoleType::NESFami => 0,
        ConsoleType::VsSystem(_, _) => 1,
        ConsoleType::Playchoice => 2,
        ConsoleType::Extended(_) => 3,
    }
}

pub open spec fn spec_console_payload(console: ConsoleType) -> nat {
    match console {
        ConsoleType::VsSystem(low, high) => (low + high * 16) as nat,
        ConsoleType::Extended(low) => low as nat,
        _ => 0,
    }
}

pub open spec fn spec_timing_bits(timing: TimingMode) -> nat {
    match timing {
        TimingMode::NTSC => 0,
        TimingMode::PAL => 1,
        TimingMode::Multi => 2,
        TimingMode::Dendy => 3,
    }
}

/// The sixteen header bytes that describe `h` in the plain encoding, with
/// every bit that carries no field left clear.
pub open spec fn spec_header_bytes(h: NESHeader) -> Seq<u8>
    recommends
        encodable(h),
{
    seq![
        0x4Eu8,
        0x45u8,
        0x53u8,
        0x1Au8,
        (h.prg_size % 256) as u8,
        (h.chr_size % 256) as u8,
        ((h.mapper_number % 16) * 16 + spec_flag_bit(h.alt_nametables) * 8 + spec_flag_bit(
            h.trainer,
        ) * 4 + spec_flag_bit(h.battery) * 2 + spec_layout_bit(h.nametable_layout)) as u8,
        (((h.mapper_number / 16) % 16) * 16 + spec_flag_bit(h.nes2) * 8 + spec_console_bits(
            h.console_type,
        )) as u8,
        (h.mapper_number / 256) as u8,
        ((h.chr_size / 256) * 16 + h.prg_size / 256) as u8,
        0u8,
        0u8,
        spec_timing_bits(h.timing_mode) as u8,
        spec_console_payload(h.console_type) as u8,
        0u8,
        0u8,
    ]
}

/// A byte put together from a nibble and four single bits gives each of
/// them back.
proof fn lemma_split_flags(byte: u8, nibble: u8, b3: u8, b2: u8, b1: u8, b0: u8)
    requires
        byte == nibble * 16 + b3 * 8 + b2 * 4 + b1 * 2 + b0,
        nibble < 16,
        b3 <= 1,
        b2 <= 1,
        b1 <= 1,
        b0 <= 1,
    ensures
        byte / 16 == nibble,
        spec_has_bit(byte, 8) == (b3 == 1),
        spec_has_bit(byte, 4) == (b2 == 1),
        spec_has_bit(byte, 2) == (b1 == 1),
        byte % 2 == b0,
        byte % 4 == b1 * 2 + b0,
{
    assert({
        &&& byte / 16 == nibble
        &&& ((byte / 8) % 2 == 1) == (b3 == 1)
        &&& ((byte / 4) % 2 == 1) == (b2 == 1)
        &&& ((byte / 2) % 2 == 1) == (b1 == 1)
        &&& byte % 2 == b0
        &&& byte % 4 == b1 * 2 + b0
    }) by (bit_vector)
        requires
            byte == nibble * 16 + b3 * 8 + b2 * 4 + b1 * 2 + b0,
            nibble < 16,
            b3 <= 1,
            b2 <= 1,
            b1 <= 1,
            b0 <= 1,
    ;
}

/// A byte put together from two nibbles gives each of them back.
proof fn lemma_split_nibbles(byte: u8, high: u8, low: u8)
    requires
        byte == high * 16 + low,
        high < 16,
        low < 16,
    ensures
        spec_high_nibble(byte) == high,
        spec_low_nibble(byte) == low,
        byte - spec_low_nibble(byte) == high * 16,
{
    assert(byte / 16 == high && byte % 16 == low) by (bit_vector)
        requires
            byte == high * 16 + low,
            high < 16,
            low < 16,
    ;
}

/// The bytes of an encodable header, one by one.
proof fn lemma_header_bytes(h: NESHeader)
    requires
        encodable(h),
    ensures
        ({
            let bytes = spec_header_bytes(h);
            &&& bytes.len() == HEADER_LEN
            &&& has_signature(bytes)
            &&& bytes[4] == h.prg_size % 256
            &&& bytes[5] == h.chr_size % 256
            &&& bytes[6] == (h.mapper_number % 16) * 16 + spec_flag_bit(h.alt_nametables) * 8
                + spec_flag_bit(h.trainer) * 4 + spec_flag_bit(h.battery) * 2 + spec_layout_bit(
                h.nametable_layout,
            )
            &&& bytes[7] == ((h.mapper_number / 16) % 16) * 16 + spec_flag_bit(h.nes2) * 8
                + spec_console_bits(h.console_type)
            &&& bytes[8] == h.mapper_number / 256
            &&& bytes[9] == (h.chr_size / 256) * 16 + h.prg_size / 256
            &&& bytes[12] == spec_timing_bits(h.timing_mode)
            &&& bytes[13] == spec_console_payload(h.console_type)
        }),
{
}

/// The two sizes survive the round trip.
proof fn lemma_round_trip_sizes(h: NESHeader)
    requires
        encodable(h),
    ensures
        ({
            let bytes = spec_header_bytes(h);
            &&& spec_rom_size(bytes[4], spec_low_nibble(bytes[9])) == h.prg_size
            &&& spec_rom_size(bytes[5], spec_high_nibble(bytes[9])) == h.chr_size
        }),
{
    lemma_header_bytes(h);
    let bytes = spec_header_bytes(h);
    lemma_split_nibbles(bytes[9], (h.chr_size / 256) as u8, (h.prg_size / 256) as u8);
}

/// The flags and the layout of byte 6 survive the round trip, and the
/// byte's high nibble is the mapper number's low one.
proof fn lemma_round_trip_flags(h: NESHeader)
    requires
        encodable(h),
    ensures
        ({
            let b6 = spec_header_bytes(h)[6];
            &&& b6 / 16 == h.mapper_number % 16
            &&& spec_has_bit(b6, 8) == h.alt_nametables
            &&& spec_has_bit(b6, 4) == h.trainer
            &&& spec_has_bit(b6, 2) == h.battery
            &&& spec_nametable_layout(b6) == h.nametable_layout
        }),
{
    lemma_header_bytes(h);
    lemma_split_flags(
        spec_header_bytes(h)[6],
        (h.mapper_number % 16) as u8,
        spec_flag_bit(h.alt_nametables) as u8,
        spec_flag_bit(h.trainer) as u8,
        spec_flag_bit(h.battery) as u8,
        spec_layout_bit(h.nametable_layout) as u8,
    );
}

/// The format marker and the console type survive the round trip, and the
/// high nibble of byte 7 is the mapper number's middle one.
proof fn lemma_round_trip_console(h: NESHeader)
    requires
        encodable(h),
    ensures
        ({
            let bytes = spec_header_bytes(h);
            &&& bytes[7] / 16 == (h.mapper_number / 16) % 16
            &&& (spec_has_bit(bytes[7], 8) && !spec_has_bit(bytes[7], 4)) == h.nes2
            &&& spec_console_type(bytes[7], bytes[13]) == h.console_type
        }),
{
    lemma_header_bytes(h);
    let bytes = spec_header_bytes(h);
    let console = spec_console_bits(h.console_type) as u8;
    lemma_split_flags(
        bytes[7],
        ((h.mapper_number / 16) % 16) as u8,
        spec_flag_bit(h.nes2) as u8,
        0,
        console / 2,
        console % 2,
    );
    assert(bytes[7] % 4 == console);
    match h.console_type {
        ConsoleType::VsSystem(low, high) => {
            lemma_split_nibbles(bytes[13], high, low);
        },
        ConsoleType::Extended(low) => {
            lemma_split_nibbles(bytes[13], 0, low);
        },
        _ => {},
    }
}

/// The mapper number survives the round trip.
proof fn lemma_round_trip_mapper(h: NESHeader)
    requires
        encodable(h),
    ensures
        ({
            let bytes = spec_header_bytes(h);
            spec_mapper_number(bytes[6], bytes[7], bytes[8]) == h.mapper_number
        }),
{
    lemma_header_bytes(h);
    lemma_round_trip_flags(h);
    lemma_round_trip_console(h);
}

/// Writing a header down and decoding it again gives the header back: the
/// mapper number, every flag, the layout, the console type, the timing mode
/// and both sizes survive the round trip.
pub proof fn lemma_header_round_trip(h: NESHeader)
    requires
        encodable(h),
    ensures
        spec_header_bytes(h).len() == HEADER_LEN,
        spec_from_bytes(spec_header_bytes(h)) == Some(h),
{
    lemma_header_bytes(h);
    lemma_round_trip_sizes(h);
    lemma_round_trip_flags(h);
    lemma_round_trip_console(h);
    lemma_round_trip_mapper(h);
    let bytes = spec_header_bytes(h);
    let parsed = spec_from_bytes(bytes)->0;
    assert(spec_timing_mode(bytes[12]) == h.timing_mode);
    assert(parsed.prg_size == h.prg_size);
    assert(parsed.chr_size == h.chr_size);
    assert(parsed.mapper_number == h.mapper_number);
}

} // verus!
