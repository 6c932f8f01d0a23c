//! The register protocol of the KSZ8463 Ethernet switch on its serial bus.
//!
//! A transfer opens with a two-byte command, most significant byte first,
//! that holds the register's offset and, in its top bit, whether the
//! register is written. Register values travel least significant byte
//! first.

use vstd::prelude::*;

verus! {

/// The top bit of a command, set for a write.
pub const WRITE_FLAG: u16 = 0x8000;

/// The chip identification that a KSZ8463 reports, but for its lowest bit.
pub const CHIP_ID: u16 = 0x8452;

/// The bit of the identification register that switches the chip on.
pub const ENABLE_BIT: u16 = 0x1;

/// The command field for the 16-bit register at `address`: the address of
/// the 32-bit word that holds it, above the byte enables of the half it
/// lies in, above two turn-around bits.
pub open spec fn spec_register_offset(address: u16) -> u16 {
    ((address >> 2) << 6) | (0x3u16 << ((2 + 2 * ((address >> 1) & 0x1)) as u16))
}

/// The command field for the 16-bit register at `address`.
#[verifier::when_used_as_spec(spec_register_offset)]
pub fn register_offset(address: u16) -> (offset: u16)
    ensures
        offset == spec_register_offset(address),
{
    let addr10_2: u16 = address >> 2;
    let half: u16 = (address >> 1) & 0x1;
    assert(half <= 1) by (bit_vector)
        requires
            half == (address >> 1) & 0x1,
    ;
    let mask_shift: u16 = 2 + (2 * half);
    (addr10_2 << 6) | (0x3u16 << mask_shift)
}

/// For an address within the chip's eleven address bits, the command field
/// holds the word address times 64, plus the byte enables `0b11` at bit 2
/// for the lower half of the word or at bit 4 for the upper half.
pub proof fn register_offset_layout(address: u16)
    requires
        address < 0x800,
    ensures
        spec_register_offset(address) == (address / 4) * 64 + (if (address / 2) % 2 == 0 {
            0x0cint
        } else {
            0x30int
        }),
{
    assert(address < 0x800 ==> ((address >> 2) << 6) | (0x3u16 << ((2 + 2 * ((address >> 1)
        & 0x1)) as u16)) == (address / 4) * 64 + (if (address / 2) % 2 == 0 {
        0x0cu16
    } else {
        0x30u16
    })) by (bit_vector);
}

/// The registers of the switch that are in use.
#[derive(Copy, Clone, Debug, PartialEq, Eq, Structural)]
#[allow(non_camel_case_types)]
pub enum KszRegister {
    CIDER,
    SGCR1,
    SGCR2,
    SGCR3,
    SGCR6,
    SGCR7,
    MACAR1,
    MACAR2,
    MACAR3,
    P1MBCR,
    P1MBSR,
    CFGR,
    DSP_CNTRL_6,
}

impl KszRegister {
    /// The register's address in the chip's register map.
    pub open spec fn spec_address(self) -> u16 {
        match self {
            KszRegister::CIDER => 0x000,
            KszRegister::SGCR1 => 0x002,
            KszRegister::SGCR2 => 0x004,
            KszRegister::SGCR3 => 0x006,
            KszRegister::SGCR6 => 0x00c,
            KszRegister::SGCR7 => 0x00e,
            KszRegister::MACAR1 => 0x010,
            KszRegister::MACAR2 => 0x012,
            KszRegister::MACAR3 => 0x014,
            KszRegister::P1MBCR => 0x04c,
            KszRegister::P1MBSR => 0x04e,
            KszRegister::CFGR => 0x0d8,
            KszRegister::DSP_CNTRL_6 => 0x734,
        }
    }

    /// The register's command field.
    pub open spec fn spec_offset(self) -> u16 {
        spec_register_offset(self.spec_address())
    }

    /// The register's address in the chip's register map.
    #[verifier::when_used_as_spec(spec_address)]
    pub fn address(self) -> (address: u16)
        ensures
            address == self.spec_address(),
    {
        match self {
            KszRegister::CIDER => 0x000,
            KszRegister::SGCR1 => 0x002,
            KszRegister::SGCR2 => 0x004,
            KszRegister::SGCR3 => 0x006,
            KszRegister::SGCR6 => 0x00c,
            KszRegister::SGCR7 => 0x00e,
            KszRegister::MACAR1 => 0x010,
            KszRegister::MACAR2 => 0x012,
            KszRegister::MACAR3 => 0x014,
            KszRegister::P1MBCR => 0x04c,
            KszRegister::P1MBSR => 0x04e,
            KszRegister::CFGR => 0x0d8,
            KszRegister::DSP_CNTRL_6 => 0x734,
        }
    }

    /// The register's command field.
    #[verifier::when_used_as_spec(spec_offset)]
    pub fn offset(self) -> (offset: u16)
        ensures
            offset == self.spec_offset(),
    {
        register_offset(self.address())
    }
}

/// The command field of each register.
pub proof fn register_offsets()
    ensures
        KszRegister::CIDER.spec_offset() == 0x000c,
        KszRegister::SGCR1.spec_offset() == 0x0030,
        KszRegister::SGCR2.spec_offset() == 0x004c,
        KszRegister::SGCR3.spec_offset() == 0x0070,
        KszRegister::SGCR6.spec_offset() == 0x00cc,
        KszRegister::SGCR7.spec_offset() == 0x00f0,
        KszRegister::MACAR1.spec_offset() == 0x010c,
        KszRegister::MACAR2.spec_offset() == 0x0130,
        KszRegister::MACAR3.spec_offset() == 0x014c,
        KszRegister::P1MBCR.spec_offset() == 0x04cc,
        KszRegister::P1MBSR.spec_offset() == 0x04f0,
        KszRegister::CFGR.spec_offset() == 0x0d8c,
        KszRegister::DSP_CNTRL_6.spec_offset() == 0x734c,
{
    register_offset_layout(0x000);
    register_offset_layout(0x002);
    register_offset_layout(0x004);
    register_offset_layout(0x006);
    register_offset_layout(0x00c);
    register_offset_layout(0x00e);
    register_offset_layout(0x010);
    register_offset_layout(0x012);
    register_offset_layout(0x014);
    register_offset_layout(0x04c);
    register_offset_layout(0x04e);
    register_offset_layout(0x0d8);
    register_offset_layout(0x734);
}

impl KszRegister {
    /// The register whose command field is `offset`, if there is one.
    pub fn from_u16(offset: u16) -> (register: Option<KszRegister>)
        ensures
            match register {
                Some(r) => r.spec_offset() == offset,
                None => forall|r: KszRegister| r.spec_offset() != offset,
            },
    {
        proof {
            register_offsets();
        }
        match offset {
            0x000c => Some(KszRegister::CIDER),
            0x0030 => Some(KszRegister::SGCR1),
            0x004c => Some(KszRegister::SGCR2),
            0x0070 => Some(KszRegister::SGCR3),
            0x00cc => Some(KszRegister::SGCR6),
            0x00f0 => Some(KszRegister::SGCR7),
            0x010c => Some(KszRegister::MACAR1),
            0x0130 => Some(KszRegister::MACAR2),
            0x014c => Some(KszRegister::MACAR3),
            0x04cc => Some(KszRegister::P1MBCR),
            0x04f0 => Some(KszRegister::P1MBSR),
            0x0d8c => Some(KszRegister::CFGR),
            0x734c => Some(KszRegister::DSP_CNTRL_6),
            _ => None,
        }
    }
}

/// No register's command field reaches into the write flag.
pub proof fn offsets_leave_write_flag_clear(r: KszRegister)
    ensures
        r.spec_offset() < WRITE_FLAG,
        r.spec_offset() | WRITE_FLAG == r.spec_offset() + WRITE_FLAG,
{
    let address = r.spec_address();
    register_offset_layout(address);
    let offset = r.spec_offset();
    assert(offset < 0x8000 ==> offset | 0x8000u16 == offset + 0x8000u16) by (bit_vector);
}

/// The two bytes of `value`, most significant first.
pub open spec fn be_bytes(value: u16) -> Seq<u8> {
    seq![(value / 256) as u8, (value % 256) as u8]
}

/// The two bytes of `value`, least significant first.
pub open spec fn le_bytes(value: u16) -> Seq<u8> {
    seq![(value % 256) as u8, (value / 256) as u8]
}

/// The request that reads register `r`: its command field.
pub open spec fn spec_read_request(r: KszRegister) -> Seq<u8> {
    be_bytes(r.spec_offset())
}

/// The request that writes `v` to register `r`: its command field with the
/// write flag, then the value.
pub open spec fn spec_write_request(r: KszRegister, v: u16) -> Seq<u8> {
    be_bytes(r.spec_offset() | WRITE_FLAG) + le_bytes(v)
}

/// The value in the response to a read: its last two bytes, least
/// significant first. The first two were clocked in during the command.
pub open spec fn spec_read_value(response: Seq<u8>) -> u16 {
    (response[2] + 256 * response[3]) as u16
}

/// `current` with the bits of `mask` taken from `v`.
pub open spec fn spec_masked_value(current: u16, v: u16, mask: u16) -> u16 {
    (current & !mask) | (v & mask)
}

fn to_be_bytes(value: u16) -> (bytes: [u8; 2])
    ensures
        bytes@ == be_bytes(value),
{
    let high: u8 = (value >> 8) as u8;
    let low: u8 = (value & 0xff) as u8;
    assert(value >> 8 == value / 256 && value & 0xff == value % 256) by (bit_vector);
    let bytes = [high, low];
    assert(bytes@ =~= be_bytes(value));
    bytes
}

/// The bytes to send to read register `r`.
pub fn read_request(r: KszRegister) -> (request: [u8; 2])
    ensures
        request@ == spec_read_request(r),
{
    to_be_bytes(r.offset())
}

/// The value that the four bytes received for a read hold.
pub fn read_value(response: &[u8; 4]) -> (v: u16)
    ensures
        v == spec_read_value(response@),
{
    let low: u16 = response[2] as u16;
    let high: u16 = response[3] as u16;
    assert(low | (high << 8) == low + 256 * high) by (bit_vector)
        requires
            low < 256,
            high < 256,
    ;
    low | (high << 8)
}

/// The bytes to send to write `v` to register `r`.
pub fn write_request(r: KszRegister, v: u16) -> (request: [u8; 4])
    ensures
        request@ == spec_write_request(r, v),
{
    let cmd = to_be_bytes(r.offset() | WRITE_FLAG);
    let low: u8 = (v & 0xff) as u8;
    let high: u8 = (v >> 8) as u8;
    assert(v >> 8 == v / 256 && v & 0xff == v % 256) by (bit_vector);
    let request = [cmd[0], cmd[1], low, high];
    assert(request@ =~= spec_write_request(r, v));
    request
}

/// The value to write back so that the bits of `mask` become those of `v`
/// and every other bit of `current` stays.
pub fn masked_value(current: u16, v: u16, mask: u16) -> (merged: u16)
    ensures
        merged == spec_masked_value(current, v, mask),
{
    (current & !mask) | (v & mask)
}

/// A merged value has the bits of `v` under the mask and those of
/// `current` elsewhere.
pub proof fn masked_value_merges(current: u16, v: u16, mask: u16)
    ensures
        spec_masked_value(current, v, mask) & mask == v & mask,
        spec_masked_value(current, v, mask) & !mask == current & !mask,
{
    assert(((current & !mask) | (v & mask)) & mask == v & mask) by (bit_vector);
    assert(((current & !mask) | (v & mask)) & !mask == current & !mask) by (bit_vector);
}

/// Whether a value read from the identification register says that the
/// switch is on.
pub fn enabled(cider: u16) -> (on: bool)
    ensures
        on == (cider % 2 == 1),
{
    assert(cider & 0x1 == cider % 2) by (bit_vector);
    cider & ENABLE_BIT != 0
}

/// Whether a value read from the identification register is that of a
/// KSZ8463, switched on or off.
pub fn is_ksz8463(cider: u16) -> (known: bool)
    ensures
        known == (cider == CHIP_ID || cider == CHIP_ID + 1),
{
    assert((cider & !1u16 == 0x8452) == (cider == 0x8452 || cider == 0x8453)) by (bit_vector);
    cider & !1u16 == CHIP_ID
}

} // verus!
