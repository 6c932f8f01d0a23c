//! Checks made on a boot image before control is handed to it, and the
//! security attribution of the address space it will run in.

use vstd::prelude::*;

verus! {

/// The number of bytes at the start of an image that hold its header and
/// must be programmed before any field of the header is believed.
pub const HEADER_SPAN: u32 = 0x200;

/// The granule in which flash is programmed.
pub const FLASH_PAGE: u32 = 0x200;

/// The start of an image as it lies in flash: the initial stack pointer and
/// entry point of the vector table, followed by what describes the image.
pub struct ImageHeader {
    sp: u32,
    pc: u32,
    _vector_table: [u8; 24],
    image_length: u32,
    _image_type: u32,
    header_offset: u32,
}

/// The probe of flash that a validation is waiting for.
#[derive(Copy, Clone, Debug, PartialEq, Eq, Structural)]
pub enum Probe {
    /// Whether the header's span is programmed.
    Header,
    /// Whether the image's whole length is programmed.
    Image,
}

/// What a validation wants next, or its verdict.
#[derive(Copy, Clone, Debug, PartialEq, Eq, Structural)]
pub enum ValidateStep {
    /// Ask the flash whether `length` bytes from `start` are programmed.
    Check { probe: Probe, start: u32, length: u32 },
    /// The image is, or is not, fully programmed.
    Verdict(bool),
}

/// One region of the security attribution unit: its number and the values
/// of its base and limit registers.
#[derive(Copy, Clone, Debug, PartialEq, Eq, Structural)]
pub struct SauRegion {
    pub number: u32,
    pub base: u32,
    pub limit: u32,
}

/// `length` rounded up to a whole number of flash pages.
pub open spec fn page_span(length: u32) -> int {
    ((length + FLASH_PAGE - 1) / FLASH_PAGE as int) * FLASH_PAGE
}

impl ImageHeader {
    /// The initial stack pointer.
    pub closed spec fn spec_sp(&self) -> u32 {
        self.sp
    }

    /// The entry point.
    pub closed spec fn spec_pc(&self) -> u32 {
        self.pc
    }

    /// The length of the image in bytes, as its header gives it.
    pub closed spec fn spec_image_length(&self) -> u32 {
        self.image_length
    }

    /// The offset of the signed part of the header.
    pub closed spec fn spec_header_offset(&self) -> u32 {
        self.header_offset
    }

    /// The first step of a validation, and what follows the answer
    /// `programmed` to the probe `answered`, where there was one: the
    /// header's span is probed first; the image's length, which the header
    /// gives, is probed only once the header is known to be programmed; and
    /// the image is valid only if both are.
    pub open spec fn validation(
        &self,
        img_start: u32,
        answered: Option<(Probe, bool)>,
    ) -> ValidateStep {
        match answered {
            None => ValidateStep::Check {
                probe: Probe::Header,
                start: img_start,
                length: HEADER_SPAN,
            },
            Some((_, false)) => ValidateStep::Verdict(false),
            Some((Probe::Header, true)) => ValidateStep::Check {
                probe: Probe::Image,
                start: img_start,
                length: page_span(self.spec_image_length()) as u32,
            },
            Some((Probe::Image, true)) => ValidateStep::Verdict(true),
        }
    }

    /// A header with these fields, in the order in which they lie in flash.
    pub fn new(
        sp: u32,
        pc: u32,
        vector_table: [u8; 24],
        image_length: u32,
        image_type: u32,
        header_offset: u32,
    ) -> (header: Self)
        ensures
            header.spec_sp() == sp,
            header.spec_pc() == pc,
            header.spec_image_length() == image_length,
            header.spec_header_offset() == header_offset,
    {
        ImageHeader {
            sp,
            pc,
            _vector_table: vector_table,
            image_length,
            _image_type: image_type,
            header_offset,
        }
    }

    /// The initial stack pointer.
    #[verifier::when_used_as_spec(spec_sp)]
    pub fn sp(&self) -> (sp: u32)
        ensures
            sp == self.spec_sp(),
    {
        self.sp
    }

    /// The entry point.
    #[verifier::when_used_as_spec(spec_pc)]
    pub fn pc(&self) -> (pc: u32)
        ensures
            pc == self.spec_pc(),
    {
        self.pc
    }

    /// The length of the image in bytes, as its header gives it.
    #[verifier::when_used_as_spec(spec_image_length)]
    pub fn image_length(&self) -> (length: u32)
        ensures
            length == self.spec_image_length(),
    {
        self.image_length
    }

    /// The offset of the signed part of the header.
    #[verifier::when_used_as_spec(spec_header_offset)]
    pub fn header_offset(&self) -> (offset: u32)
        ensures
            offset == self.spec_header_offset(),
    {
        self.header_offset
    }

    /// Starts the check that all of the image's flash is programmed, for an
    /// image that lies at `img_start`: the header's span is probed first.
    pub fn validate(&self, img_start: u32) -> (step: ValidateStep)
        ensures
            step == self.validation(img_start, None),
    {
        ValidateStep::Check { probe: Probe::Header, start: img_start, length: HEADER_SPAN }
    }

    /// Goes on with the check, given the answer to the probe handed out
    /// last. The length read from the header, rounded up to whole pages,
    /// must fit the address space.
    pub fn validate_next(&self, img_start: u32, answered: Probe, programmed: bool) -> (step:
        ValidateStep)
        requires
            answered == Probe::Header && programmed ==> page_span(self.spec_image_length())
                <= u32::MAX,
        ensures
            step == self.validation(img_start, Some((answered, programmed))),
    {
        if !programmed {
            ValidateStep::Verdict(false)
        } else {
            match answered {
                Probe::Header => {
                    let length: u32 = self.image_length;
                    assert(length + 0x1ff <= u32::MAX && ((length + 0x1ff) as u32) & !0x1ffu32
                        == page_span(length)) by {
                        assert(page_span(length) <= u32::MAX);
                        assert(length <= 0xffff_fe00u32) by (nonlinear_arith)
                            requires
                                ((length + 0x200 - 1) / 0x200 as int) * 0x200 <= 0xffff_ffff,
                        ;
                        assert(((length + 0x1ff) as u32) & !0x1ffu32 == (((length + 0x1ff) as u32)
                            / 0x200) * 0x200) by (bit_vector)
                            requires
                                length <= 0xffff_fe00u32,
                        ;
                    }
                    ValidateStep::Check {
                        probe: Probe::Image,
                        start: img_start,
                        length: (length + 0x1ff) & !0x1ff,
                    }
                },
                Probe::Image => ValidateStep::Verdict(true),
            }
        }
    }
}

/// The regions to program into the security attribution unit before the
/// image runs: the secure entry veneers between `hypo_start` and `hypo_end`
/// as non-secure callable, then the image's flash from `img_flash`, its RAM
/// from `img_ram`, and the peripherals, as non-secure. Everything else stays
/// secure.
pub open spec fn spec_sau_regions(
    hypo_start: u32,
    hypo_end: u32,
    img_flash: u32,
    img_ram: u32,
) -> Seq<SauRegion> {
    seq![
        SauRegion { number: 0, base: hypo_start, limit: hypo_end | 0x3 },
        SauRegion { number: 1, base: img_flash, limit: 0x0fff_ffe1 },
        SauRegion { number: 2, base: img_ram, limit: 0x2fff_ffe1 },
        SauRegion { number: 3, base: 0x4000_0000, limit: 0x4fff_ffe1 },
    ]
}

/// The regions to program into the security attribution unit, in the order
/// in which to write them.
pub fn sau_regions(hypo_start: u32, hypo_end: u32, img_flash: u32, img_ram: u32) -> (regions: [SauRegion; 4])
    ensures
        regions@ == spec_sau_regions(hypo_start, hypo_end, img_flash, img_ram),
{
    let regions = [
        SauRegion { number: 0, base: hypo_start, limit: hypo_end | 0x3 },
        SauRegion { number: 1, base: img_flash, limit: 0x0fff_ffe0 | 1 },
        SauRegion { number: 2, base: img_ram, limit: 0x2fff_ffe0 | 1 },
        SauRegion { number: 3, base: 0x4000_0000, limit: 0x4fff_ffe0 | 1 },
    ];
    assert(0x0fff_ffe0u32 | 1 == 0x0fff_ffe1) by (bit_vector);
    assert(0x2fff_ffe0u32 | 1 == 0x2fff_ffe1) by (bit_vector);
    assert(0x4fff_ffe0u32 | 1 == 0x4fff_ffe1) by (bit_vector);
    assert(regions@ =~= spec_sau_regions(hypo_start, hypo_end, img_flash, img_ram));
    regions
}

/// The address to branch to for the entry point `entry_pt`: the entry point
/// with its lowest bit, which only marks the instruction set, cleared.
pub fn entry_vector(entry_pt: u32) -> (vector: u32)
    ensures
        vector == entry_pt - entry_pt % 2,
{
    assert(entry_pt & !1u32 == entry_pt - entry_pt % 2) by (bit_vector);
    entry_pt & !1u32
}

} // verus!
