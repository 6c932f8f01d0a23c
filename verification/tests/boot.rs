use seq_engine::boot::{
    entry_vector, sau_regions, ImageHeader, Probe, SauRegion, ValidateStep, HEADER_SPAN,
};

fn header(image_length: u32) -> ImageHeader {
    ImageHeader::new(0x2000_4000, 0x0001_0131, [0; 24], image_length, 4, 0x130)
}

#[test]
fn header_fields() {
    let h = header(0x1234);
    assert_eq!(h.sp(), 0x2000_4000);
    assert_eq!(h.pc(), 0x0001_0131);
    assert_eq!(h.image_length(), 0x1234);
    assert_eq!(h.header_offset(), 0x130);
}

#[test]
fn validation_probes_the_header_first() {
    assert_eq!(HEADER_SPAN, 0x200);
    assert_eq!(
        header(0x1234).validate(0x1_0000),
        ValidateStep::Check { probe: Probe::Header, start: 0x1_0000, length: 0x200 }
    );
}

#[test]
fn unprogrammed_header_is_invalid_without_a_second_probe() {
    assert_eq!(
        header(0x1234).validate_next(0x1_0000, Probe::Header, false),
        ValidateStep::Verdict(false)
    );
}

#[test]
fn image_length_is_rounded_up_to_whole_pages() {
    for (length, span) in [
        (0, 0),
        (1, 0x200),
        (0x1ff, 0x200),
        (0x200, 0x200),
        (0x201, 0x400),
        (0x1234, 0x1400),
        (0xffff_fe00, 0xffff_fe00),
    ] {
        assert_eq!(
            header(length).validate_next(0x1_0000, Probe::Header, true),
            ValidateStep::Check { probe: Probe::Image, start: 0x1_0000, length: span }
        );
    }
}

#[test]
fn verdict_follows_the_image_probe() {
    let h = header(0x1234);
    assert_eq!(h.validate_next(0x1_0000, Probe::Image, true), ValidateStep::Verdict(true));
    assert_eq!(h.validate_next(0x1_0000, Probe::Image, false), ValidateStep::Verdict(false));
}

#[test]
fn attribution_regions() {
    assert_eq!(
        sau_regions(0x0000_8000, 0x0000_8fe0, 0x0001_0000, 0x2000_4000),
        [
            SauRegion { number: 0, base: 0x0000_8000, limit: 0x0000_8fe3 },
            SauRegion { number: 1, base: 0x0001_0000, limit: 0x0fff_ffe1 },
            SauRegion { number: 2, base: 0x2000_4000, limit: 0x2fff_ffe1 },
            SauRegion { number: 3, base: 0x4000_0000, limit: 0x4fff_ffe1 },
        ]
    );
}

#[test]
fn entry_vector_clears_the_lowest_bit() {
    assert_eq!(entry_vector(0x0001_0131), 0x0001_0130);
    assert_eq!(entry_vector(0x0001_0130), 0x0001_0130);
    assert_eq!(entry_vector(1), 0);
    assert_eq!(entry_vector(u32::MAX), u32::MAX - 1);
}
