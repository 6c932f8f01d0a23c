use seq_engine::ksz8463::{
    enabled, is_ksz8463, masked_value, read_request, read_value, register_offset, write_request,
    KszRegister,
};

#[test]
fn register_offsets() {
    assert_eq!(register_offset(0x000), 0x000c);
    assert_eq!(register_offset(0x002), 0x0030);
    assert_eq!(register_offset(0x004), 0x004c);
    assert_eq!(register_offset(0x006), 0x0070);
    assert_eq!(register_offset(0x0d8), 0x0d8c);
    assert_eq!(register_offset(0x734), 0x734c);
    assert_eq!(register_offset(0x7fe), 0x7ff0);
}

#[test]
fn register_addresses_and_offsets() {
    let registers = [
        (KszRegister::CIDER, 0x000, 0x000c),
        (KszRegister::SGCR1, 0x002, 0x0030),
        (KszRegister::SGCR2, 0x004, 0x004c),
        (KszRegister::SGCR3, 0x006, 0x0070),
        (KszRegister::SGCR6, 0x00c, 0x00cc),
        (KszRegister::SGCR7, 0x00e, 0x00f0),
        (KszRegister::MACAR1, 0x010, 0x010c),
        (KszRegister::MACAR2, 0x012, 0x0130),
        (KszRegister::MACAR3, 0x014, 0x014c),
        (KszRegister::P1MBCR, 0x04c, 0x04cc),
        (KszRegister::P1MBSR, 0x04e, 0x04f0),
        (KszRegister::CFGR, 0x0d8, 0x0d8c),
        (KszRegister::DSP_CNTRL_6, 0x734, 0x734c),
    ];
    for (register, address, offset) in registers {
        assert_eq!(register.address(), address);
        assert_eq!(register.offset(), offset);
    }
}

#[test]
fn read_requests_hold_the_offset_big_endian() {
    assert_eq!(read_request(KszRegister::CIDER), [0x00, 0x0c]);
    assert_eq!(read_request(KszRegister::CFGR), [0x0d, 0x8c]);
    assert_eq!(read_request(KszRegister::DSP_CNTRL_6), [0x73, 0x4c]);
}

#[test]
fn write_requests_set_the_top_bit_and_hold_the_value_little_endian() {
    assert_eq!(write_request(KszRegister::CIDER, 1), [0x80, 0x0c, 0x01, 0x00]);
    assert_eq!(write_request(KszRegister::CFGR, 0x12c0), [0x8d, 0x8c, 0xc0, 0x12]);
    assert_eq!(write_request(KszRegister::DSP_CNTRL_6, 0xabcd), [0xf3, 0x4c, 0xcd, 0xab]);
}

#[test]
fn read_values_come_from_the_last_two_bytes() {
    assert_eq!(read_value(&[0xff, 0xff, 0x52, 0x84]), 0x8452);
    assert_eq!(read_value(&[0x12, 0x34, 0x00, 0x00]), 0);
    assert_eq!(read_value(&[0, 0, 0xff, 0xff]), 0xffff);
    assert_eq!(read_value(&[0, 0, 0x01, 0x00]), 1);
}

#[test]
fn masked_values_merge() {
    assert_eq!(masked_value(0xffff, 0x0000, 0x00c0), 0xff3f);
    assert_eq!(masked_value(0x1234, 0x0000, 0x2000), 0x1234);
    assert_eq!(masked_value(0x3234, 0x0000, 0x2000), 0x1234);
    assert_eq!(masked_value(0x0000, 0xffff, 0x00f0), 0x00f0);
    assert_eq!(masked_value(0xabcd, 0x1234, 0x0000), 0xabcd);
    assert_eq!(masked_value(0xabcd, 0x1234, 0xffff), 0x1234);
}

#[test]
fn identification_register() {
    assert!(is_ksz8463(0x8452));
    assert!(is_ksz8463(0x8453));
    assert!(!is_ksz8463(0x8450));
    assert!(!is_ksz8463(0x8454));
    assert!(!is_ksz8463(0));
    assert!(enabled(0x8453));
    assert!(!enabled(0x8452));
}

#[test]
fn registers_are_found_by_their_offset() {
    let registers = [
        KszRegister::CIDER,
        KszRegister::SGCR1,
        KszRegister::SGCR2,
        KszRegister::SGCR3,
        KszRegister::SGCR6,
        KszRegister::SGCR7,
        KszRegister::MACAR1,
        KszRegister::MACAR2,
        KszRegister::MACAR3,
        KszRegister::P1MBCR,
        KszRegister::P1MBSR,
        KszRegister::CFGR,
        KszRegister::DSP_CNTRL_6,
    ];
    for register in registers {
        assert_eq!(KszRegister::from_u16(register.offset()), Some(register));
    }
    assert_eq!(KszRegister::from_u16(0x0000), None);
    assert_eq!(KszRegister::from_u16(0x000d), None);
    assert_eq!(KszRegister::from_u16(0x8000 | 0x000c), None);
}
