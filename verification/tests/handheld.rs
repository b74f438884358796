use miuchiz_emu::memory::{AccessError, AddressSpace};
use miuchiz_emu::miuchiz::handheld::{
    AddressType, ConfigurationError, Handheld, HandheldAddressSpace, LengthMismatch, VideoWrite,
    FLASH_SIZE,
};
use miuchiz_emu::miuchiz::st2205u::OTP_SIZE;

fn otp_image() -> Vec<u8> {
    (0..OTP_SIZE).map(|i| (i * 7 + 3) as u8).collect()
}

fn flash_image() -> Vec<u8> {
    (0..FLASH_SIZE).map(|i| (i ^ (i >> 8) ^ (i >> 16)) as u8).collect()
}

fn address_space() -> HandheldAddressSpace {
    HandheldAddressSpace::new(&otp_image(), &flash_image()).unwrap()
}

#[test]
fn region_sizes() {
    assert_eq!(OTP_SIZE, 0x4000);
    assert_eq!(FLASH_SIZE, 2_097_152);
}

#[test]
fn parse_splits_selector_and_offset() {
    assert_eq!(AddressType::parse_machine_addr(0), (AddressType::Otp, 0));
    assert_eq!(AddressType::parse_machine_addr(0x1F_FFFF), (AddressType::Otp, 0x1F_FFFF));
    assert_eq!(AddressType::parse_machine_addr(0x20_0000), (AddressType::Flash, 0));
    assert_eq!(AddressType::parse_machine_addr(0x40_1234), (AddressType::Flash, 0x1234));
    assert_eq!(AddressType::parse_machine_addr(0x60_0000), (AddressType::Video, 0));
    assert_eq!(AddressType::parse_machine_addr(0x7F_FFFF), (AddressType::Video, 0x1F_FFFF));
    assert_eq!(AddressType::parse_machine_addr(0x80_0000), (AddressType::Flash, 0));
    assert_eq!(AddressType::parse_machine_addr(0x3E0_0005), (AddressType::Otp, 5));
    assert_eq!(AddressType::parse_machine_addr(0x3FF_FFFF), (AddressType::Otp, 0x1F_FFFF));
}

#[test]
fn parse_takes_every_selector_but_three_for_flash() {
    for selector in 0usize..32 {
        let expected = match selector {
            3 => AddressType::Video,
            0 | 31 => AddressType::Otp,
            _ => AddressType::Flash,
        };
        assert_eq!(
            AddressType::parse_machine_addr((selector << 21) | 0x155),
            (expected, 0x155)
        );
    }
}

#[test]
fn parse_above_26_bits_is_flash() {
    // the selector is everything above bit 20, not just five bits
    assert_eq!(AddressType::parse_machine_addr(0x400_0000), (AddressType::Flash, 0));
    assert_eq!(AddressType::parse_machine_addr(0x460_0010), (AddressType::Flash, 0x10));
}

#[test]
fn construction_succeeds_with_exact_lengths() {
    assert!(HandheldAddressSpace::new(&otp_image(), &flash_image()).is_ok());
    assert!(Handheld::new(&otp_image(), &flash_image()).is_ok());
}

#[test]
fn otp_reads_back() {
    let otp = otp_image();
    let mut space = address_space();
    for offset in [0usize, 1, 2, 0x155, 0x1FFF, 0x2000, 0x3FFE, 0x3FFF] {
        assert_eq!(space.read_u8(offset), Ok(otp[offset]));
        assert_eq!(space.read_u8((0b11111 << 21) | offset), Ok(otp[offset]));
    }
}

#[test]
fn otp_reads_back_everywhere() {
    let otp = otp_image();
    let mut space = address_space();
    for offset in 0..OTP_SIZE {
        assert_eq!(space.read_u8(offset), Ok(otp[offset]));
    }
}

#[test]
fn flash_reads_back() {
    let flash = flash_image();
    let mut space = address_space();
    for offset in [0usize, 1, 0xFF, 0x100, 0x1234, 0x10_0000, 0x1F_FFFE, 0x1F_FFFF] {
        assert_eq!(space.read_u8((1 << 21) | offset), Ok(flash[offset]));
        assert_eq!(space.read_u8((0b10101 << 21) | offset), Ok(flash[offset]));
    }
}

#[test]
fn flash_reads_back_through_every_flash_selector() {
    let flash = flash_image();
    let mut space = address_space();
    for selector in 0usize..32 {
        if selector == 0 || selector == 3 || selector == 31 {
            continue;
        }
        let address = (selector << 21) | 0x0A_BCDE;
        assert_eq!(space.read_u8(address), Ok(flash[address & 0x1F_FFFF]));
    }
}

#[test]
fn otp_offset_wraps() {
    let otp = otp_image();
    let mut space = address_space();
    assert_eq!(space.read_u8(0x1F_FFFF), Ok(otp[0x1F_FFFF % OTP_SIZE]));
    assert_eq!(space.read_u8(0x1F_FFFF), Ok(otp[0x3FFF]));
    assert_eq!(space.read_u8(0x4000), Ok(otp[0]));
    assert_eq!(space.read_u8(0x4001), Ok(otp[1]));
    assert_eq!(space.read_u8(0xFFFC), Ok(otp[0x3FFC]));
    assert_eq!(space.read_u8((0b11111 << 21) | 0x1_2345), Ok(otp[0x2345]));
}

#[test]
fn short_otp_is_refused() {
    let result = HandheldAddressSpace::new(&[0u8; 512], &flash_image());
    assert_eq!(
        result.err(),
        Some(ConfigurationError::InvalidOtp(LengthMismatch { expected: 0x4000, actual: 512 }))
    );
}

#[test]
fn long_otp_is_refused() {
    let result = HandheldAddressSpace::new(&vec![0u8; OTP_SIZE + 1], &flash_image());
    assert_eq!(
        result.err(),
        Some(ConfigurationError::InvalidOtp(LengthMismatch { expected: 0x4000, actual: 0x4001 }))
    );
}

#[test]
fn empty_otp_is_refused() {
    let result = HandheldAddressSpace::new(&[], &flash_image());
    assert_eq!(
        result.err(),
        Some(ConfigurationError::InvalidOtp(LengthMismatch { expected: 0x4000, actual: 0 }))
    );
}

#[test]
fn short_flash_is_refused() {
    let result = HandheldAddressSpace::new(&otp_image(), &vec![0u8; FLASH_SIZE - 1]);
    assert_eq!(
        result.err(),
        Some(ConfigurationError::InvalidFlash(
            LengthMismatch { expected: 0x200000, actual: 0x1FFFFF }
        ))
    );
}

#[test]
fn long_flash_is_refused() {
    let result = HandheldAddressSpace::new(&otp_image(), &vec![0u8; FLASH_SIZE + 1]);
    assert_eq!(
        result.err(),
        Some(ConfigurationError::InvalidFlash(
            LengthMismatch { expected: 0x200000, actual: 0x200001 }
        ))
    );
}

#[test]
fn otp_is_checked_before_flash() {
    let result = HandheldAddressSpace::new(&[1, 2, 3], &[4, 5]);
    assert_eq!(
        result.err(),
        Some(ConfigurationError::InvalidOtp(LengthMismatch { expected: 0x4000, actual: 3 }))
    );
}

#[test]
fn handheld_reports_the_same_errors() {
    let result = Handheld::new(&[0u8; 16], &flash_image());
    assert_eq!(
        result.err(),
        Some(ConfigurationError::InvalidOtp(LengthMismatch { expected: 0x4000, actual: 16 }))
    );
    let result = Handheld::new(&otp_image(), &[0u8; 16]);
    assert_eq!(
        result.err(),
        Some(ConfigurationError::InvalidFlash(LengthMismatch { expected: 0x200000, actual: 16 }))
    );
}

#[test]
fn video_read_is_unsupported() {
    let mut space = address_space();
    assert_eq!(
        space.read_u8(0x60_0000),
        Err(AccessError::UnsupportedRead { address: 0x60_0000 })
    );
    assert_eq!(
        space.read_u8(0x7F_FFFF),
        Err(AccessError::UnsupportedRead { address: 0x7F_FFFF })
    );
}

#[test]
fn otp_write_is_unsupported_and_changes_nothing() {
    let otp = otp_image();
    let mut space = address_space();
    assert_eq!(
        space.write_u8(0x10, 0xAA),
        Err(AccessError::UnsupportedWrite { address: 0x10 })
    );
    assert_eq!(space.read_u8(0x10), Ok(otp[0x10]));
    assert_eq!(
        space.write_u8(0x3E0_0000, 0xAA),
        Err(AccessError::UnsupportedWrite { address: 0x3E0_0000 })
    );
}

#[test]
fn flash_write_is_unsupported_and_changes_nothing() {
    let flash = flash_image();
    let mut space = address_space();
    assert_eq!(
        space.write_u8(0x20_0010, 0xAA),
        Err(AccessError::UnsupportedWrite { address: 0x20_0010 })
    );
    assert_eq!(space.read_u8(0x20_0010), Ok(flash[0x10]));
}

#[test]
fn video_write_is_remembered() {
    let mut space = address_space();
    assert_eq!(space.last_video_write(), None);
    assert_eq!(space.write_u8(0x60_0123, 0x5A), Ok(()));
    assert_eq!(space.last_video_write(), Some(VideoWrite { offset: 0x123, value: 0x5A }));
    assert_eq!(space.write_u8(0x7F_FFFF, 0x01), Ok(()));
    assert_eq!(space.last_video_write(), Some(VideoWrite { offset: 0x1F_FFFF, value: 0x01 }));
}

#[test]
fn video_write_leaves_otp_and_flash() {
    let otp = otp_image();
    let flash = flash_image();
    let mut space = address_space();
    assert_eq!(space.write_u8(0x60_0000, 0xFF), Ok(()));
    assert_eq!(space.read_u8(0), Ok(otp[0]));
    assert_eq!(space.read_u8(0x20_0000), Ok(flash[0]));
}

#[test]
fn refused_write_keeps_the_last_video_write() {
    let mut space = address_space();
    assert_eq!(space.write_u8(0x60_0001, 0x11), Ok(()));
    assert!(space.write_u8(0x0, 0x22).is_err());
    assert_eq!(space.last_video_write(), Some(VideoWrite { offset: 1, value: 0x11 }));
}
