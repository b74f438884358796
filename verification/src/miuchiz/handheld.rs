//! The memory map of the handheld: one logical address space over the video
//! registers, the one-time-programmable region and the flash.

use vstd::prelude::*;
use crate::memory::{AccessError, AddressSpace};
use crate::miuchiz::st2205u::wdc_65c02::cpu::{step_spec, Machine};
use crate::miuchiz::st2205u::wdc_65c02::theorems::storage::lemma_step_only_writes;
use crate::miuchiz::st2205u::wdc_65c02::interrupt::Interrupts;
use crate::miuchiz::st2205u::wdc_65c02::Registers;
use crate::miuchiz::st2205u::{Mcu, OTP_SIZE};

verus! {

/// The size of the flash, in bytes.
pub const FLASH_SIZE: usize = 0x200000;

/// The region that a machine address falls into.
#[derive(Clone, Copy, Debug, PartialEq, Eq, Structural)]
pub enum AddressType {
    Video,
    Otp,
    Flash,
}

/// The selector of a machine address: everything above its low 21 bits.
pub open spec fn selector_of(address: usize) -> int {
    address as int / 0x200000
}

/// The offset of a machine address within its region: its low 21 bits.
pub open spec fn offset_of(address: usize) -> int {
    address as int % 0x200000
}

/// The region that a selector stands for.
pub open spec fn region_of(selector: int) -> AddressType {
    if selector == 0b00011 {
        AddressType::Video
    } else if selector == 0b00000 || selector == 0b11111 {
        AddressType::Otp
    } else {
        AddressType::Flash
    }
}

proof fn lemma_split_address(address: usize)
    by (bit_vector)
    ensures
        address >> 21 == address / 0x200000,
        address & 0x1FFFFF == address % 0x200000,
{
}

impl AddressType {
    /// Splits a machine address into the region it selects and the offset
    /// within that region.
    pub fn parse_machine_addr(address: usize) -> (r: (Self, usize))
        ensures
            r.0 == region_of(selector_of(address)),
            r.1 == offset_of(address),
    {
        proof {
            lemma_split_address(address);
        }
        let selection_bits = address >> 21;
        let address_bits = address & 0x1FFFFF;

        let addr_type = match selection_bits {
            0b00011 => AddressType::Video,
            0b00000 | 0b11111 => AddressType::Otp,
            _ => AddressType::Flash,
        };

        (addr_type, address_bits)
    }
}

/// Why an image was refused: it does not have the length of its region.
#[derive(Clone, Copy, Debug, PartialEq, Eq, Structural)]
pub struct LengthMismatch {
    /// The length the region requires.
    pub expected: usize,
    /// The length of the image that was supplied.
    pub actual: usize,
}

/// Why a handheld could not be built from the images supplied.
#[derive(Clone, Copy, Debug, PartialEq, Eq, Structural)]
pub enum ConfigurationError {
    InvalidOtp(LengthMismatch),
    InvalidFlash(LengthMismatch),
}

/// A write that reached the video registers.
#[derive(Clone, Copy, Debug, PartialEq, Eq, Structural)]
pub struct VideoWrite {
    /// The offset within the video region.
    pub offset: usize,
    /// The byte that was written.
    pub value: u8,
}

/// The abstract state of the handheld's address space.
#[verifier::ext_equal]
pub struct HandheldContents {
    /// The bytes of the one-time-programmable region.
    pub otp: Seq<u8>,
    /// The bytes of the flash.
    pub flash: Seq<u8>,
    /// The most recent write to the video registers, if there was one.
    pub video: Option<VideoWrite>,
}

/// The contents of an address space freshly built from two images.
pub open spec fn initial_contents(otp: Seq<u8>, flash: Seq<u8>) -> HandheldContents {
    HandheldContents { otp, flash, video: None }
}

/// The address space of the handheld.
pub struct HandheldAddressSpace {
    otp: Vec<u8>,
    flash: Vec<u8>,
    video: Option<VideoWrite>,
}

impl HandheldAddressSpace {
    #[verifier::type_invariant]
    spec fn well_formed(self) -> bool {
        &&& self.otp@.len() == OTP_SIZE
        &&& self.flash@.len() == FLASH_SIZE
    }

    /// Builds the address space from an OTP image and a flash image. The OTP
    /// image is checked first.
    pub fn new(otp: &[u8], flash: &[u8]) -> (r: Result<Self, ConfigurationError>)
        ensures
            otp@.len() != OTP_SIZE ==> r == Err::<Self, ConfigurationError>(
                ConfigurationError::InvalidOtp(
                    LengthMismatch { expected: OTP_SIZE, actual: otp@.len() as usize },
                ),
            ),
            otp@.len() == OTP_SIZE && flash@.len() != FLASH_SIZE ==> r == Err::<
                Self,
                ConfigurationError,
            >(
                ConfigurationError::InvalidFlash(
                    LengthMismatch { expected: FLASH_SIZE, actual: flash@.len() as usize },
                ),
            ),
            otp@.len() == OTP_SIZE && flash@.len() == FLASH_SIZE ==> r is Ok
                && r->Ok_0.contents() == initial_contents(otp@, flash@),
    {
        if otp.len() != OTP_SIZE {
            return Err(
                ConfigurationError::InvalidOtp(
                    LengthMismatch { expected: OTP_SIZE, actual: otp.len() },
                ),
            );
        }
        if flash.len() != FLASH_SIZE {
            return Err(
                ConfigurationError::InvalidFlash(
                    LengthMismatch { expected: FLASH_SIZE, actual: flash.len() },
                ),
            );
        }
        Ok(
            Self {
                otp: vstd::slice::slice_to_vec(otp),
                flash: vstd::slice::slice_to_vec(flash),
                video: None,
            },
        )
    }

    /// The most recent write to the video registers, if there was one.
    pub fn last_video_write(&self) -> (w: Option<VideoWrite>)
        ensures
            w == self.contents().video,
    {
        self.video
    }
}

impl AddressSpace for HandheldAddressSpace {
    type Contents = HandheldContents;

    closed spec fn contents(&self) -> HandheldContents {
        HandheldContents { otp: self.otp@, flash: self.flash@, video: self.video }
    }

    /// A read of the OTP or of the flash returns the byte at the offset,
    /// taken modulo the length of the region. There is no model of what the
    /// video registers return.
    open spec fn read_of(contents: HandheldContents, address: usize) -> Result<u8, AccessError> {
        match region_of(selector_of(address)) {
            AddressType::Video => Err(AccessError::UnsupportedRead { address }),
            AddressType::Otp => Ok(contents.otp[offset_of(address) % contents.otp.len() as int]),
            AddressType::Flash => Ok(
                contents.flash[offset_of(address) % contents.flash.len() as int],
            ),
        }
    }

    /// A write to the video registers is remembered and has no other effect.
    /// The OTP and the flash refuse writes.
    open spec fn write_of(contents: HandheldContents, address: usize, value: u8) -> Result<
        HandheldContents,
        AccessError,
    > {
        match region_of(selector_of(address)) {
            AddressType::Video => Ok(
                HandheldContents {
                    video: Some(VideoWrite { offset: offset_of(address) as usize, value }),
                    ..contents
                },
            ),
            AddressType::Otp => Err(AccessError::UnsupportedWrite { address }),
            AddressType::Flash => Err(AccessError::UnsupportedWrite { address }),
        }
    }

    fn read_u8(&mut self, address: usize) -> (r: Result<u8, AccessError>) {
        proof {
            use_type_invariant(&*self);
        }
        match AddressType::parse_machine_addr(address) {
            (AddressType::Video, _vid_addr) => Err(AccessError::UnsupportedRead { address }),
            (AddressType::Otp, otp_addr) => Ok(self.otp[otp_addr % self.otp.len()]),
            (AddressType::Flash, flash_addr) => Ok(self.flash[flash_addr % self.flash.len()]),
        }
    }

    fn write_u8(&mut self, address: usize, value: u8) -> (r: Result<(), AccessError>) {
        proof {
            use_type_invariant(&*self);
        }
        match AddressType::parse_machine_addr(address) {
            (AddressType::Video, vid_addr) => {
                self.video = Some(VideoWrite { offset: vid_addr, value });
                Ok(())
            },
            (AddressType::Otp, _otp_addr) => Err(AccessError::UnsupportedWrite { address }),
            (AddressType::Flash, _flash_addr) => Err(AccessError::UnsupportedWrite { address }),
        }
    }
}

/// The handheld: the microcontroller on the handheld's address space.
pub struct Handheld {
    pub mcu: Mcu<HandheldAddressSpace>,
}

impl Handheld {
    /// Builds a handheld from an OTP image and a flash image. The core is in
    /// its reset state and has not read its reset vector yet.
    pub fn new(otp: &[u8], flash: &[u8]) -> (r: Result<Self, ConfigurationError>)
        ensures
            otp@.len() != OTP_SIZE ==> r == Err::<Self, ConfigurationError>(
                ConfigurationError::InvalidOtp(
                    LengthMismatch { expected: OTP_SIZE, actual: otp@.len() as usize },
                ),
            ),
            otp@.len() == OTP_SIZE && flash@.len() != FLASH_SIZE ==> r == Err::<
                Self,
                ConfigurationError,
            >(
                ConfigurationError::InvalidFlash(
                    LengthMismatch { expected: FLASH_SIZE, actual: flash@.len() as usize },
                ),
            ),
            otp@.len() == OTP_SIZE && flash@.len() == FLASH_SIZE ==> r is Ok
                && r->Ok_0.mcu.core.state() == (Machine {
                registers: Registers::reset_state(),
                interrupts: Interrupts::idle(),
                contents: initial_contents(otp@, flash@),
            }),
    {
        let machine_address_space = HandheldAddressSpace::new(otp, flash)?;

        let mcu = Self { mcu: Mcu::new(machine_address_space) };

        Ok(mcu)
    }
}

/// Through either OTP selector a read returns the OTP byte at the offset,
/// taken modulo the length of the OTP, whatever that length is.
pub proof fn lemma_otp_read_wraps(contents: HandheldContents, address: usize)
    requires
        selector_of(address) == 0b00000 || selector_of(address) == 0b11111,
    ensures
        HandheldAddressSpace::read_of(contents, address) == Ok::<u8, AccessError>(
            contents.otp[(address as int % 0x200000) % contents.otp.len() as int],
        ),
{
}

/// Through any selector other than the video and OTP selectors, a read of a
/// full-length flash returns the flash byte at the low 21 bits of the address.
pub proof fn lemma_flash_read(contents: HandheldContents, address: usize)
    requires
        contents.flash.len() == FLASH_SIZE,
        selector_of(address) != 0b00011,
        selector_of(address) != 0b00000,
        selector_of(address) != 0b11111,
    ensures
        HandheldAddressSpace::read_of(contents, address) == Ok::<u8, AccessError>(
            contents.flash[(address & 0x1FFFFF) as int],
        ),
{
    lemma_split_address(address);
    assert(offset_of(address) % (contents.flash.len() as int) == offset_of(address));
}

/// An address space built from two images of the right lengths returns every
/// byte of the OTP image at its own offset, through either OTP selector.
pub proof fn lemma_otp_read_back(otp: Seq<u8>, flash: Seq<u8>, address: usize)
    requires
        otp.len() == OTP_SIZE,
        flash.len() == FLASH_SIZE,
        selector_of(address) == 0b00000 || selector_of(address) == 0b11111,
        offset_of(address) < OTP_SIZE,
    ensures
        HandheldAddressSpace::read_of(initial_contents(otp, flash), address) == Ok::<
            u8,
            AccessError,
        >(otp[offset_of(address)]),
{
    assert(offset_of(address) % (otp.len() as int) == offset_of(address));
}

/// An address space built from two images of the right lengths returns every
/// byte of the flash image at its own offset, through every flash selector.
pub proof fn lemma_flash_read_back(otp: Seq<u8>, flash: Seq<u8>, address: usize)
    requires
        otp.len() == OTP_SIZE,
        flash.len() == FLASH_SIZE,
        region_of(selector_of(address)) == AddressType::Flash,
    ensures
        HandheldAddressSpace::read_of(initial_contents(otp, flash), address) == Ok::<
            u8,
            AccessError,
        >(flash[offset_of(address)]),
{
    assert(offset_of(address) % (flash.len() as int) == offset_of(address));
}

/// The OTP and the flash never change: no write that the address space
/// accepts touches either.
pub proof fn lemma_images_are_read_only(contents: HandheldContents, address: usize, value: u8)
    requires
        HandheldAddressSpace::write_of(contents, address, value) is Ok,
    ensures
        HandheldAddressSpace::write_of(contents, address, value)->Ok_0.otp == contents.otp,
        HandheldAddressSpace::write_of(contents, address, value)->Ok_0.flash == contents.flash,
        region_of(selector_of(address)) == AddressType::Video,
{
}

/// The core has 16 address bits, so all that it reaches on the handheld is
/// the OTP: it can read every address, and it can write none.
pub proof fn lemma_core_reaches_only_otp(contents: HandheldContents, address: u16, value: u8)
    ensures
        HandheldAddressSpace::read_of(contents, address as usize) == Ok::<u8, AccessError>(
            contents.otp[address as int % contents.otp.len() as int],
        ),
        HandheldAddressSpace::write_of(contents, address as usize, value) == Err::<
            HandheldContents,
            AccessError,
        >(AccessError::UnsupportedWrite { address: address as usize }),
{
}

/// A step of the core on the handheld leaves the contents of the address
/// space as they were: the images are read-only, and the video registers
/// are out of the core's reach.
pub proof fn lemma_step_keeps_contents(machine: Machine<HandheldContents>)
    ensures
        step_spec::<HandheldAddressSpace>(machine).0.contents == machine.contents,
{
    let kept = |contents: HandheldContents| contents == machine.contents;
    assert forall|contents: HandheldContents, address: usize, value: u8|
        kept(contents) && address < 0x10000 && (#[trigger] HandheldAddressSpace::write_of(
            contents,
            address,
            value,
        )) is Ok implies kept(HandheldAddressSpace::write_of(contents, address, value)->Ok_0) by {
        lemma_core_reaches_only_otp(contents, address as u16, value);
    }
    lemma_step_only_writes::<HandheldAddressSpace>(machine, kept);
}

} // verus!
