//! How the processor reaches its address space: bytes and little-endian
//! words at 16-bit addresses.

use vstd::prelude::*;
use crate::memory::{AccessError, AddressSpace};

verus! {

/// The 16-bit word with the given low and high bytes.
pub open spec fn word(low: u8, high: u8) -> u16 {
    (low + 256 * high) as u16
}

/// The low byte of a word.
pub open spec fn low_byte(value: u16) -> u8 {
    (value % 256) as u8
}

/// The high byte of a word.
pub open spec fn high_byte(value: u16) -> u8 {
    (value / 256) as u8
}

/// What the processor reads at `address`.
pub open spec fn read_byte<A: AddressSpace>(contents: A::Contents, address: u16) -> Result<
    u8,
    AccessError,
> {
    A::read_of(contents, address as usize)
}

/// The word whose low byte is read at `low_at` and whose high byte is read
/// at `high_at`, in that order. The first read that fails gives the error.
pub open spec fn read_pair<A: AddressSpace>(
    contents: A::Contents,
    low_at: u16,
    high_at: u16,
) -> Result<u16, AccessError> {
    match read_byte::<A>(contents, low_at) {
        Err(e) => Err(e),
        Ok(low) => match read_byte::<A>(contents, high_at) {
            Err(e) => Err(e),
            Ok(high) => Ok(word(low, high)),
        },
    }
}

/// The little-endian word at `address`. The high byte is read at the next
/// address, which is zero after the last.
pub open spec fn read_word<A: AddressSpace>(contents: A::Contents, address: u16) -> Result<
    u16,
    AccessError,
> {
    read_pair::<A>(contents, address, address.wrapping_add(1))
}

/// The contents after the processor wrote `value` at `address`.
pub open spec fn write_byte<A: AddressSpace>(
    contents: A::Contents,
    address: u16,
    value: u8,
) -> Result<A::Contents, AccessError> {
    A::write_of(contents, address as usize, value)
}

/// Puts two bytes together into a word.
pub fn make_word(low: u8, high: u8) -> (value: u16)
    ensures
        value == word(low, high),
        low_byte(value) == low,
        high_byte(value) == high,
{
    low as u16 + 256 * (high as u16)
}

/// Takes a word apart into its low and its high byte.
pub fn split_word(value: u16) -> (bytes: (u8, u8))
    ensures
        bytes.0 == low_byte(value),
        bytes.1 == high_byte(value),
        word(bytes.0, bytes.1) == value,
{
    ((value % 256) as u8, (value / 256) as u8)
}

/// Reads the byte at `address`.
pub fn load_byte<A: AddressSpace>(memory: &mut A, address: u16) -> (r: Result<u8, AccessError>)
    ensures
        r == read_byte::<A>(old(memory).contents(), address),
        final(memory).contents() == old(memory).contents(),
{
    memory.read_u8(address as usize)
}

/// Reads a word, the low byte at `low_at` and then the high byte at
/// `high_at`.
pub fn load_pair<A: AddressSpace>(memory: &mut A, low_at: u16, high_at: u16) -> (r: Result<
    u16,
    AccessError,
>)
    ensures
        r == read_pair::<A>(old(memory).contents(), low_at, high_at),
        final(memory).contents() == old(memory).contents(),
{
    let low = match load_byte(memory, low_at) {
        Ok(low) => low,
        Err(e) => {
            return Err(e);
        },
    };
    let high = match load_byte(memory, high_at) {
        Ok(high) => high,
        Err(e) => {
            return Err(e);
        },
    };
    Ok(make_word(low, high))
}

/// Reads the little-endian word at `address`.
pub fn load_word<A: AddressSpace>(memory: &mut A, address: u16) -> (r: Result<u16, AccessError>)
    ensures
        r == read_word::<A>(old(memory).contents(), address),
        final(memory).contents() == old(memory).contents(),
{
    load_pair(memory, address, address.wrapping_add(1))
}

/// Writes `value` at `address`. A refused write changes nothing.
pub fn store_byte<A: AddressSpace>(memory: &mut A, address: u16, value: u8) -> (r: Result<
    (),
    AccessError,
>)
    ensures
        match write_byte::<A>(old(memory).contents(), address, value) {
            Ok(next) => r is Ok && final(memory).contents() == next,
            Err(e) => r == Err::<(), AccessError>(e) && final(memory).contents() == old(
                memory,
            ).contents(),
        },
{
    memory.write_u8(address as usize, value)
}

} // verus!
