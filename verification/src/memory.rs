//! The address-space capability: byte reads and writes by logical address.

use vstd::prelude::*;

verus! {

/// An access that the address space has no model for.
#[derive(Clone, Copy, Debug, PartialEq, Eq, Structural)]
pub enum AccessError {
    /// Nothing is known about what a read of `address` returns.
    UnsupportedRead { address: usize },
    /// The device does not accept a write to `address`.
    UnsupportedWrite { address: usize },
}

/// Anything that can be read and written one byte at a time by address.
///
/// The abstract state of an address space is its `contents`. What a read
/// returns is a function of the contents and the address alone, and a read
/// leaves the contents as they were. A write either yields new contents or is
/// refused, and a refused write changes nothing.
pub trait AddressSpace {
    /// The abstract state that reads and writes are defined over.
    type Contents;

    /// The abstract state of this address space.
    spec fn contents(&self) -> Self::Contents;

    /// What a read of `address` returns.
    spec fn read_of(contents: Self::Contents, address: usize) -> Result<u8, AccessError>;

    /// The contents after `value` was written to `address`, or why the write
    /// is refused.
    spec fn write_of(contents: Self::Contents, address: usize, value: u8) -> Result<
        Self::Contents,
        AccessError,
    >;

    fn read_u8(&mut self, address: usize) -> (r: Result<u8, AccessError>)
        ensures
            r == Self::read_of(old(self).contents(), address),
            final(self).contents() == old(self).contents(),
    ;

    fn write_u8(&mut self, address: usize, value: u8) -> (r: Result<(), AccessError>)
        ensures
            match Self::write_of(old(self).contents(), address, value) {
                Ok(next) => r is Ok && final(self).contents() == next,
                Err(e) => r == Err::<(), AccessError>(e) && final(self).contents() == old(
                    self,
                ).contents(),
            },
    ;
}

/// The number of bytes in a [`Ram`].
pub const RAM_SIZE: usize = 0x10000;

/// 64 KiB of plain read-write memory. Addresses above the last byte alias
/// the bytes below, as on a bus that ignores its upper address lines.
pub struct Ram {
    bytes: Vec<u8>,
}

impl Ram {
    #[verifier::type_invariant]
    spec fn well_formed(self) -> bool {
        self.bytes@.len() == RAM_SIZE
    }

    /// Memory with every byte zero.
    pub fn new() -> (ram: Self)
        ensures
            ram.contents() == Seq::new(RAM_SIZE as nat, |i: int| 0u8),
    {
        let ram = Ram { bytes: vec![0u8; RAM_SIZE] };
        assert(ram.bytes@ =~= Seq::new(RAM_SIZE as nat, |i: int| 0u8));
        ram
    }
}

impl AddressSpace for Ram {
    type Contents = Seq<u8>;

    closed spec fn contents(&self) -> Seq<u8> {
        self.bytes@
    }

    open spec fn read_of(contents: Seq<u8>, address: usize) -> Result<u8, AccessError> {
        Ok(contents[address as int % RAM_SIZE as int])
    }

    open spec fn write_of(contents: Seq<u8>, address: usize, value: u8) -> Result<
        Seq<u8>,
        AccessError,
    > {
        Ok(
            Seq::new(
                RAM_SIZE as nat,
                |i: int|
                    if i == address as int % RAM_SIZE as int {
                        value
                    } else {
                        contents[i]
                    },
            ),
        )
    }

    fn read_u8(&mut self, address: usize) -> (r: Result<u8, AccessError>) {
        proof {
            use_type_invariant(&*self);
        }
        Ok(self.bytes[address % RAM_SIZE])
    }

    fn write_u8(&mut self, address: usize, value: u8) -> (r: Result<(), AccessError>) {
        proof {
            use_type_invariant(&*self);
        }
        self.bytes[address % RAM_SIZE] = value;
        assert(self.bytes@ =~= Self::write_of(old(self).bytes@, address, value)->Ok_0);
        Ok(())
    }
}

} // verus!
