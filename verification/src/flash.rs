//! Simple flash storage held in memory. Useful for testing and emulation.

use vstd::prelude::*;

verus! {

/// Errors reported by a flash driver.
#[derive(Debug, Clone, Copy, PartialEq, Eq, Structural)]
#[allow(non_camel_case_types)]
pub enum FlashDrvError {
    /// The requested range lies outside the storage.
    INVAL,
}

/// `memory` with `data` placed at `address`.
pub open spec fn overwritten(memory: Seq<u8>, address: int, data: Seq<u8>) -> Seq<u8> {
    memory.subrange(0, address) + data + memory.subrange(address + data.len(), memory.len() as int)
}

/// Reading back a write: once `data` is placed at `address` inside the
/// storage, the bytes from `address` on are `data`, the storage keeps its size,
/// and every byte outside that range keeps its value.
pub proof fn lemma_write_then_read(memory: Seq<u8>, address: int, data: Seq<u8>)
    requires
        0 <= address,
        address + data.len() <= memory.len(),
    ensures
        overwritten(memory, address, data).len() == memory.len(),
        overwritten(memory, address, data).subrange(address, address + data.len()) == data,
        forall|j: int|
            0 <= j < memory.len() && !(address <= j < address + data.len()) ==> #[trigger] overwritten(
                memory,
                address,
                data,
            )[j] == memory[j],
{
    assert(overwritten(memory, address, data).subrange(address, address + data.len()) =~= data);
}

/// Flash storage backed by bytes held in memory.
pub struct SimpleFlash {
    memory: Vec<u8>,
}

impl SimpleFlash {
    /// The bytes of the storage.
    pub closed spec fn spec_memory(self) -> Seq<u8> {
        self.memory@
    }

    /// Create a new SimpleFlash instance holding the provided memory.
    pub fn new(memory: Vec<u8>) -> (r: Self)
        ensures
            r.spec_memory() == memory@,
    {
        SimpleFlash { memory }
    }

    /// The end of `[address, address + len)`, when it lies inside the storage.
    fn range_end(&self, address: usize, len: usize) -> (r: Option<usize>)
        ensures
            r matches Some(end) ==> end == address + len && (address + len <= self.spec_memory().len()),
            r is None ==> !(address + len <= self.spec_memory().len()),
    {
        let capacity = self.memory.len();
        match address.checked_add(len) {
            Some(end) => if end <= capacity {
                Some(end)
            } else {
                None
            },
            None => None,
        }
    }

    /// Read from the flash storage, filling the provided buffer with data
    /// starting at `address`.
    pub fn read(&self, buffer: &mut [u8], address: usize) -> (r: Result<(), FlashDrvError>)
        ensures
            (address + old(buffer)@.len() <= self.spec_memory().len()) ==> r == Ok::<
                (),
                FlashDrvError,
            >(()) && final(buffer)@ == self.spec_memory().subrange(
                address as int,
                address + old(buffer)@.len(),
            ),
            !(address + old(buffer)@.len() <= self.spec_memory().len()) ==> r == Err::<
                (),
                FlashDrvError,
            >(FlashDrvError::INVAL) && final(buffer)@ == old(buffer)@,
    {
        match self.range_end(address, buffer.len()) {
            None => Err(FlashDrvError::INVAL),
            Some(end) => {
                let mut i: usize = 0;
                while i < buffer.len()
                    invariant
                        buffer@.len() == old(buffer)@.len(),
                        address + buffer@.len() <= self.memory@.len(),
                        end == address + buffer@.len(),
                        i <= buffer@.len(),
                        forall|j: int| 0 <= j < i ==> buffer@[j] == self.memory@[address + j],
                    decreases buffer@.len() - i,
                {
                    buffer[i] = self.memory[address + i];
                    i = i + 1;
                }
                assert(buffer@ =~= self.memory@.subrange(address as int, address + buffer@.len()));
                Ok(())
            },
        }
    }

    /// Write the full contents of the buffer to the flash storage, starting
    /// at the specified address.
    pub fn write(&mut self, buffer: &[u8], address: usize) -> (r: Result<(), FlashDrvError>)
        ensures
            (address + buffer@.len() <= old(self).spec_memory().len()) ==> r == Ok::<
                (),
                FlashDrvError,
            >(()) && final(self).spec_memory() == overwritten(
                old(self).spec_memory(),
                address as int,
                buffer@,
            ),
            !(address + buffer@.len() <= old(self).spec_memory().len()) ==> r == Err::<
                (),
                FlashDrvError,
            >(FlashDrvError::INVAL) && final(self).spec_memory() == old(self).spec_memory(),
    {
        match self.range_end(address, buffer.len()) {
            None => Err(FlashDrvError::INVAL),
            Some(end) => {
                let ghost orig = self.memory@;
                let mut i: usize = 0;
                while i < buffer.len()
                    invariant
                        self.memory@.len() == orig.len(),
                        address + buffer@.len() <= orig.len(),
                        end == address + buffer@.len(),
                        i <= buffer@.len(),
                        forall|j: int| 0 <= j < address ==> self.memory@[j] == orig[j],
                        forall|j: int| 0 <= j < i ==> self.memory@[address + j] == buffer@[j],
                        forall|j: int|
                            address + i <= j < orig.len() ==> self.memory@[j] == orig[j],
                    decreases buffer@.len() - i,
                {
                    self.memory.set(address + i, buffer[i]);
                    i = i + 1;
                }
                assert(self.memory@ =~= orig.subrange(0, address as int) + buffer@ + orig.subrange(
                    address + buffer@.len(),
                    orig.len() as int,
                ));
                Ok(())
            },
        }
    }

    /// Erase `length` bytes starting at address `address` (erased bytes read
    /// as zero). The range must lie in the storage.
    pub fn erase(&mut self, address: usize, length: usize) -> (r: Result<(), FlashDrvError>)
        ensures
            (address + length <= old(self).spec_memory().len()) ==> r == Ok::<
                (),
                FlashDrvError,
            >(()) && final(self).spec_memory() == overwritten(
                old(self).spec_memory(),
                address as int,
                Seq::new(length as nat, |i: int| 0u8),
            ),
            !(address + length <= old(self).spec_memory().len()) ==> r == Err::<
                (),
                FlashDrvError,
            >(FlashDrvError::INVAL) && final(self).spec_memory() == old(self).spec_memory(),
    {
        match self.range_end(address, length) {
            None => Err(FlashDrvError::INVAL),
            Some(end) => {
                let ghost orig = self.memory@;
                let mut i: usize = 0;
                while i < length
                    invariant
                        self.memory@.len() == orig.len(),
                        address + length <= orig.len(),
                        end == address + length,
                        i <= length,
                        forall|j: int| 0 <= j < address ==> self.memory@[j] == orig[j],
                        forall|j: int| address <= j < address + i ==> self.memory@[j] == 0u8,
                        forall|j: int|
                            address + i <= j < orig.len() ==> self.memory@[j] == orig[j],
                    decreases length - i,
                {
                    self.memory.set(address + i, 0);
                    i = i + 1;
                }
                assert(self.memory@ =~= orig.subrange(0, address as int) + Seq::new(
                    length as nat,
                    |i: int| 0u8,
                ) + orig.subrange(address + length, orig.len() as int));
                Ok(())
            },
        }
    }

    /// Returns the size of the flash storage in bytes.
    pub fn capacity(&self) -> (r: usize)
        ensures
            r == self.spec_memory().len(),
    {
        self.memory.len()
    }
}

} // verus!
