//! The build manifest that linker generation reads: the memory spaces of a
//! platform and, for each binary, how much of them it needs.
use vstd::prelude::*;

verus! {

/// A contiguous span of an address space: `size` bytes from `offset`.
///
/// As an allocation tracker it stands for the part of a space that is still
/// free; `consume` hands out blocks from its front.
#[derive(Clone, Copy, Debug, PartialEq, Eq, Structural)]
pub struct Memory {
    pub offset: u64,
    pub size: u64,
}

/// Why an allocation from a [`Memory`] tracker failed.
#[derive(Clone, Copy, Debug, PartialEq, Eq, Structural)]
pub enum MemoryError {
    /// `requested` bytes were asked for while only `available` remained.
    Exhausted { requested: u64, available: u64 },
}

impl Memory {
    /// The span lies inside the 64-bit address space: its end is representable.
    pub open spec fn fits(self) -> bool {
        self.offset + self.size <= u64::MAX
    }

    /// The first `size` bytes of `self`, and what remains after them; an error
    /// when fewer than `size` bytes remain.
    pub open spec fn split(self, size: u64) -> (Result<Memory, MemoryError>, Memory) {
        if size <= self.size {
            (
                Ok(Memory { offset: self.offset, size }),
                Memory { offset: (self.offset + size) as u64, size: (self.size - size) as u64 },
            )
        } else {
            (Err(MemoryError::Exhausted { requested: size, available: self.size }), self)
        }
    }

    /// Takes `size` bytes from the front of the free span and returns them as a
    /// block; fails, leaving the tracker as it was, when fewer remain.
    pub fn consume(&mut self, size: u64) -> (r: Result<Memory, MemoryError>)
        requires
            old(self).fits(),
        ensures
            r == old(self).split(size).0,
            *final(self) == old(self).split(size).1,
            final(self).fits(),
    {
        if size <= self.size {
            let block = Memory { offset: self.offset, size };
            self.offset = self.offset + size;
            self.size = self.size - size;
            Ok(block)
        } else {
            Err(MemoryError::Exhausted { requested: size, available: self.size })
        }
    }
}

/// The bytes needed before `offset` to reach the next multiple of `alignment`.
pub open spec fn padding(offset: u64, alignment: u64) -> int {
    if offset % alignment != 0 {
        alignment - offset % alignment
    } else {
        0
    }
}

/// An allocation of `size` bytes at an `alignment` from the free span
/// `tracker`: first the padding up to the alignment is consumed, then the
/// block. The result, and the tracker after it (an error can come after the
/// padding was taken).
pub open spec fn aligned_block(tracker: Memory, size: u64, alignment: u64) -> (
    Result<Memory, MemoryError>,
    Memory,
) {
    let pad = padding(tracker.offset, alignment);
    let (padded, rest) = tracker.split(pad as u64);
    match padded {
        Err(e) => (Err(e), rest),
        Ok(_) => rest.split(size),
    }
}

/// The memory needs of a binary's instructions.
#[derive(Clone, Copy, Debug, PartialEq, Eq, Structural)]
pub struct ExecMemory {
    pub size: u64,
    /// The alignment its instructions need; the platform default when `None`.
    pub alignment: Option<u64>,
}

/// One binary of the build: the ROM, the kernel or an application.
#[derive(Clone, Debug)]
pub struct Binary {
    pub name: String,
    pub exec_mem: ExecMemory,
    /// Bytes of RAM for its data.
    pub ram: u64,
    /// The alignment its data needs; the platform default when `None`.
    pub ram_alignment: Option<u64>,
    pub stack_size: u64,
    pub exception_stack: u64,
}

impl Binary {
    /// The size of the binary's stack.
    pub fn stack(&self) -> (s: u64)
        ensures
            s == self.stack_size,
    {
        self.stack_size
    }
}

/// The target platform: its memory spaces and layout parameters.
#[derive(Clone, Debug)]
pub struct Platform {
    /// The target tuple, which names the output directory.
    pub tuple: String,
    pub rom: Memory,
    pub itcm: Memory,
    pub ram: Memory,
    pub page_size: Option<u64>,
    /// The alignment used where a binary names none.
    pub alignment: u64,
}

impl Platform {
    /// The alignment used where a binary names none.
    pub fn default_alignment(&self) -> (a: u64)
        ensures
            a == self.alignment,
    {
        self.alignment
    }

    /// The alignment that applies to a request: the binary's own, else the
    /// platform default.
    pub open spec fn effective_alignment(self, requested: Option<u64>) -> u64 {
        match requested {
            Some(a) => a,
            None => self.alignment,
        }
    }

    /// Every memory space lies inside the 64-bit address space.
    pub open spec fn spaces_fit(self) -> bool {
        &&& self.rom.fits()
        &&& self.itcm.fits()
        &&& self.ram.fits()
    }

    /// No alignment that applies to `binary` is zero.
    pub open spec fn aligns(self, binary: Binary) -> bool {
        &&& self.effective_alignment(binary.exec_mem.alignment) != 0
        &&& self.effective_alignment(binary.ram_alignment) != 0
    }
}

/// What to build and for which platform.
#[derive(Clone, Debug)]
pub struct Manifest {
    pub platform: Platform,
    pub rom: Option<Binary>,
    pub kernel: Binary,
    pub apps: Vec<Binary>,
}

impl Manifest {
    /// The manifest can be laid out without an arithmetic fault: its spaces
    /// fit the address space and no alignment that applies is zero.
    pub open spec fn well_formed(self) -> bool {
        &&& self.platform.spaces_fit()
        &&& (self.rom matches Some(b) ==> self.platform.aligns(b))
        &&& self.platform.aligns(self.kernel)
        &&& forall|i: int| 0 <= i < self.apps@.len() ==> self.platform.aligns(#[trigger] self.apps@[i])
    }
}

} // verus!
