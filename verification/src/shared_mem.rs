//! A feature tensor shared with the inference process through a memory-mapped
//! file, and a small arithmetic helper.
//!
//! Other processes read the mapped file. Modifying it from outside while it
//! is mapped is undefined behaviour under memmap2's safety contract, so the
//! bytes the mapping holds change only through this process's writes, and the
//! contracts state them.

use memmap2::MmapMut;
use vstd::prelude::*;

verus! {

#[verifier::external_type_specification]
#[verifier::external_body]
pub struct ExMmapMut(MmapMut);

/// The length in bytes of a writable mapping (fixed when it is made).
pub uninterp spec fn mapped_len(m: MmapMut) -> nat;

/// The bytes a writable mapping holds.
pub uninterp spec fn mapped_bytes(m: MmapMut) -> Seq<u8>;

/// memmap2's `MmapMut` length (through its `Deref` to a byte slice): the
/// length of the mapping, which is the number of bytes it holds.
#[verifier::external_body]
fn mmap_len(m: &MmapMut) -> (n: usize)
    ensures
        n == mapped_len(*m),
        n == mapped_bytes(*m).len(),
{
    m.len()
}

/// Copies `bytes` to the start of the mapping through memmap2's `DerefMut`
/// and the slice's `copy_from_slice`; the slice range panics unless the bytes
/// fit, which `requires` rules out. The mapping keeps its length; its first
/// bytes are then `bytes` and the rest are as they were.
#[verifier::external_body]
fn mmap_write_prefix(m: &mut MmapMut, bytes: &[u8])
    requires
        bytes@.len() <= mapped_len(*old(m)),
    ensures
        mapped_len(*final(m)) == mapped_len(*old(m)),
        mapped_bytes(*final(m)) == bytes@ + mapped_bytes(*old(m)).skip(bytes@.len() as int),
{
    m[..bytes.len()].copy_from_slice(bytes)
}

/// A tensor in a shared memory mapping.
pub struct SharedTensor {
    mmap: MmapMut,
}

impl SharedTensor {
    /// The size of the mapping in bytes.
    pub closed spec fn capacity(self) -> nat {
        mapped_len(self.mmap)
    }

    /// The bytes the mapping holds.
    pub closed spec fn contents(self) -> Seq<u8> {
        mapped_bytes(self.mmap)
    }

    /// A tensor over an existing writable mapping.
    pub fn from_mapping(mmap: MmapMut) -> (t: Self)
        ensures
            t.capacity() == mapped_len(mmap),
            t.contents() == mapped_bytes(mmap),
    {
        SharedTensor { mmap }
    }

    /// The size of the mapping in bytes.
    pub fn len(&self) -> (n: usize)
        ensures
            n == self.capacity(),
            n == self.contents().len(),
    {
        mmap_len(&self.mmap)
    }

    /// Writes the tensor's bytes at the start of the mapping; the bytes
    /// after them stay as they were.
    pub fn write(&mut self, bytes: &[u8])
        requires
            bytes@.len() <= old(self).capacity(),
        ensures
            final(self).capacity() == old(self).capacity(),
            final(self).contents() == bytes@ + old(self).contents().skip(bytes@.len() as int),
    {
        mmap_write_prefix(&mut self.mmap, bytes);
    }

    /// Writes the tensor's bytes where they fit in the mapping; reports
    /// whether they did (nothing is written otherwise).
    pub fn write_bytes_if_fits(&mut self, bytes: &[u8]) -> (wrote: bool)
        ensures
            wrote == (bytes@.len() <= old(self).capacity()),
            final(self).capacity() == old(self).capacity(),
            wrote ==> final(self).contents() == bytes@ + old(self).contents().skip(
                bytes@.len() as int,
            ),
            !wrote ==> final(self).contents() == old(self).contents(),
    {
        if bytes.len() <= self.len() {
            self.write(bytes);
            true
        } else {
            false
        }
    }
}

/// The sum of two numbers.
pub fn add(left: u64, right: u64) -> (r: u64)
    requires
        left + right <= u64::MAX,
    ensures
        r == left + right,
{
    left + right
}

} // verus!
