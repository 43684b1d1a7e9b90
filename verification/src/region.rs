//! The byte-level model of a scoped memory region.
//!
//! A [`ByteRegion`] stands for the span of memory that one scope request
//! provides: a fixed number of byte cells, each either still uninitialized
//! (`None`) or holding a written byte (`Some`). Reading a cell demands that
//! it has been written first, so a callback can never observe an
//! uninitialized byte. The region is handed to the callback by value and
//! dropped when the callback finishes, which is what ties its life to the
//! callback's duration.

use vstd::prelude::*;

verus! {

/// A contiguous region of byte cells, each possibly uninitialized.
pub struct ByteRegion {
    data: Vec<Option<u8>>,
}

impl View for ByteRegion {
    type V = Seq<Option<u8>>;

    closed spec fn view(&self) -> Seq<Option<u8>> {
        self.data@
    }
}

/// The region has exactly `size` cells and none of them has been written.
pub open spec fn uninit_bytes(reg: ByteRegion, size: nat) -> bool {
    &&& reg@.len() == size
    &&& forall|j: int| 0 <= j < size ==> reg@[j] is None
}

/// The region has exactly `size` cells and every one of them holds the byte 0.
pub open spec fn zeroed_bytes(reg: ByteRegion, size: nat) -> bool {
    &&& reg@.len() == size
    &&& forall|j: int| 0 <= j < size ==> reg@[j] == Some(0u8)
}

impl ByteRegion {
    /// A fresh region of `size` cells, all uninitialized.
    pub(crate) fn uninit(size: usize) -> (reg: ByteRegion)
        ensures
            uninit_bytes(reg, size as nat),
    {
        let mut data: Vec<Option<u8>> = Vec::new();
        let mut i: usize = 0;
        while i < size
            invariant
                i <= size,
                data@.len() == i,
                forall|j: int| 0 <= j < i ==> data@[j] is None,
            decreases size - i,
        {
            data.push(None);
            i = i + 1;
        }
        ByteRegion { data }
    }

    /// A fresh region of `size` cells, every byte written to 0.
    pub(crate) fn zeroed(size: usize) -> (reg: ByteRegion)
        ensures
            zeroed_bytes(reg, size as nat),
    {
        let mut data: Vec<Option<u8>> = Vec::new();
        let mut i: usize = 0;
        while i < size
            invariant
                i <= size,
                data@.len() == i,
                forall|j: int| 0 <= j < i ==> data@[j] == Some(0u8),
            decreases size - i,
        {
            data.push(Some(0u8));
            i = i + 1;
        }
        ByteRegion { data }
    }

    /// The number of byte cells in the region.
    pub fn len(&self) -> (n: usize)
        ensures
            n == self@.len(),
    {
        self.data.len()
    }

    /// Writes `v` into cell `i`; every other cell keeps its state.
    pub fn write(&mut self, i: usize, v: u8)
        requires
            i < old(self)@.len(),
        ensures
            final(self)@ == old(self)@.update(i as int, Some(v)),
    {
        self.data.set(i, Some(v));
    }

    /// Reads cell `i`, which must have been written before.
    pub fn read(&self, i: usize) -> (v: u8)
        requires
            i < self@.len(),
            self@[i as int] is Some,
        ensures
            Some(v) == self@[i as int],
    {
        self.data[i].unwrap()
    }
}

} // verus!
