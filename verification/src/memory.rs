//! The reference byte-array device.
//!
//! Device modules implement their memory callbacks however they like; the
//! contract only asks that they ignore the part of a request that falls
//! outside their storage and copy as much as they can.  This type is that
//! contract taken literally: a plain byte array with exactly those
//! semantics.  It serves as the verified reference model for what a
//! well-behaved RAM module does with the clamped requests the bus hands
//! out, and as the memory of simulated RAM devices hosted in Rust.

use vstd::prelude::*;

use crate::bus::{clamped_copy_len, overlay_read, overlay_write};

verus! {

/// A device memory that is nothing but `size` addressable bytes.
pub struct ByteArrayMemory {
    bytes: Vec<u8>,
}

impl View for ByteArrayMemory {
    type V = Seq<u8>;

    closed spec fn view(&self) -> Seq<u8> {
        self.bytes@
    }
}

impl ByteArrayMemory {
    /// A zero-filled memory of `size` bytes.
    pub fn new(size: u32) -> (memory: ByteArrayMemory)
        ensures
            memory@.len() == size,
            forall|k: int| 0 <= k < size ==> memory@[k] == 0u8,
    {
        let mut bytes: Vec<u8> = Vec::new();
        let mut k: u32 = 0;
        while k < size
            invariant
                k <= size,
                bytes@.len() == k,
                forall|j: int| 0 <= j < k ==> bytes@[j] == 0u8,
            decreases size - k,
        {
            bytes.push(0u8);
            k = k + 1;
        }
        ByteArrayMemory { bytes }
    }

    /// The number of locally addressable bytes.
    pub fn size(&self) -> (size: usize)
        ensures
            size == self@.len(),
    {
        self.bytes.len()
    }

    /// The `load_bytes` behaviour of a well-behaved device: copies the
    /// bytes of `[local, local + count)` that exist to the front of
    /// `dest`, ignores the rest of the request, leaves the remaining
    /// destination bytes untouched, and reports success.
    pub fn load_bytes(&self, local: u32, count: u32, dest: &mut Vec<u8>) -> (status: i32)
        requires
            count <= old(dest)@.len(),
        ensures
            status == 0,
            final(dest)@ == overlay_read(self@, local as int, count as int, old(dest)@),
    {
        let ghost dest0 = dest@;
        let len = self.bytes.len();
        let local_offset = local as usize;
        let copied: usize = if local_offset <= len {
            let avail = len - local_offset;
            if (count as usize) < avail {
                count as usize
            } else {
                avail
            }
        } else {
            0
        };
        let mut k: usize = 0;
        while k < copied
            invariant
                k <= copied,
                local_offset == local as int,
                len == self@.len(),
                copied == clamped_copy_len(self@.len() as int, local as int, count as int),
                copied == 0 || local as int + copied <= self@.len(),
                copied <= dest@.len(),
                dest@.len() == dest0.len(),
                forall|j: int| 0 <= j < k ==> dest@[j] == self@[local + j],
                forall|j: int| k <= j < dest0.len() ==> dest@[j] == dest0[j],
            decreases copied - k,
        {
            let byte = self.bytes[local_offset + k];
            dest[k] = byte;
            k = k + 1;
        }
        proof {
            assert(dest@ =~= overlay_read(self@, local as int, count as int, dest0));
        }
        0
    }

    /// The `write_bytes` behaviour of a well-behaved device: overwrites
    /// the bytes of `[local, local + count)` that exist with the front of
    /// `source`, ignores the rest of the request, and reports success.
    pub fn write_bytes(&mut self, local: u32, count: u32, source: &Vec<u8>) -> (status: i32)
        requires
            count <= source@.len(),
        ensures
            status == 0,
            final(self)@ == overlay_write(old(self)@, local as int, count as int, source@),
    {
        let ghost mem0 = self@;
        let len = self.bytes.len();
        let local_offset = local as usize;
        let copied: usize = if local_offset <= len {
            let avail = len - local_offset;
            if (count as usize) < avail {
                count as usize
            } else {
                avail
            }
        } else {
            0
        };
        let mut k: usize = 0;
        while k < copied
            invariant
                k <= copied,
                local_offset == local as int,
                len == mem0.len(),
                copied == clamped_copy_len(mem0.len() as int, local as int, count as int),
                copied == 0 || local as int + copied <= mem0.len(),
                copied <= count,
                count <= source@.len(),
                self@.len() == mem0.len(),
                forall|j: int| local <= j < local + k ==> self@[j] == source@[j - local],
                forall|j: int|
                    0 <= j < mem0.len() && !(local <= j < local + k) ==> self@[j] == mem0[j],
            decreases copied - k,
        {
            let byte = source[k];
            self.bytes[local_offset + k] = byte;
            k = k + 1;
        }
        proof {
            assert(self@ =~= overlay_write(mem0, local as int, count as int, source@));
        }
        0
    }
}

} // verus!
