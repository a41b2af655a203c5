//! The backing storage model: an in-memory image with the collaborator
//! interface the execution engine relies on — a byte length, and read and
//! write operations that report how many bytes they transferred, so a short
//! transfer is distinguishable from a full one.

use vstd::prelude::*;

verus! {

/// How many bytes of a transfer of `count` bytes at `offset` lie inside an
/// image of `len` bytes.
pub open spec fn spec_clip(len: int, offset: int, count: int) -> int {
    if offset >= len {
        0
    } else if count <= len - offset {
        count
    } else {
        len - offset
    }
}

/// An in-memory storage image.
#[derive(Debug)]
pub struct StorageImage {
    /// The stored bytes.
    pub bytes: Vec<u8>,
}

impl StorageImage {
    /// The stored bytes, as a sequence.
    pub open spec fn view(self) -> Seq<u8> {
        self.bytes@
    }

    /// Builds an image over the given bytes.
    pub fn new(bytes: Vec<u8>) -> (r: StorageImage)
        ensures
            r@ == bytes@,
    {
        StorageImage { bytes }
    }

    /// Current length of the image in bytes.
    pub fn get_len(&self) -> (r: usize)
        ensures
            r == self@.len(),
    {
        self.bytes.len()
    }

    /// Reads up to `count` bytes at `offset` and returns them; the transfer
    /// is clipped at the end of the image, and an offset at or past the end
    /// transfers nothing.
    pub fn read_at(&self, offset: u64, count: usize) -> (r: Vec<u8>)
        ensures
            r@.len() == spec_clip(self@.len() as int, offset as int, count as int),
            r@ =~= self@.subrange(
                if offset as int <= self@.len() as int {
                    offset as int
                } else {
                    self@.len() as int
                },
                (if offset as int <= self@.len() as int {
                    offset as int
                } else {
                    self@.len() as int
                }) + spec_clip(self@.len() as int, offset as int, count as int),
            ),
    {
        let len = self.bytes.len();
        if offset >= len as u64 {
            return Vec::new();
        }
        let off = offset as usize;
        let n = if count <= len - off {
            count
        } else {
            len - off
        };
        let mut out: Vec<u8> = Vec::new();
        let mut i: usize = 0;
        while i < n
            invariant
                i <= n,
                off + n <= self.bytes@.len(),
                off + n <= usize::MAX,
                out@ =~= self.bytes@.subrange(off as int, off + i),
            decreases n - i,
        {
            out.push(self.bytes[off + i]);
            i = i + 1;
        }
        out
    }

    /// Writes the buffer at `offset` and returns how many bytes were
    /// transferred; the transfer is clipped at the end of the image, and an
    /// offset at or past the end transfers nothing.
    pub fn write_at(&mut self, offset: u64, bytes: &[u8]) -> (n: usize)
        ensures
            n == spec_clip(old(self)@.len() as int, offset as int, bytes@.len() as int),
            final (self)@.len() == old(self)@.len(),
            forall|j: int|
                0 <= j < old(self)@.len() ==> final (self)@[j] == if offset <= j < offset + n {
                    bytes@[j - offset]
                } else {
                    old(self)@[j]
                },
    {
        let len = self.bytes.len();
        if offset >= len as u64 {
            return 0;
        }
        let off = offset as usize;
        let n = if bytes.len() <= len - off {
            bytes.len()
        } else {
            len - off
        };
        let mut i: usize = 0;
        while i < n
            invariant
                i <= n,
                off + n <= self.bytes@.len(),
                off + n <= usize::MAX,
                n <= bytes@.len(),
                self.bytes@.len() == old(self).bytes@.len(),
                forall|j: int|
                    0 <= j < self.bytes@.len() ==> self.bytes@[j] == if off <= j < off + i {
                        bytes@[j - off]
                    } else {
                        old(self).bytes@[j]
                    },
            decreases n - i,
        {
            self.bytes.set(off + i, bytes[i]);
            i = i + 1;
        }
        n
    }
}

} // verus!
