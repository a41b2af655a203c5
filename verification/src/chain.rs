//! The descriptor chain: one guest-submitted request, an opaque input byte
//! stream and a bounded, writable output split into the response header
//! region and the trailing payload region.

use vstd::prelude::*;

use crate::constants::RESP_SIZE;

verus! {

/// A bounded output region of a descriptor chain.  Writes append; the guest
/// decides the capacity when it builds the chain, and nothing can be written
/// past it.
#[derive(Debug)]
pub struct WriteBuf {
    /// The bytes written so far.
    pub data: Vec<u8>,
    /// The region's capacity in bytes.
    pub capacity: usize,
}

impl WriteBuf {
    /// A write buffer is well formed when it has not outgrown its capacity.
    pub open spec fn wf(self) -> bool {
        self.data@.len() <= self.capacity
    }

    /// Bytes still writable.
    pub open spec fn spec_room(self) -> int {
        self.capacity - self.data@.len()
    }

    /// Builds an empty region of the given capacity.
    pub fn new(capacity: usize) -> (r: WriteBuf)
        ensures
            r.wf(),
            r.data@.len() == 0,
            r.capacity == capacity,
    {
        WriteBuf { data: Vec::new(), capacity }
    }

    /// Number of bytes written so far.
    pub fn bytes_written(&self) -> (r: usize)
        ensures
            r == self.data@.len(),
    {
        self.data.len()
    }

    /// Writes the whole buffer, or nothing: the write fails, leaving the
    /// region unchanged, exactly when the bytes do not fit in the remaining
    /// room.
    pub fn write_all(&mut self, bytes: &[u8]) -> (r: Result<(), ()>)
        requires
            old(self).wf(),
        ensures
            final (self).wf(),
            final (self).capacity == old(self).capacity,
            bytes@.len() <= old(self).spec_room() ==> r is Ok && final (self).data@ =~= old(
                self,
            ).data@ + bytes@,
            bytes@.len() > old(self).spec_room() ==> r is Err && *final (self) == *old(self),
    {
        if bytes.len() <= self.capacity - self.data.len() {
            let mut i: usize = 0;
            while i < bytes.len()
                invariant
                    i <= bytes@.len(),
                    self.data@ =~= old(self).data@ + bytes@.take(i as int),
                    self.capacity == old(self).capacity,
                    old(self).data@.len() + bytes@.len() <= self.capacity,
                decreases bytes@.len() - i,
            {
                self.data.push(bytes[i]);
                i = i + 1;
            }
            assert(bytes@.take(bytes@.len() as int) =~= bytes@);
            Ok(())
        } else {
            Err(())
        }
    }

    /// Writes as much of the buffer as fits and returns how many bytes that
    /// was: the whole buffer when there is room, else exactly the remaining
    /// room.
    pub fn write_clipped(&mut self, bytes: &[u8]) -> (n: usize)
        requires
            old(self).wf(),
        ensures
            final (self).wf(),
            final (self).capacity == old(self).capacity,
            n == if bytes@.len() <= old(self).spec_room() {
                bytes@.len() as int
            } else {
                old(self).spec_room()
            },
            final (self).data@ =~= old(self).data@ + bytes@.take(n as int),
    {
        let room = self.capacity - self.data.len();
        let n = if bytes.len() <= room {
            bytes.len()
        } else {
            room
        };
        let mut i: usize = 0;
        while i < n
            invariant
                i <= n,
                n <= bytes@.len(),
                self.data@ =~= old(self).data@ + bytes@.take(i as int),
                self.capacity == old(self).capacity,
                old(self).data@.len() + n <= self.capacity,
            decreases n - i,
        {
            self.data.push(bytes[i]);
            i = i + 1;
        }
        n
    }
}

/// One guest-submitted request: the readable input stream (request structure
/// and any write payload) and the writable output, already split at the
/// response structure's size into the response region and the payload region.
#[derive(Debug)]
pub struct DescriptorChain {
    /// The device-readable input stream.
    pub input: Vec<u8>,
    /// The output region holding the response structure.
    pub resp: WriteBuf,
    /// The output region holding any read payload.
    pub data: WriteBuf,
}

impl DescriptorChain {
    /// A chain is well formed when both output regions are and their joint
    /// capacity, the chain's writable area, is addressable.
    pub open spec fn wf(self) -> bool {
        self.resp.wf() && self.data.wf() && self.resp.capacity + self.data.capacity <= usize::MAX
    }

    /// Builds a chain from its input stream and the capacity of its writable
    /// output.  The response region takes the response structure's size off
    /// the front of the writable area; the payload region takes the rest.
    pub fn new(input: Vec<u8>, out_capacity: usize) -> (r: DescriptorChain)
        ensures
            r.wf(),
            r.input@ == input@,
            r.resp.data@.len() == 0,
            r.data.data@.len() == 0,
            r.resp.capacity == if out_capacity < RESP_SIZE {
                out_capacity as int
            } else {
                RESP_SIZE as int
            },
            r.data.capacity == if out_capacity < RESP_SIZE {
                0int
            } else {
                out_capacity - RESP_SIZE
            },
    {
        let resp_cap = if out_capacity < RESP_SIZE {
            out_capacity
        } else {
            RESP_SIZE
        };
        DescriptorChain {
            input,
            resp: WriteBuf::new(resp_cap),
            data: WriteBuf::new(out_capacity - resp_cap),
        }
    }
}

} // verus!
