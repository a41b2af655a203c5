//! Sense data: the three-field diagnostic descriptor returned beside a
//! CHECK CONDITION status, with its two wire encodings (fixed format and
//! descriptor format) and the decoder of the fixed format.

use vstd::prelude::*;

use crate::constants::SENSE_SIZE;

verus! {

/// Sense code representation: a generic key plus the additional sense code
/// and its qualifier, which narrow the reported condition down.
#[derive(Copy, Clone, Debug, PartialEq, Eq, Structural)]
pub struct Sense {
    /// Generic information describing an error or exception condition.
    pub key: u8,
    /// Additional sense code.
    pub asc: u8,
    /// Additional sense code qualifier.
    pub ascq: u8,
}

/// The fixed-format encoding of a sense descriptor, padded to the size of the
/// sense area: response code 0x70 (current error), the key at byte 2, the
/// additional length fixed at 10 (18 effective bytes), the additional sense
/// code at byte 12 and its qualifier at byte 13; everything else zero.
pub open spec fn spec_fixed_sense_bytes(s: Sense) -> Seq<u8> {
    Seq::new(SENSE_SIZE as nat, |i: int| {
        if i == 0 {
            0x70u8
        } else if i == 2 {
            s.key
        } else if i == 7 {
            10u8
        } else if i == 12 {
            s.asc
        } else if i == 13 {
            s.ascq
        } else {
            0u8
        }
    })
}

/// The descriptor-format encoding, padded likewise: response code 0x72
/// (current error), then the key, the additional sense code and its qualifier
/// at bytes 1 to 3; the additional sense length stays 0 (8 effective bytes).
pub open spec fn spec_desc_sense_bytes(s: Sense) -> Seq<u8> {
    Seq::new(SENSE_SIZE as nat, |i: int| {
        if i == 0 {
            0x72u8
        } else if i == 1 {
            s.key
        } else if i == 2 {
            s.asc
        } else if i == 3 {
            s.ascq
        } else {
            0u8
        }
    })
}

/// Number of effective bytes of the fixed-format encoding.
pub open spec fn spec_fixed_sense_len() -> u32 {
    18u32
}

/// Number of effective bytes of the descriptor-format encoding.
pub open spec fn spec_desc_sense_len() -> u32 {
    8u32
}

/// What decoding a fixed-format sense area recovers: the key, additional
/// sense code and qualifier, provided the response code says fixed-format
/// current error and the additional length has the fixed value 10.
pub open spec fn spec_decode_fixed_sense(bytes: Seq<u8>) -> Option<Sense> {
    if bytes.len() >= 18 && bytes[0] == 0x70u8 && bytes[7] == 10u8 {
        Some(Sense { key: bytes[2], asc: bytes[12], ascq: bytes[13] })
    } else {
        None
    }
}

impl Sense {
    /// Serializes the sense descriptor into the sense area, in fixed format
    /// when `fixed` is set and in descriptor format otherwise, and returns the
    /// buffer together with the number of effective sense bytes.
    pub fn as_bytes(&self, fixed: bool) -> (r: (Vec<u8>, u32))
        ensures
            fixed ==> r.0@ =~= spec_fixed_sense_bytes(*self) && r.1 == spec_fixed_sense_len(),
            !fixed ==> r.0@ =~= spec_desc_sense_bytes(*self) && r.1 == spec_desc_sense_len(),
            r.0@.len() == SENSE_SIZE,
    {
        let mut sense_data: Vec<u8> = Vec::new();
        let mut i: usize = 0;
        while i < SENSE_SIZE
            invariant
                i <= SENSE_SIZE,
                sense_data@.len() == i,
                forall|j: int| 0 <= j < i ==> sense_data@[j] == 0u8,
            decreases SENSE_SIZE - i,
        {
            sense_data.push(0u8);
            i = i + 1;
        }
        if fixed {
            sense_data.set(0, 0x70);
            sense_data.set(2, self.key);
            sense_data.set(7, 10);
            sense_data.set(12, self.asc);
            sense_data.set(13, self.ascq);
            (sense_data, 18)
        } else {
            sense_data.set(0, 0x72);
            sense_data.set(1, self.key);
            sense_data.set(2, self.asc);
            sense_data.set(3, self.ascq);
            (sense_data, 8)
        }
    }
}

/// Decodes a fixed-format sense area back into the sense descriptor.  Returns
/// the triple exactly when the buffer is long enough, carries the
/// fixed-format current-error response code 0x70 and the fixed additional
/// length 10.
pub fn decode_fixed_sense(bytes: &Vec<u8>) -> (r: Option<Sense>)
    ensures
        r == spec_decode_fixed_sense(bytes@),
{
    if bytes.len() >= 18 && bytes[0] == 0x70 && bytes[7] == 10 {
        Some(Sense { key: bytes[2], asc: bytes[12], ascq: bytes[13] })
    } else {
        None
    }
}

/// Law: the fixed-format sense encoding round-trips.  Encoding any sense
/// descriptor in fixed format and decoding the resulting bytes recovers the
/// same key, additional sense code and qualifier.
pub proof fn lemma_fixed_sense_round_trip(s: Sense)
    ensures
        spec_decode_fixed_sense(spec_fixed_sense_bytes(s)) == Some(s),
{
}

} // verus!
