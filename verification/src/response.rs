//! Execution outcomes and the response codec: the taxonomy of command
//! execution errors, the fixed mapping of each error to a sense descriptor,
//! and the wire layout of the virtio-scsi response structure.

use vstd::prelude::*;

use crate::constants::CHECK_CONDITION;
use crate::constants::DATA_PROTECT;
use crate::constants::GOOD;
use crate::constants::ILLEGAL_REQUEST;
use crate::constants::MEDIUM_ERROR;
use crate::constants::RESP_SIZE;
use crate::constants::SENSE_SIZE;
use crate::constants::VIRTIO_SCSI_S_BAD_TARGET;
use crate::constants::VIRTIO_SCSI_S_OK;
use crate::sense::spec_fixed_sense_bytes;
use crate::sense::spec_fixed_sense_len;
use crate::sense::Sense;

verus! {

/// Errors that happen while handling a SCSI command.
#[derive(Copy, Clone, Debug, PartialEq, Eq, Structural)]
pub enum ExecuteError {
    /// A field of the CDB is invalid for the addressed device.
    InvalidField,
    /// The requested block range runs past the end of the device.
    LbaOutOfRange {
        /// Transfer length of the request, in blocks.
        length: usize,
        /// First logical block address of the request.
        sector: u64,
        /// Block bound of the addressed logical unit.
        max_lba: u64,
    },
    /// The request structure could not be read from the chain.
    Read,
    /// The command could not be read from the CDB.
    ReadCommand,
    /// A read transfer completed short, with bytes left over.
    ReadIo {
        /// Bytes that remained to be read.
        resid: usize,
    },
    /// A write was attempted on a read-only device.
    ReadOnly,
    /// The opcode is outside the supported command subset.
    Unsupported(u8),
    /// The response could not be written to the chain.
    Write,
    /// A write transfer completed short, with bytes left over.
    WriteIo {
        /// Bytes that remained to be written.
        resid: usize,
    },
}

/// The fixed lookup from an execution error to its sense descriptor.  The
/// protocol-level faults each carry a sense triple; the partial-transfer
/// outcomes carry none, since they are answered with a residual byte count
/// instead of a CHECK CONDITION.  Write protection reports its own triple,
/// distinct from the out-of-range one.
pub open spec fn spec_sense_of_error(e: ExecuteError) -> Option<Sense> {
    match e {
        // Unrecovered read error.
        ExecuteError::Read | ExecuteError::ReadCommand => Some(
            Sense { key: MEDIUM_ERROR, asc: 0x11, ascq: 0x00 },
        ),
        // Write error.
        ExecuteError::Write => Some(Sense { key: MEDIUM_ERROR, asc: 0x0c, ascq: 0x00 }),
        // Invalid field in CDB.
        ExecuteError::InvalidField => Some(Sense { key: ILLEGAL_REQUEST, asc: 0x24, ascq: 0x00 }),
        // Invalid command operation code.
        ExecuteError::Unsupported(_) => Some(Sense { key: ILLEGAL_REQUEST, asc: 0x20, ascq: 0x00 }),
        // Logical block address out of range.
        ExecuteError::LbaOutOfRange { .. } => Some(
            Sense { key: ILLEGAL_REQUEST, asc: 0x21, ascq: 0x00 },
        ),
        // Write protected.
        ExecuteError::ReadOnly => Some(Sense { key: DATA_PROTECT, asc: 0x27, ascq: 0x00 }),
        // Partial transfers are not protocol violations and carry no sense.
        ExecuteError::ReadIo { .. } | ExecuteError::WriteIo { .. } => None,
    }
}

/// The residual byte count an execution error reports: the bytes left over by
/// a short transfer, clipped to the range of the wire field, and zero for
/// every other outcome.
pub open spec fn spec_resid_of_error(e: ExecuteError) -> u32 {
    match e {
        ExecuteError::ReadIo { resid } | ExecuteError::WriteIo { resid } => {
            if resid > u32::MAX {
                u32::MAX
            } else {
                resid as u32
            }
        },
        _ => 0u32,
    }
}

/// Mathematical image of a response: what the response structure holds, with
/// the sense area as a sequence.
#[verifier::ext_equal]
pub ghost struct SpecResp {
    /// Number of effective bytes in the sense area.
    pub sense_len: u32,
    /// Residual byte count of a short transfer.
    pub resid: u32,
    /// Status qualifier, unused by this target.
    pub status_qualifier: u16,
    /// SAM status code of the command.
    pub status: u8,
    /// Transport-level response code.
    pub response: u8,
    /// The sense area.
    pub sense: Seq<u8>,
}

/// A zeroed sense area, as a sequence.
pub open spec fn spec_zero_sense() -> Seq<u8> {
    Seq::new(SENSE_SIZE as nat, |i: int| 0u8)
}

/// The successful response: status GOOD, transport code OK, no sense bytes,
/// no residue.
pub open spec fn spec_ok_resp() -> SpecResp {
    SpecResp {
        sense_len: 0,
        resid: 0,
        status_qualifier: 0,
        status: GOOD,
        response: VIRTIO_SCSI_S_OK,
        sense: spec_zero_sense(),
    }
}

/// The response to a request addressed to a target this device does not
/// expose: everything at its default except the transport-level bad-target
/// code.
pub open spec fn spec_bad_target_resp() -> SpecResp {
    SpecResp {
        sense_len: 0,
        resid: 0,
        status_qualifier: 0,
        status: GOOD,
        response: VIRTIO_SCSI_S_BAD_TARGET,
        sense: spec_zero_sense(),
    }
}

/// The response to an execution error.  A protocol-level fault is answered
/// with status CHECK CONDITION and its fixed-format sense descriptor; a
/// partial transfer is answered with the default status and the residual
/// byte count; nothing else deviates from the successful response.
pub open spec fn spec_error_resp(e: ExecuteError) -> SpecResp {
    match spec_sense_of_error(e) {
        Some(s) => SpecResp {
            sense_len: spec_fixed_sense_len(),
            resid: 0,
            status_qualifier: 0,
            status: CHECK_CONDITION,
            response: VIRTIO_SCSI_S_OK,
            sense: spec_fixed_sense_bytes(s),
        },
        None => SpecResp {
            sense_len: 0,
            resid: spec_resid_of_error(e),
            status_qualifier: 0,
            status: GOOD,
            response: VIRTIO_SCSI_S_OK,
            sense: spec_zero_sense(),
        },
    }
}

/// The wire image of a response: the sense length, the residual count, the
/// status qualifier, the status byte, the response byte and the sense area.
/// The multi-byte header fields travel in little-endian order, except the
/// residual count, which travels big-endian on the wire.
pub open spec fn spec_resp_bytes(r: SpecResp) -> Seq<u8> {
    seq![
        (r.sense_len & 0xff) as u8,
        ((r.sense_len >> 8) & 0xff) as u8,
        ((r.sense_len >> 16) & 0xff) as u8,
        ((r.sense_len >> 24) & 0xff) as u8,
        ((r.resid >> 24) & 0xff) as u8,
        ((r.resid >> 16) & 0xff) as u8,
        ((r.resid >> 8) & 0xff) as u8,
        (r.resid & 0xff) as u8,
        (r.status_qualifier & 0xff) as u8,
        ((r.status_qualifier >> 8) & 0xff) as u8,
        r.status,
        r.response,
    ] + r.sense
}

/// The virtio-scsi response structure: the status header followed by the
/// sense area.  `sense` always holds the full sense area.
#[derive(Debug)]
pub struct VirtioScsiCmdResp {
    /// Number of effective bytes in the sense area.
    pub sense_len: u32,
    /// Residual byte count of a short transfer.
    pub resid: u32,
    /// Status qualifier, unused by this target.
    pub status_qualifier: u16,
    /// SAM status code of the command.
    pub status: u8,
    /// Transport-level response code.
    pub response: u8,
    /// The sense area.
    pub sense: Vec<u8>,
}

impl View for VirtioScsiCmdResp {
    type V = SpecResp;

    open spec fn view(&self) -> SpecResp {
        SpecResp {
            sense_len: self.sense_len,
            resid: self.resid,
            status_qualifier: self.status_qualifier,
            status: self.status,
            response: self.response,
            sense: self.sense@,
        }
    }
}

impl VirtioScsiCmdResp {
    /// A response is well formed when its sense area has the fixed wire size.
    pub open spec fn wf(self) -> bool {
        self.sense@.len() == SENSE_SIZE
    }

    /// Builds the successful response.
    pub fn ok_resp() -> (r: VirtioScsiCmdResp)
        ensures
            r.wf(),
            r@ =~= spec_ok_resp(),
    {
        VirtioScsiCmdResp {
            sense_len: 0,
            resid: 0,
            status_qualifier: 0,
            status: GOOD,
            response: VIRTIO_SCSI_S_OK,
            sense: zero_sense_area(),
        }
    }

    /// Builds the response that rejects a request addressed to a target this
    /// device does not expose.
    pub fn bad_target_resp() -> (r: VirtioScsiCmdResp)
        ensures
            r.wf(),
            r@ =~= spec_bad_target_resp(),
    {
        VirtioScsiCmdResp {
            sense_len: 0,
            resid: 0,
            status_qualifier: 0,
            status: GOOD,
            response: VIRTIO_SCSI_S_BAD_TARGET,
            sense: zero_sense_area(),
        }
    }

    /// Serializes the response into its wire image.
    pub fn to_bytes(&self) -> (r: Vec<u8>)
        requires
            self.wf(),
        ensures
            r@ =~= spec_resp_bytes(self@),
            r@.len() == RESP_SIZE,
    {
        let mut out: Vec<u8> = Vec::new();
        out.push((self.sense_len & 0xff) as u8);
        out.push(((self.sense_len >> 8) & 0xff) as u8);
        out.push(((self.sense_len >> 16) & 0xff) as u8);
        out.push(((self.sense_len >> 24) & 0xff) as u8);
        out.push(((self.resid >> 24) & 0xff) as u8);
        out.push(((self.resid >> 16) & 0xff) as u8);
        out.push(((self.resid >> 8) & 0xff) as u8);
        out.push((self.resid & 0xff) as u8);
        out.push((self.status_qualifier & 0xff) as u8);
        out.push(((self.status_qualifier >> 8) & 0xff) as u8);
        out.push(self.status);
        out.push(self.response);
        let mut i: usize = 0;
        while i < self.sense.len()
            invariant
                i <= self.sense@.len(),
                out@.len() == 12 + i,
                out@ =~= spec_resp_bytes(self@).take(12 + i as int),
                self.wf(),
            decreases self.sense@.len() - i,
        {
            out.push(self.sense[i]);
            i = i + 1;
        }
        out
    }
}

/// A zeroed sense area.
fn zero_sense_area() -> (r: Vec<u8>)
    ensures
        r@ =~= spec_zero_sense(),
{
    let mut v: Vec<u8> = Vec::new();
    let mut i: usize = 0;
    while i < SENSE_SIZE
        invariant
            i <= SENSE_SIZE,
            v@.len() == i,
            forall|j: int| 0 <= j < i ==> v@[j] == 0u8,
        decreases SENSE_SIZE - i,
    {
        v.push(0u8);
        i = i + 1;
    }
    v
}

impl ExecuteError {
    /// Maps the execution outcome to its wire response.
    pub fn as_resp(&self) -> (r: VirtioScsiCmdResp)
        ensures
            r.wf(),
            r@ =~= spec_error_resp(*self),
    {
        match self {
            ExecuteError::ReadIo { resid } | ExecuteError::WriteIo { resid } => {
                let mut resp = VirtioScsiCmdResp::ok_resp();
                resp.resid = if *resid > u32::MAX as usize {
                    u32::MAX
                } else {
                    *resid as u32
                };
                resp
            },
            _ => {
                let sense = match self {
                    ExecuteError::Read | ExecuteError::ReadCommand => Sense {
                        key: MEDIUM_ERROR,
                        asc: 0x11,
                        ascq: 0x00,
                    },
                    ExecuteError::Write => Sense { key: MEDIUM_ERROR, asc: 0x0c, ascq: 0x00 },
                    ExecuteError::InvalidField => Sense {
                        key: ILLEGAL_REQUEST,
                        asc: 0x24,
                        ascq: 0x00,
                    },
                    ExecuteError::Unsupported(_) => Sense {
                        key: ILLEGAL_REQUEST,
                        asc: 0x20,
                        ascq: 0x00,
                    },
                    ExecuteError::LbaOutOfRange { .. } => Sense {
                        key: ILLEGAL_REQUEST,
                        asc: 0x21,
                        ascq: 0x00,
                    },
                    _ => Sense { key: DATA_PROTECT, asc: 0x27, ascq: 0x00 },
                };
                let (sense_bytes, sense_len) = sense.as_bytes(true);
                VirtioScsiCmdResp {
                    sense_len,
                    resid: 0,
                    status_qualifier: 0,
                    status: CHECK_CONDITION,
                    response: VIRTIO_SCSI_S_OK,
                    sense: sense_bytes,
                }
            },
        }
    }
}

/// Law: the sense codec round-trips.  Encoding any execution error that
/// carries a sense descriptor and decoding the sense area of the resulting
/// response recovers exactly that descriptor, through the fixed-format layout
/// with response code 0x70 and additional length 10.
pub proof fn lemma_error_sense_round_trip(e: ExecuteError)
    requires
        spec_sense_of_error(e) is Some,
    ensures
        crate::sense::spec_decode_fixed_sense(spec_error_resp(e).sense) == spec_sense_of_error(e),
{
}

} // verus!
