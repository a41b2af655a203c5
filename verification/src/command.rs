//! The command decoder: parses the fixed CDB prefix of a request into a
//! typed, validated command, or reports why it cannot.

use vstd::prelude::*;

use crate::constants::INQUIRY;
use crate::constants::READ_10;
use crate::constants::READ_6;
use crate::constants::READ_CAPACITY_10;
use crate::constants::REPORT_LUNS;
use crate::constants::REQUEST_SENSE;
use crate::constants::TEST_UNIT_READY;
use crate::constants::WRITE_10;
use crate::response::ExecuteError;

verus! {

/// A decoded, validated SCSI operation, carrying the parsed fields its
/// execution needs.
#[derive(Copy, Clone, Debug, PartialEq, Eq, Structural)]
pub enum Command {
    /// TEST UNIT READY: report whether the unit accepts commands.
    TestUnitReady,
    /// REQUEST SENSE: return sense data.
    RequestSense {
        /// Number of bytes the initiator allocated for the answer.
        alloc_len: u8,
        /// Whether descriptor-format sense data was requested.
        desc: bool,
    },
    /// READ(6): read blocks, with the short 21-bit addressing.
    Read6 {
        /// First logical block address.
        lba: u32,
        /// Transfer length in blocks; the wire value 0 means 256.
        xfer_blocks: u32,
    },
    /// INQUIRY: return device identification data.
    Inquiry {
        /// Whether a vital-product-data page was requested.
        evpd: bool,
        /// The vital-product-data page code.
        page_code: u8,
        /// Number of bytes the initiator allocated for the answer.
        alloc_len: u16,
    },
    /// READ CAPACITY(10): return the block bound and the block size.
    ReadCapacity10,
    /// READ(10): read blocks.
    Read10 {
        /// First logical block address.
        lba: u32,
        /// Transfer length in blocks.
        xfer_blocks: u16,
    },
    /// WRITE(10): write blocks.
    Write10 {
        /// First logical block address.
        lba: u32,
        /// Transfer length in blocks.
        xfer_blocks: u16,
    },
    /// REPORT LUNS: return the logical unit inventory.
    ReportLuns {
        /// Number of bytes the initiator allocated for the answer.
        alloc_len: u32,
    },
}

/// Whether the opcode belongs to the supported command subset.
pub open spec fn spec_supported_opcode(op: u8) -> bool {
    ||| op == TEST_UNIT_READY
    ||| op == REQUEST_SENSE
    ||| op == READ_6
    ||| op == INQUIRY
    ||| op == READ_CAPACITY_10
    ||| op == READ_10
    ||| op == WRITE_10
    ||| op == REPORT_LUNS
}

/// The number of CDB bytes the opcode's command format occupies.
pub open spec fn spec_cdb_len(op: u8) -> int
    recommends
        spec_supported_opcode(op),
{
    if op == READ_CAPACITY_10 || op == READ_10 || op == WRITE_10 {
        10
    } else if op == REPORT_LUNS {
        12
    } else {
        6
    }
}

/// What decoding a CDB yields.  The leading byte selects the command format;
/// an opcode outside the supported subset is refused as `Unsupported`, and a
/// CDB too short for its recognized format is refused as `ReadCommand`.  The
/// multi-byte fields travel in big-endian order; the READ(6) block address
/// spans the low 5 bits of byte 1 and the two following bytes, and its
/// transfer length reads 0 as 256.
pub open spec fn spec_decode(cdb: Seq<u8>) -> Result<Command, ExecuteError> {
    if cdb.len() == 0 {
        Err(ExecuteError::ReadCommand)
    } else {
        let op = cdb[0];
        if !spec_supported_opcode(op) {
            Err(ExecuteError::Unsupported(op))
        } else if cdb.len() < spec_cdb_len(op) {
            Err(ExecuteError::ReadCommand)
        } else if op == TEST_UNIT_READY {
            Ok(Command::TestUnitReady)
        } else if op == REQUEST_SENSE {
            Ok(Command::RequestSense { alloc_len: cdb[4], desc: cdb[1] & 1 == 1 })
        } else if op == READ_6 {
            Ok(
                Command::Read6 {
                    lba: (((cdb[1] & 0x1f) as u32) * 0x10000 + (cdb[2] as u32) * 0x100 + (
                    cdb[3] as u32)) as u32,
                    xfer_blocks: if cdb[4] == 0 {
                        256
                    } else {
                        cdb[4] as u32
                    },
                },
            )
        } else if op == INQUIRY {
            Ok(
                Command::Inquiry {
                    evpd: cdb[1] & 1 == 1,
                    page_code: cdb[2],
                    alloc_len: ((cdb[3] as u16) * 0x100 + (cdb[4] as u16)) as u16,
                },
            )
        } else if op == READ_CAPACITY_10 {
            Ok(Command::ReadCapacity10)
        } else if op == READ_10 {
            Ok(Command::Read10 { lba: spec_be32(cdb, 2), xfer_blocks: spec_be16(cdb, 7) })
        } else if op == WRITE_10 {
            Ok(Command::Write10 { lba: spec_be32(cdb, 2), xfer_blocks: spec_be16(cdb, 7) })
        } else {
            Ok(Command::ReportLuns { alloc_len: spec_be32(cdb, 6) })
        }
    }
}

/// The big-endian 32-bit integer at the given offset.
pub open spec fn spec_be32(bytes: Seq<u8>, at: int) -> u32
    recommends
        0 <= at,
        at + 4 <= bytes.len(),
{
    ((bytes[at] as u32) * 0x1000000 + (bytes[at + 1] as u32) * 0x10000 + (bytes[at + 2] as u32)
        * 0x100 + (bytes[at + 3] as u32)) as u32
}

/// The big-endian 16-bit integer at the given offset.
pub open spec fn spec_be16(bytes: Seq<u8>, at: int) -> u16
    recommends
        0 <= at,
        at + 2 <= bytes.len(),
{
    ((bytes[at] as u16) * 0x100 + (bytes[at + 1] as u16)) as u16
}

/// Reads the big-endian 32-bit integer at the given offset.
fn be32(bytes: &[u8], at: usize) -> (r: u32)
    requires
        at + 4 <= bytes@.len(),
    ensures
        r == spec_be32(bytes@, at as int),
{
    (bytes[at] as u32) * 0x1000000 + (bytes[at + 1] as u32) * 0x10000 + (bytes[at + 2] as u32)
        * 0x100 + (bytes[at + 3] as u32)
}

/// Reads the big-endian 16-bit integer at the given offset.
fn be16(bytes: &[u8], at: usize) -> (r: u16)
    requires
        at + 2 <= bytes@.len(),
    ensures
        r == spec_be16(bytes@, at as int),
{
    (bytes[at] as u16) * 0x100 + (bytes[at + 1] as u16)
}

impl Command {
    /// Decodes the fixed CDB prefix of a request into a typed command.  Pure:
    /// it reads only the CDB bytes it is given.  It fails with `Unsupported`
    /// when the leading opcode byte is outside the supported subset, and with
    /// `ReadCommand` when the CDB is too short for the recognized format.
    pub fn new(cdb: &[u8]) -> (r: Result<Command, ExecuteError>)
        ensures
            r == spec_decode(cdb@),
    {
        if cdb.len() == 0 {
            return Err(ExecuteError::ReadCommand);
        }
        let op = cdb[0];
        let need: usize = if op == READ_CAPACITY_10 || op == READ_10 || op == WRITE_10 {
            10
        } else if op == REPORT_LUNS {
            12
        } else {
            6
        };
        if op == TEST_UNIT_READY || op == REQUEST_SENSE || op == READ_6 || op == INQUIRY || op
            == READ_CAPACITY_10 || op == READ_10 || op == WRITE_10 || op == REPORT_LUNS {
            if cdb.len() < need {
                return Err(ExecuteError::ReadCommand);
            }
        } else {
            return Err(ExecuteError::Unsupported(op));
        }
        if op == TEST_UNIT_READY {
            Ok(Command::TestUnitReady)
        } else if op == REQUEST_SENSE {
            Ok(Command::RequestSense { alloc_len: cdb[4], desc: cdb[1] & 1 == 1 })
        } else if op == READ_6 {
            Ok(
                Command::Read6 {
                    lba: ((cdb[1] & 0x1f) as u32) * 0x10000 + (cdb[2] as u32) * 0x100 + (
                    cdb[3] as u32),
                    xfer_blocks: if cdb[4] == 0 {
                        256
                    } else {
                        cdb[4] as u32
                    },
                },
            )
        } else if op == INQUIRY {
            Ok(
                Command::Inquiry {
                    evpd: cdb[1] & 1 == 1,
                    page_code: cdb[2],
                    alloc_len: (cdb[3] as u16) * 0x100 + (cdb[4] as u16),
                },
            )
        } else if op == READ_CAPACITY_10 {
            Ok(Command::ReadCapacity10)
        } else if op == READ_10 {
            Ok(Command::Read10 { lba: be32(cdb, 2), xfer_blocks: be16(cdb, 7) })
        } else if op == WRITE_10 {
            Ok(Command::Write10 { lba: be32(cdb, 2), xfer_blocks: be16(cdb, 7) })
        } else {
            Ok(Command::ReportLuns { alloc_len: be32(cdb, 6) })
        }
    }
}

/// Law: decoding is exact on the supported subset and total on the rest.  A
/// full-size CDB whose leading byte is a supported opcode decodes to the
/// variant of that opcode with exactly the fields its format carries, and a
/// CDB with any other leading byte decodes to `Unsupported` with that byte.
pub proof fn lemma_decode_exact(cdb: Seq<u8>)
    requires
        cdb.len() >= 12,
    ensures
        !spec_supported_opcode(cdb[0]) ==> spec_decode(cdb) == Err::<
            Command,
            ExecuteError,
        >(ExecuteError::Unsupported(cdb[0])),
        cdb[0] == TEST_UNIT_READY ==> spec_decode(cdb) == Ok::<Command, ExecuteError>(
            Command::TestUnitReady,
        ),
        cdb[0] == REQUEST_SENSE ==> spec_decode(cdb) == Ok::<Command, ExecuteError>(
            Command::RequestSense { alloc_len: cdb[4], desc: cdb[1] & 1 == 1 },
        ),
        cdb[0] == READ_6 ==> spec_decode(cdb) == Ok::<Command, ExecuteError>(
            Command::Read6 {
                lba: (((cdb[1] & 0x1f) as u32) * 0x10000 + (cdb[2] as u32) * 0x100 + (
                cdb[3] as u32)) as u32,
                xfer_blocks: if cdb[4] == 0 {
                    256
                } else {
                    cdb[4] as u32
                },
            },
        ),
        cdb[0] == INQUIRY ==> spec_decode(cdb) == Ok::<Command, ExecuteError>(
            Command::Inquiry {
                evpd: cdb[1] & 1 == 1,
                page_code: cdb[2],
                alloc_len: ((cdb[3] as u16) * 0x100 + (cdb[4] as u16)) as u16,
            },
        ),
        cdb[0] == READ_CAPACITY_10 ==> spec_decode(cdb) == Ok::<Command, ExecuteError>(
            Command::ReadCapacity10,
        ),
        cdb[0] == READ_10 ==> spec_decode(cdb) == Ok::<Command, ExecuteError>(
            Command::Read10 { lba: spec_be32(cdb, 2), xfer_blocks: spec_be16(cdb, 7) },
        ),
        cdb[0] == WRITE_10 ==> spec_decode(cdb) == Ok::<Command, ExecuteError>(
            Command::Write10 { lba: spec_be32(cdb, 2), xfer_blocks: spec_be16(cdb, 7) },
        ),
        cdb[0] == REPORT_LUNS ==> spec_decode(cdb) == Ok::<Command, ExecuteError>(
            Command::ReportLuns { alloc_len: spec_be32(cdb, 6) },
        ),
{
}

} // verus!
