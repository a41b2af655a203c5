//! Values fixed by the SCSI primary-command and virtio specifications:
//! opcodes, status codes, sense keys and the wire sizes of the virtio-scsi
//! request and response structures.

use vstd::prelude::*;

verus! {

// SCSI opcodes of the supported command subset.

/// Opcode of the TEST UNIT READY command.
pub const TEST_UNIT_READY: u8 = 0x00;
/// Opcode of the REQUEST SENSE command.
pub const REQUEST_SENSE: u8 = 0x03;
/// Opcode of the READ(6) command.
pub const READ_6: u8 = 0x08;
/// Opcode of the INQUIRY command.
pub const INQUIRY: u8 = 0x12;
/// Opcode of the READ CAPACITY(10) command.
pub const READ_CAPACITY_10: u8 = 0x25;
/// Opcode of the READ(10) command.
pub const READ_10: u8 = 0x28;
/// Opcode of the WRITE(10) command.
pub const WRITE_10: u8 = 0x2a;
/// Opcode of the REPORT LUNS command.
pub const REPORT_LUNS: u8 = 0xa0;

// SAM status codes.

/// The command completed without error.
pub const GOOD: u8 = 0x00;
/// Sense data describing the failure has been delivered.
pub const CHECK_CONDITION: u8 = 0x02;

// Device type ids.

/// Peripheral device type of a direct-access block device.
pub const TYPE_DISK: u8 = 0x00;

// Sense keys.

/// No specific sense data is to be reported.
pub const NO_SENSE: u8 = 0x00;
/// An error that may be caused by a flaw in the medium or the recorded data.
pub const MEDIUM_ERROR: u8 = 0x03;
/// An illegal request.
pub const ILLEGAL_REQUEST: u8 = 0x05;
/// A write to a protected medium was refused.
pub const DATA_PROTECT: u8 = 0x07;
/// A unit attention condition has been established.
pub const UNIT_ATTENTION: u8 = 0x06;

// Virtio-scsi response codes.

/// The request was processed by the target.
pub const VIRTIO_SCSI_S_OK: u8 = 0;
/// The request addressed a target that does not exist.
pub const VIRTIO_SCSI_S_BAD_TARGET: u8 = 3;

// Virtio-scsi wire sizes.

/// Byte size of the sense area in the response structure.
pub const SENSE_SIZE: usize = 96;
/// Byte size of the CDB area in the request structure.
pub const CDB_SIZE: usize = 32;
/// Byte offset of the CDB inside the request structure, after the 8 LUN
/// address bytes, the 8 tag bytes and the 3 attribute bytes.
pub const CDB_OFFSET: usize = 19;
/// Byte size of the whole request structure.
pub const REQ_SIZE: usize = 51;
/// Byte size of the whole response structure: the 12 header bytes followed by
/// the sense area.
pub const RESP_SIZE: usize = 108;

} // verus!
