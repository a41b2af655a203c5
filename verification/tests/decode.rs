//! Byte-exact decoding of every supported CDB, and rejection of the rest.

use virtio_scsi::command::Command;
use virtio_scsi::response::ExecuteError;

fn cdb32(bytes: &[u8]) -> Vec<u8> {
    let mut v = bytes.to_vec();
    while v.len() < 32 {
        v.push(0);
    }
    v
}

#[test]
fn decode_test_unit_ready() {
    let cdb = cdb32(&[0x00, 0, 0, 0, 0, 0]);
    assert_eq!(Command::new(&cdb), Ok(Command::TestUnitReady));
}

#[test]
fn decode_request_sense() {
    let cdb = cdb32(&[0x03, 0x01, 0, 0, 96, 0]);
    assert_eq!(
        Command::new(&cdb),
        Ok(Command::RequestSense {
            alloc_len: 96,
            desc: true
        })
    );
    let cdb_fixed = cdb32(&[0x03, 0x00, 0, 0, 18, 0]);
    assert_eq!(
        Command::new(&cdb_fixed),
        Ok(Command::RequestSense {
            alloc_len: 18,
            desc: false
        })
    );
}

#[test]
fn decode_read6() {
    // The block address spans the low 5 bits of byte 1 and the two bytes
    // after it.
    let cdb = cdb32(&[0x08, 0xE3, 0x02, 0x01, 7, 0]);
    assert_eq!(
        Command::new(&cdb),
        Ok(Command::Read6 {
            lba: 0x030201,
            xfer_blocks: 7
        })
    );
}

#[test]
fn decode_read6_zero_length_means_256() {
    let cdb = cdb32(&[0x08, 0, 0, 1, 0, 0]);
    assert_eq!(
        Command::new(&cdb),
        Ok(Command::Read6 {
            lba: 1,
            xfer_blocks: 256
        })
    );
}

#[test]
fn decode_inquiry() {
    let cdb = cdb32(&[0x12, 0x00, 0x00, 0x00, 0x24, 0]);
    assert_eq!(
        Command::new(&cdb),
        Ok(Command::Inquiry {
            evpd: false,
            page_code: 0,
            alloc_len: 0x24
        })
    );
    let cdb_vpd = cdb32(&[0x12, 0x01, 0x80, 0x01, 0x00, 0]);
    assert_eq!(
        Command::new(&cdb_vpd),
        Ok(Command::Inquiry {
            evpd: true,
            page_code: 0x80,
            alloc_len: 0x100
        })
    );
}

#[test]
fn decode_read_capacity10() {
    let cdb = cdb32(&[0x25, 0, 0, 0, 0, 0, 0, 0, 0, 0]);
    assert_eq!(Command::new(&cdb), Ok(Command::ReadCapacity10));
}

#[test]
fn decode_read10() {
    let cdb = cdb32(&[0x28, 0, 0x00, 0x00, 0x00, 0x05, 0, 0x00, 0x02, 0]);
    assert_eq!(
        Command::new(&cdb),
        Ok(Command::Read10 {
            lba: 5,
            xfer_blocks: 2
        })
    );
    let cdb_big = cdb32(&[0x28, 0, 0xAA, 0xBB, 0xCC, 0xDD, 0, 0x01, 0x02, 0]);
    assert_eq!(
        Command::new(&cdb_big),
        Ok(Command::Read10 {
            lba: 0xAABBCCDD,
            xfer_blocks: 0x0102
        })
    );
}

#[test]
fn decode_write10() {
    let cdb = cdb32(&[0x2a, 0, 0x00, 0x00, 0x00, 0x05, 0, 0x00, 0x01, 0]);
    assert_eq!(
        Command::new(&cdb),
        Ok(Command::Write10 {
            lba: 5,
            xfer_blocks: 1
        })
    );
}

#[test]
fn decode_report_luns() {
    let cdb = cdb32(&[0xa0, 0, 0, 0, 0, 0, 0x00, 0x00, 0x00, 0x10, 0, 0]);
    assert_eq!(Command::new(&cdb), Ok(Command::ReportLuns { alloc_len: 16 }));
}

#[test]
fn decode_unsupported_opcode() {
    for op in [0x01u8, 0x2f, 0x9e, 0xff] {
        let cdb = cdb32(&[op, 0, 0, 0, 0, 0]);
        assert_eq!(Command::new(&cdb), Err(ExecuteError::Unsupported(op)));
    }
}

#[test]
fn decode_truncated_cdb() {
    // A recognized opcode whose format does not fit the bytes given.
    assert_eq!(Command::new(&[0x28, 0, 0, 0]), Err(ExecuteError::ReadCommand));
    assert_eq!(Command::new(&[]), Err(ExecuteError::ReadCommand));
    // An unsupported opcode is reported as such even on a short CDB.
    assert_eq!(Command::new(&[0x55]), Err(ExecuteError::Unsupported(0x55)));
}
