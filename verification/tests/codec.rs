//! The sense and response codec: fixed-format layout, the error-to-sense
//! lookup, the round trip, and the response wire image.

use virtio_scsi::response::ExecuteError;
use virtio_scsi::response::VirtioScsiCmdResp;
use virtio_scsi::sense::decode_fixed_sense;
use virtio_scsi::sense::Sense;

#[test]
fn fixed_sense_layout() {
    let sense = Sense {
        key: 0x05,
        asc: 0x24,
        ascq: 0x00,
    };
    let (bytes, len) = sense.as_bytes(true);
    assert_eq!(len, 18);
    assert_eq!(bytes.len(), 96);
    assert_eq!(bytes[0], 0x70);
    assert_eq!(bytes[2], 0x05);
    assert_eq!(bytes[7], 10);
    assert_eq!(bytes[12], 0x24);
    assert_eq!(bytes[13], 0x00);
    for (i, b) in bytes.iter().enumerate() {
        if ![0, 2, 7, 12, 13].contains(&i) {
            assert_eq!(*b, 0, "byte {} should be zero", i);
        }
    }
}

#[test]
fn descriptor_sense_layout() {
    let sense = Sense {
        key: 0x03,
        asc: 0x11,
        ascq: 0x01,
    };
    let (bytes, len) = sense.as_bytes(false);
    assert_eq!(len, 8);
    assert_eq!(bytes[0], 0x72);
    assert_eq!(bytes[1], 0x03);
    assert_eq!(bytes[2], 0x11);
    assert_eq!(bytes[3], 0x01);
    for (i, b) in bytes.iter().enumerate() {
        if ![0, 1, 2, 3].contains(&i) {
            assert_eq!(*b, 0, "byte {} should be zero", i);
        }
    }
}

fn expected_sense(e: &ExecuteError) -> Option<(u8, u8, u8)> {
    match e {
        ExecuteError::Read | ExecuteError::ReadCommand => Some((0x03, 0x11, 0x00)),
        ExecuteError::Write => Some((0x03, 0x0c, 0x00)),
        ExecuteError::InvalidField => Some((0x05, 0x24, 0x00)),
        ExecuteError::Unsupported(_) => Some((0x05, 0x20, 0x00)),
        ExecuteError::LbaOutOfRange { .. } => Some((0x05, 0x21, 0x00)),
        ExecuteError::ReadOnly => Some((0x07, 0x27, 0x00)),
        ExecuteError::ReadIo { .. } | ExecuteError::WriteIo { .. } => None,
    }
}

#[test]
fn error_sense_round_trip_every_variant() {
    let errors = [
        ExecuteError::InvalidField,
        ExecuteError::LbaOutOfRange {
            length: 2,
            sector: 100,
            max_lba: 100,
        },
        ExecuteError::Read,
        ExecuteError::ReadCommand,
        ExecuteError::ReadOnly,
        ExecuteError::Unsupported(0x35),
        ExecuteError::Write,
    ];
    for e in errors {
        let triple = expected_sense(&e).unwrap();
        let resp = e.as_resp();
        assert_eq!(resp.status, 0x02, "CHECK CONDITION for {:?}", e);
        assert_eq!(resp.sense_len, 18);
        assert_eq!(resp.resid, 0);
        assert_eq!(resp.response, 0);
        // Fixed-format layout: response code 0x70, additional length 10.
        assert_eq!(resp.sense[0], 0x70);
        assert_eq!(resp.sense[7], 10);
        // Decoding the sense area recovers exactly the encoded triple.
        let decoded = decode_fixed_sense(&resp.sense).unwrap();
        assert_eq!((decoded.key, decoded.asc, decoded.ascq), triple);
    }
}

#[test]
fn partial_transfer_reports_residue_without_sense() {
    let resp = ExecuteError::ReadIo { resid: 300 }.as_resp();
    assert_eq!(resp.status, 0x00);
    assert_eq!(resp.sense_len, 0);
    assert_eq!(resp.resid, 300);
    let resp_w = ExecuteError::WriteIo { resid: 7 }.as_resp();
    assert_eq!(resp_w.resid, 7);
    assert_eq!(resp_w.sense_len, 0);
}

#[test]
fn oversized_residue_is_clipped_to_wire_field() {
    let resp = ExecuteError::ReadIo {
        resid: u32::MAX as usize + 17,
    }
    .as_resp();
    assert_eq!(resp.resid, u32::MAX);
}

#[test]
fn response_wire_image() {
    let resp = VirtioScsiCmdResp {
        sense_len: 18,
        resid: 0x01020304,
        status_qualifier: 0xA0B0,
        status: 0x02,
        response: 0x00,
        sense: vec![0u8; 96],
    };
    let bytes = resp.to_bytes();
    assert_eq!(bytes.len(), 108);
    // sense_len, little-endian.
    assert_eq!(&bytes[0..4], &[18, 0, 0, 0]);
    // resid, big-endian on the wire.
    assert_eq!(&bytes[4..8], &[0x01, 0x02, 0x03, 0x04]);
    // status qualifier, little-endian.
    assert_eq!(&bytes[8..10], &[0xB0, 0xA0]);
    assert_eq!(bytes[10], 0x02);
    assert_eq!(bytes[11], 0x00);
    assert_eq!(&bytes[12..108], &[0u8; 96][..]);
}

#[test]
fn ok_response_wire_image() {
    let resp = VirtioScsiCmdResp::ok_resp();
    let bytes = resp.to_bytes();
    assert_eq!(bytes, vec![0u8; 108]);
}

#[test]
fn bad_target_response() {
    let resp = VirtioScsiCmdResp::bad_target_resp();
    assert_eq!(resp.status, 0x00);
    assert_eq!(resp.response, 3);
    assert_eq!(resp.sense_len, 0);
}

#[test]
fn decode_rejects_foreign_layouts() {
    // Wrong response code.
    let mut bytes = vec![0u8; 96];
    bytes[0] = 0x72;
    bytes[7] = 10;
    assert_eq!(decode_fixed_sense(&bytes), None);
    // Wrong additional length.
    let mut bytes2 = vec![0u8; 96];
    bytes2[0] = 0x70;
    bytes2[7] = 9;
    assert_eq!(decode_fixed_sense(&bytes2), None);
    // Too short.
    assert_eq!(decode_fixed_sense(&vec![0x70u8; 17]), None);
}
