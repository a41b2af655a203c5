//! The execution engine: range validation, write protection, synthesized
//! payloads, and partial transfers.

use virtio_scsi::chain::WriteBuf;
use virtio_scsi::command::Command;
use virtio_scsi::device::LogicalUnit;
use virtio_scsi::execute::execute_command;
use virtio_scsi::response::ExecuteError;
use virtio_scsi::storage::StorageImage;

fn unit(max_lba: u64, read_only: bool) -> LogicalUnit {
    LogicalUnit {
        max_lba,
        block_size: 512,
        read_only,
    }
}

fn run(
    cmd: Command,
    lun: &LogicalUnit,
    payload: &[u8],
    data_capacity: usize,
    storage: &mut StorageImage,
) -> (Result<(), ExecuteError>, Vec<u8>) {
    let mut data = WriteBuf::new(data_capacity);
    let r = execute_command(cmd, lun, payload, &mut data, storage);
    (r, data.data)
}

#[test]
fn lba_out_of_range_triple_is_exact() {
    let lun = unit(100, false);
    let mut storage = StorageImage::new(vec![0u8; 51200]);
    for (lba, blocks) in [(100u32, 1u16), (99, 2), (0, 101), (4000, 1)] {
        let (r, data) = run(
            Command::Read10 {
                lba,
                xfer_blocks: blocks,
            },
            &lun,
            &[],
            4096,
            &mut storage,
        );
        assert_eq!(
            r,
            Err(ExecuteError::LbaOutOfRange {
                length: blocks as usize,
                sector: lba as u64,
                max_lba: 100
            })
        );
        assert!(data.is_empty());
        let (rw, _) = run(
            Command::Write10 {
                lba,
                xfer_blocks: blocks,
            },
            &lun,
            &[0u8; 512],
            4096,
            &mut storage,
        );
        assert_eq!(
            rw,
            Err(ExecuteError::LbaOutOfRange {
                length: blocks as usize,
                sector: lba as u64,
                max_lba: 100
            })
        );
    }
}

#[test]
fn lba_boundary_is_accepted() {
    let lun = unit(100, false);
    let mut storage = StorageImage::new(vec![7u8; 51200]);
    let (r, data) = run(
        Command::Read10 {
            lba: 99,
            xfer_blocks: 1,
        },
        &lun,
        &[],
        4096,
        &mut storage,
    );
    assert_eq!(r, Ok(()));
    assert_eq!(data, vec![7u8; 512]);
}

#[test]
fn write_to_read_only_unit_always_read_only_error() {
    let lun = unit(100, true);
    let mut storage = StorageImage::new(vec![0u8; 51200]);
    // In range, out of range, far out of range: the range never matters.
    for (lba, blocks) in [(0u32, 1u16), (100, 1), (9999, 9)] {
        let (r, data) = run(
            Command::Write10 {
                lba,
                xfer_blocks: blocks,
            },
            &lun,
            &[1u8; 512],
            4096,
            &mut storage,
        );
        assert_eq!(r, Err(ExecuteError::ReadOnly));
        assert!(data.is_empty());
    }
    assert_eq!(storage.bytes, vec![0u8; 51200]);
}

#[test]
fn read_returns_stored_bytes() {
    let lun = unit(100, false);
    let bytes: Vec<u8> = (0..51200u32).map(|i| (i % 251) as u8).collect();
    let mut storage = StorageImage::new(bytes.clone());
    let (r, data) = run(
        Command::Read10 {
            lba: 3,
            xfer_blocks: 2,
        },
        &lun,
        &[],
        4096,
        &mut storage,
    );
    assert_eq!(r, Ok(()));
    assert_eq!(&data[..], &bytes[3 * 512..5 * 512]);
}

#[test]
fn read6_transfers_like_read10() {
    let lun = unit(100, false);
    let bytes: Vec<u8> = (0..51200u32).map(|i| (i % 13) as u8).collect();
    let mut storage = StorageImage::new(bytes.clone());
    let (r, data) = run(
        Command::Read6 {
            lba: 1,
            xfer_blocks: 1,
        },
        &lun,
        &[],
        4096,
        &mut storage,
    );
    assert_eq!(r, Ok(()));
    assert_eq!(&data[..], &bytes[512..1024]);
}

#[test]
fn write_lays_payload_over_image() {
    let lun = unit(100, false);
    let mut storage = StorageImage::new(vec![0u8; 51200]);
    let payload = vec![0xABu8; 512];
    let (r, data) = run(
        Command::Write10 {
            lba: 5,
            xfer_blocks: 1,
        },
        &lun,
        &payload,
        4096,
        &mut storage,
    );
    assert_eq!(r, Ok(()));
    assert!(data.is_empty());
    assert_eq!(&storage.bytes[5 * 512..6 * 512], &payload[..]);
    assert_eq!(&storage.bytes[..5 * 512], &vec![0u8; 5 * 512][..]);
    assert_eq!(&storage.bytes[6 * 512..], &vec![0u8; 51200 - 6 * 512][..]);
}

#[test]
fn short_image_read_reports_residue() {
    // The unit claims 100 blocks but the image holds only 1024 bytes.
    let lun = unit(100, false);
    let mut storage = StorageImage::new(vec![9u8; 1024]);
    let (r, data) = run(
        Command::Read10 {
            lba: 1,
            xfer_blocks: 2,
        },
        &lun,
        &[],
        4096,
        &mut storage,
    );
    // 1024 requested at offset 512; only 512 were there.
    assert_eq!(r, Err(ExecuteError::ReadIo { resid: 512 }));
    assert_eq!(data, vec![9u8; 512]);
}

#[test]
fn short_payload_write_reports_residue() {
    let lun = unit(100, false);
    let mut storage = StorageImage::new(vec![0u8; 51200]);
    // One block requested, but the chain carries only 100 payload bytes.
    let (r, _) = run(
        Command::Write10 {
            lba: 0,
            xfer_blocks: 1,
        },
        &lun,
        &[5u8; 100],
        4096,
        &mut storage,
    );
    assert_eq!(r, Err(ExecuteError::WriteIo { resid: 412 }));
    assert_eq!(&storage.bytes[..100], &[5u8; 100][..]);
    assert_eq!(storage.bytes[100], 0);
}

#[test]
fn inquiry_payload_is_spec_shaped() {
    let lun = unit(100, false);
    let mut storage = StorageImage::new(vec![]);
    let (r, data) = run(
        Command::Inquiry {
            evpd: false,
            page_code: 0,
            alloc_len: 96,
        },
        &lun,
        &[],
        4096,
        &mut storage,
    );
    assert_eq!(r, Ok(()));
    assert_eq!(data.len(), 36);
    assert_eq!(data[0], 0x00, "direct-access device type");
    assert_eq!(data[2], 0x05);
    assert_eq!(data[3], 0x02);
    assert_eq!(data[4], 31);
    assert!(data[8..36].iter().all(|b| *b == 0x20));
}

#[test]
fn inquiry_truncates_to_allocation_length() {
    let lun = unit(100, false);
    let mut storage = StorageImage::new(vec![]);
    let (r, data) = run(
        Command::Inquiry {
            evpd: false,
            page_code: 0,
            alloc_len: 5,
        },
        &lun,
        &[],
        4096,
        &mut storage,
    );
    assert_eq!(r, Ok(()));
    assert_eq!(data.len(), 5);
}

#[test]
fn vpd_inquiry_is_invalid_field() {
    let lun = unit(100, false);
    let mut storage = StorageImage::new(vec![]);
    let (r, data) = run(
        Command::Inquiry {
            evpd: true,
            page_code: 0x80,
            alloc_len: 96,
        },
        &lun,
        &[],
        4096,
        &mut storage,
    );
    assert_eq!(r, Err(ExecuteError::InvalidField));
    assert!(data.is_empty());
}

#[test]
fn request_sense_returns_no_sense_fixed_format() {
    let lun = unit(100, false);
    let mut storage = StorageImage::new(vec![]);
    let (r, data) = run(
        Command::RequestSense {
            alloc_len: 18,
            desc: false,
        },
        &lun,
        &[],
        4096,
        &mut storage,
    );
    assert_eq!(r, Ok(()));
    assert_eq!(data.len(), 18);
    assert_eq!(data[0], 0x70);
    assert_eq!(data[2], 0x00, "no sense");
    assert_eq!(data[7], 10);
}

#[test]
fn descriptor_request_sense_is_invalid_field() {
    let lun = unit(100, false);
    let mut storage = StorageImage::new(vec![]);
    let (r, _) = run(
        Command::RequestSense {
            alloc_len: 18,
            desc: true,
        },
        &lun,
        &[],
        4096,
        &mut storage,
    );
    assert_eq!(r, Err(ExecuteError::InvalidField));
}

#[test]
fn read_capacity_reports_bound_and_block_size() {
    let lun = unit(100, false);
    let mut storage = StorageImage::new(vec![]);
    let (r, data) = run(Command::ReadCapacity10, &lun, &[], 4096, &mut storage);
    assert_eq!(r, Ok(()));
    assert_eq!(data, vec![0, 0, 0, 100, 0, 0, 2, 0]);
}

#[test]
fn report_luns_lists_the_single_unit() {
    let lun = unit(100, false);
    let mut storage = StorageImage::new(vec![]);
    let (r, data) = run(
        Command::ReportLuns { alloc_len: 64 },
        &lun,
        &[],
        4096,
        &mut storage,
    );
    assert_eq!(r, Ok(()));
    assert_eq!(data, vec![0, 0, 0, 8, 0, 0, 0, 0, 0, 0, 0, 0, 0, 0, 0, 0]);
}

#[test]
fn test_unit_ready_writes_nothing() {
    let lun = unit(100, false);
    let mut storage = StorageImage::new(vec![]);
    let (r, data) = run(Command::TestUnitReady, &lun, &[], 0, &mut storage);
    assert_eq!(r, Ok(()));
    assert!(data.is_empty());
}

#[test]
fn payload_that_does_not_fit_is_a_write_error() {
    let lun = unit(100, false);
    let mut storage = StorageImage::new(vec![]);
    let (r, data) = run(
        Command::Inquiry {
            evpd: false,
            page_code: 0,
            alloc_len: 36,
        },
        &lun,
        &[],
        10,
        &mut storage,
    );
    assert_eq!(r, Err(ExecuteError::Write));
    assert!(data.is_empty());
}

#[test]
fn read_clipped_by_chain_room_reports_residue() {
    let lun = unit(100, false);
    let mut storage = StorageImage::new(vec![3u8; 51200]);
    let (r, data) = run(
        Command::Read10 {
            lba: 0,
            xfer_blocks: 2,
        },
        &lun,
        &[],
        600,
        &mut storage,
    );
    assert_eq!(r, Err(ExecuteError::ReadIo { resid: 424 }));
    assert_eq!(data.len(), 600);
}
