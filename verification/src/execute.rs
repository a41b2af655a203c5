//! The execution engine: runs a decoded command against the logical unit and
//! the backing storage, writing any payload into the chain's data region and
//! reporting either success or a typed execution error.

use vstd::prelude::*;

use crate::chain::WriteBuf;
use crate::command::Command;
use crate::constants::TYPE_DISK;
use crate::device::LogicalUnit;
use crate::response::ExecuteError;
use crate::storage::spec_clip;
use crate::storage::StorageImage;

verus! {

/// Whether an 8-byte LUN address selects the exposed target: byte 0 must be
/// 1 and byte 1, the bus id, must be 0.  Only LUN 0 is exposed, so only the
/// bus id is compared.
pub open spec fn spec_is_lun0(lun: Seq<u8>) -> bool {
    lun[0] == 1 && lun[1] == 0
}

/// Decides whether an 8-byte LUN address selects the exposed target.
pub fn is_lun0(lun: &[u8]) -> (r: bool)
    requires
        lun@.len() >= 2,
    ensures
        r == spec_is_lun0(lun@),
{
    if lun[0] != 1 {
        return false;
    }
    let bus_id = lun[1];
    bus_id == 0
}

/// The validation short-circuit of a command: the error the command yields
/// before any storage access, or nothing.  A write to a read-only unit is
/// refused first, regardless of its block range; a block range running past
/// the unit's bound is refused with the exact triple of the request and the
/// target; a vital-product-data inquiry and descriptor-format sense are not
/// supported and refused as invalid fields.
pub open spec fn spec_validate(cmd: Command, lun: LogicalUnit) -> Option<ExecuteError> {
    match cmd {
        Command::RequestSense { desc, .. } => if desc {
            Some(ExecuteError::InvalidField)
        } else {
            None
        },
        Command::Inquiry { evpd, .. } => if evpd {
            Some(ExecuteError::InvalidField)
        } else {
            None
        },
        Command::Read6 { lba, xfer_blocks } => if lba + xfer_blocks > lun.max_lba {
            Some(
                ExecuteError::LbaOutOfRange {
                    length: xfer_blocks as usize,
                    sector: lba as u64,
                    max_lba: lun.max_lba,
                },
            )
        } else {
            None
        },
        Command::Read10 { lba, xfer_blocks } => if lba + xfer_blocks > lun.max_lba {
            Some(
                ExecuteError::LbaOutOfRange {
                    length: xfer_blocks as usize,
                    sector: lba as u64,
                    max_lba: lun.max_lba,
                },
            )
        } else {
            None
        },
        Command::Write10 { lba, xfer_blocks } => if lun.read_only {
            Some(ExecuteError::ReadOnly)
        } else if lba + xfer_blocks > lun.max_lba {
            Some(
                ExecuteError::LbaOutOfRange {
                    length: xfer_blocks as usize,
                    sector: lba as u64,
                    max_lba: lun.max_lba,
                },
            )
        } else {
            None
        },
        _ => None,
    }
}

/// Whether the command transfers blocks to or from storage.
pub open spec fn spec_is_io(cmd: Command) -> bool {
    cmd is Read6 || cmd is Read10 || cmd is Write10
}

/// Transfer length of an I/O command, in blocks.
pub open spec fn spec_io_blocks(cmd: Command) -> int {
    match cmd {
        Command::Read6 { xfer_blocks, .. } => xfer_blocks as int,
        Command::Read10 { xfer_blocks, .. } => xfer_blocks as int,
        Command::Write10 { xfer_blocks, .. } => xfer_blocks as int,
        _ => 0,
    }
}

/// First logical block address of an I/O command.
pub open spec fn spec_io_lba(cmd: Command) -> int {
    match cmd {
        Command::Read6 { lba, .. } => lba as int,
        Command::Read10 { lba, .. } => lba as int,
        Command::Write10 { lba, .. } => lba as int,
        _ => 0,
    }
}

/// Transfer length of an I/O command, in bytes.
pub open spec fn spec_io_count(cmd: Command, block_size: u32) -> int {
    spec_io_blocks(cmd) * block_size
}

/// Byte offset of an I/O command into the storage image.
pub open spec fn spec_io_offset(cmd: Command, block_size: u32) -> int {
    spec_io_lba(cmd) * block_size
}

/// The standard INQUIRY data: a direct-access device, SPC-3 compliance,
/// response format 2, 31 bytes of additional length, and space-padded
/// identification strings.
pub open spec fn spec_inquiry_data() -> Seq<u8> {
    Seq::new(
        36,
        |i: int|
            {
                if i == 0 {
                    TYPE_DISK
                } else if i == 2 {
                    0x05u8
                } else if i == 3 {
                    0x02u8
                } else if i == 4 {
                    31u8
                } else if 8 <= i < 36 {
                    0x20u8
                } else {
                    0u8
                }
            },
    )
}

/// The REQUEST SENSE data: 18 bytes of fixed-format sense reporting no
/// sense condition.
pub open spec fn spec_request_sense_data() -> Seq<u8> {
    crate::sense::spec_fixed_sense_bytes(
        crate::sense::Sense { key: 0, asc: 0, ascq: 0 },
    ).take(18)
}

/// The REPORT LUNS data: an 8-byte LUN list holding the single entry of
/// LUN 0, preceded by its big-endian length and four reserved bytes.
pub open spec fn spec_report_luns_data() -> Seq<u8> {
    Seq::new(16, |i: int| if i == 3 { 8u8 } else { 0u8 })
}

/// The block bound of the unit, clipped to the 32-bit wire field.
pub open spec fn spec_capacity_lba(lun: LogicalUnit) -> u32 {
    if lun.max_lba > u32::MAX {
        u32::MAX
    } else {
        lun.max_lba as u32
    }
}

/// The big-endian wire image of a 32-bit value.
pub open spec fn spec_be32_bytes(v: u32) -> Seq<u8> {
    seq![
        ((v >> 24) & 0xff) as u8,
        ((v >> 16) & 0xff) as u8,
        ((v >> 8) & 0xff) as u8,
        (v & 0xff) as u8,
    ]
}

/// The READ CAPACITY(10) data: the unit's block bound and block size, each
/// big-endian.
pub open spec fn spec_read_capacity_data(lun: LogicalUnit) -> Seq<u8> {
    spec_be32_bytes(spec_capacity_lba(lun)) + spec_be32_bytes(lun.block_size)
}

/// The payload a command without storage I/O synthesizes, already truncated
/// to the allocation length its CDB carries.
pub open spec fn spec_fixed_payload(cmd: Command, lun: LogicalUnit) -> Seq<u8> {
    match cmd {
        Command::RequestSense { alloc_len, .. } => spec_request_sense_data().take(
            spec_min(alloc_len as int, 18),
        ),
        Command::Inquiry { alloc_len, .. } => spec_inquiry_data().take(
            spec_min(alloc_len as int, 36),
        ),
        Command::ReportLuns { alloc_len } => spec_report_luns_data().take(
            spec_min(alloc_len as int, 16),
        ),
        Command::ReadCapacity10 => spec_read_capacity_data(lun),
        _ => Seq::empty(),
    }
}

/// The smaller of two integers.
pub open spec fn spec_min(a: int, b: int) -> int {
    if a <= b {
        a
    } else {
        b
    }
}

/// A storage image after an in-place write of `bytes` at `off`.
pub open spec fn spec_write_image(s: Seq<u8>, off: int, bytes: Seq<u8>) -> Seq<u8> {
    Seq::new(
        s.len(),
        |j: int|
            if off <= j < off + bytes.len() {
                bytes[j - off]
            } else {
                s[j]
            },
    )
}

/// The outcome of executing a command: success, or the execution error, as a
/// function of the command, the unit, the write payload the chain carries,
/// the stored bytes and the room left in the chain's data region.  A
/// transfer too large to address is refused as an invalid field; a transfer
/// cut short by the end of the image or of the chain reports the bytes left
/// over; a synthesized payload that does not fit the chain fails the
/// response write.
pub open spec fn spec_execute_outcome(
    cmd: Command,
    lun: LogicalUnit,
    payload: Seq<u8>,
    store: Seq<u8>,
    room: int,
) -> Result<(), ExecuteError> {
    if spec_validate(cmd, lun) is Some {
        Err(spec_validate(cmd, lun)->Some_0)
    } else if !spec_is_io(cmd) {
        if spec_fixed_payload(cmd, lun).len() <= room {
            Ok(())
        } else {
            Err(ExecuteError::Write)
        }
    } else {
        let cnt = spec_io_count(cmd, lun.block_size);
        let off = spec_io_offset(cmd, lun.block_size);
        if cnt > usize::MAX {
            Err(ExecuteError::InvalidField)
        } else if cmd is Write10 {
            let t = spec_clip(store.len() as int, off, spec_min(cnt, payload.len() as int));
            if t == cnt {
                Ok(())
            } else {
                Err(ExecuteError::WriteIo { resid: (cnt - t) as usize })
            }
        } else {
            let n = spec_min(spec_clip(store.len() as int, off, cnt), room);
            if n == cnt {
                Ok(())
            } else {
                Err(ExecuteError::ReadIo { resid: (cnt - n) as usize })
            }
        }
    }
}

/// The bytes executing a command appends to the chain's data region: the
/// synthesized payload of a command without storage I/O, or the stored bytes
/// a read transfers, clipped at the end of the image and at the room left.
pub open spec fn spec_execute_data(
    cmd: Command,
    lun: LogicalUnit,
    store: Seq<u8>,
    room: int,
) -> Seq<u8> {
    if spec_validate(cmd, lun) is Some {
        Seq::empty()
    } else if !spec_is_io(cmd) {
        if spec_fixed_payload(cmd, lun).len() <= room {
            spec_fixed_payload(cmd, lun)
        } else {
            Seq::empty()
        }
    } else if cmd is Write10 {
        Seq::empty()
    } else {
        let cnt = spec_io_count(cmd, lun.block_size);
        let off = spec_io_offset(cmd, lun.block_size);
        if cnt > usize::MAX {
            Seq::empty()
        } else {
            let start = spec_min(off, store.len() as int);
            let n = spec_min(spec_clip(store.len() as int, off, cnt), room);
            store.subrange(start, start + n)
        }
    }
}

/// The storage image after executing a command: unchanged except by an
/// accepted write, which lays the chain's payload over the image at the
/// command's offset, clipped at the end of the image and at the payload the
/// chain actually carries.
pub open spec fn spec_execute_store(
    cmd: Command,
    lun: LogicalUnit,
    payload: Seq<u8>,
    store: Seq<u8>,
) -> Seq<u8> {
    if spec_validate(cmd, lun) is None && cmd is Write10 && spec_io_count(cmd, lun.block_size)
        <= usize::MAX {
        let cnt = spec_io_count(cmd, lun.block_size);
        let off = spec_io_offset(cmd, lun.block_size);
        let t = spec_clip(store.len() as int, off, spec_min(cnt, payload.len() as int));
        spec_write_image(store, off, payload.take(t))
    } else {
        store
    }
}

/// Builds the standard INQUIRY data.
fn build_inquiry_data() -> (r: Vec<u8>)
    ensures
        r@ =~= spec_inquiry_data(),
{
    let mut v: Vec<u8> = Vec::new();
    let mut i: usize = 0;
    while i < 36
        invariant
            i <= 36,
            v@.len() == i,
            forall|j: int| 0 <= j < i ==> v@[j] == spec_inquiry_data()[j],
        decreases 36 - i,
    {
        let b: u8 = if i == 0 {
            TYPE_DISK
        } else if i == 2 {
            0x05
        } else if i == 3 {
            0x02
        } else if i == 4 {
            31
        } else if i >= 8 {
            0x20
        } else {
            0
        };
        v.push(b);
        i = i + 1;
    }
    v
}

/// Builds the REQUEST SENSE data.
fn build_request_sense_data() -> (r: Vec<u8>)
    ensures
        r@ =~= spec_request_sense_data(),
{
    let mut v: Vec<u8> = Vec::new();
    let mut i: usize = 0;
    while i < 18
        invariant
            i <= 18,
            v@.len() == i,
            forall|j: int| 0 <= j < i ==> v@[j] == spec_request_sense_data()[j],
        decreases 18 - i,
    {
        let b: u8 = if i == 0 {
            0x70
        } else if i == 7 {
            10
        } else {
            0
        };
        v.push(b);
        i = i + 1;
    }
    v
}

/// Builds the REPORT LUNS data.
fn build_report_luns_data() -> (r: Vec<u8>)
    ensures
        r@ =~= spec_report_luns_data(),
{
    let mut v: Vec<u8> = Vec::new();
    let mut i: usize = 0;
    while i < 16
        invariant
            i <= 16,
            v@.len() == i,
            forall|j: int| 0 <= j < i ==> v@[j] == spec_report_luns_data()[j],
        decreases 16 - i,
    {
        let b: u8 = if i == 3 {
            8
        } else {
            0
        };
        v.push(b);
        i = i + 1;
    }
    v
}

/// Builds the READ CAPACITY(10) data for the unit.
fn build_read_capacity_data(lun: &LogicalUnit) -> (r: Vec<u8>)
    ensures
        r@ =~= spec_read_capacity_data(*lun),
{
    let lba: u32 = if lun.max_lba > u32::MAX as u64 {
        u32::MAX
    } else {
        lun.max_lba as u32
    };
    let mut v: Vec<u8> = Vec::new();
    v.push(((lba >> 24) & 0xff) as u8);
    v.push(((lba >> 16) & 0xff) as u8);
    v.push(((lba >> 8) & 0xff) as u8);
    v.push((lba & 0xff) as u8);
    v.push(((lun.block_size >> 24) & 0xff) as u8);
    v.push(((lun.block_size >> 16) & 0xff) as u8);
    v.push(((lun.block_size >> 8) & 0xff) as u8);
    v.push((lun.block_size & 0xff) as u8);
    v
}

/// Truncates a payload to the allocation length and writes it whole into the
/// data region, or fails with `Write` leaving the region unchanged.
fn write_truncated(data: &mut WriteBuf, payload: &Vec<u8>, alloc_len: usize) -> (r: Result<
    (),
    ExecuteError,
>)
    requires
        old(data).wf(),
    ensures
        final (data).wf(),
        final (data).capacity == old(data).capacity,
        ({
            let p = payload@.take(spec_min(alloc_len as int, payload@.len() as int));
            &&& p.len() <= old(data).spec_room() ==> r is Ok && final (data).data@ =~= old(
                data,
            ).data@ + p
            &&& p.len() > old(data).spec_room() ==> r == Err::<(), ExecuteError>(
                ExecuteError::Write,
            ) && final (data).data@ == old(data).data@
        }),
{
    let n = if alloc_len <= payload.len() {
        alloc_len
    } else {
        payload.len()
    };
    let mut truncated: Vec<u8> = Vec::new();
    let mut i: usize = 0;
    while i < n
        invariant
            i <= n,
            n <= payload@.len(),
            truncated@ =~= payload@.take(i as int),
        decreases n - i,
    {
        truncated.push(payload[i]);
        i = i + 1;
    }
    match data.write_all(truncated.as_slice()) {
        Ok(_) => Ok(()),
        Err(_) => Err(ExecuteError::Write),
    }
}

/// Executes a decoded command against the unit and the storage image.  The
/// write payload of the chain's input stream arrives in `payload`; any read
/// payload is appended to the chain's data region.  The result, the appended
/// bytes and the new image are exactly the mathematical outcome of the
/// command.
pub fn execute_command(
    cmd: Command,
    lun: &LogicalUnit,
    payload: &[u8],
    data: &mut WriteBuf,
    storage: &mut StorageImage,
) -> (r: Result<(), ExecuteError>)
    requires
        old(data).wf(),
    ensures
        final (data).wf(),
        final (data).capacity == old(data).capacity,
        ({
            let outcome = spec_execute_outcome(
                cmd,
                *lun,
                payload@,
                old(storage)@,
                old(data).spec_room(),
            );
            &&& (r is Ok) == (outcome is Ok)
            &&& r is Err ==> r->Err_0 == outcome->Err_0
        }),
        final (data).data@ =~= old(data).data@ + spec_execute_data(
            cmd,
            *lun,
            old(storage)@,
            old(data).spec_room(),
        ),
        final (storage)@ =~= spec_execute_store(cmd, *lun, payload@, old(storage)@),
{
    match cmd {
        Command::TestUnitReady => Ok(()),
        Command::RequestSense { alloc_len, desc } => {
            if desc {
                return Err(ExecuteError::InvalidField);
            }
            let buf = build_request_sense_data();
            write_truncated(data, &buf, alloc_len as usize)
        },
        Command::Inquiry { evpd, page_code: _, alloc_len } => {
            if evpd {
                return Err(ExecuteError::InvalidField);
            }
            let buf = build_inquiry_data();
            write_truncated(data, &buf, alloc_len as usize)
        },
        Command::ReportLuns { alloc_len } => {
            let buf = build_report_luns_data();
            let n = if alloc_len > 16 {
                16usize
            } else {
                alloc_len as usize
            };
            write_truncated(data, &buf, n)
        },
        Command::ReadCapacity10 => {
            let buf = build_read_capacity_data(lun);
            write_truncated(data, &buf, 8)
        },
        Command::Read6 { lba, xfer_blocks } => execute_read(
            lba,
            xfer_blocks,
            Ghost(cmd),
            lun,
            data,
            storage,
        ),
        Command::Read10 { lba, xfer_blocks } => execute_read(
            lba,
            xfer_blocks as u32,
            Ghost(cmd),
            lun,
            data,
            storage,
        ),
        Command::Write10 { lba, xfer_blocks } => execute_write(
            lba,
            xfer_blocks as u32,
            Ghost(cmd),
            lun,
            payload,
            data,
            storage,
        ),
    }
}

/// The read transfer of READ(6) and READ(10): validates the block range,
/// then moves the requested bytes from the image into the data region,
/// reporting any bytes left over.
fn execute_read(
    lba: u32,
    xfer_blocks: u32,
    Ghost(cmd): Ghost<Command>,
    lun: &LogicalUnit,
    data: &mut WriteBuf,
    storage: &mut StorageImage,
) -> (r: Result<(), ExecuteError>)
    requires
        old(data).wf(),
        cmd == (Command::Read6 { lba, xfer_blocks }) || (cmd == (Command::Read10 {
            lba,
            xfer_blocks: xfer_blocks as u16,
        }) && xfer_blocks <= u16::MAX),
    ensures
        final (data).wf(),
        final (data).capacity == old(data).capacity,
        ({
            let outcome = spec_execute_outcome(
                cmd,
                *lun,
                Seq::empty(),
                old(storage)@,
                old(data).spec_room(),
            );
            &&& (r is Ok) == (outcome is Ok)
            &&& r is Err ==> r->Err_0 == outcome->Err_0
        }),
        final (data).data@ =~= old(data).data@ + spec_execute_data(
            cmd,
            *lun,
            old(storage)@,
            old(data).spec_room(),
        ),
        *final (storage) == *old(storage),
{
    if (lba as u64) + (xfer_blocks as u64) > lun.max_lba {
        return Err(
            ExecuteError::LbaOutOfRange {
                length: xfer_blocks as usize,
                sector: lba as u64,
                max_lba: lun.max_lba,
            },
        );
    }
    proof {
        assert((lba as int) * (lun.block_size as int) <= 0xffffffff * 0xffffffff)
            by (nonlinear_arith)
            requires
                lba as int <= 0xffffffff,
                lun.block_size as int <= 0xffffffff,
        ;
        assert((xfer_blocks as int) * (lun.block_size as int) <= 0xffffffff * 0xffffffff)
            by (nonlinear_arith)
            requires
                xfer_blocks as int <= 0xffffffff,
                lun.block_size as int <= 0xffffffff,
        ;
    }
    let count: u64 = (xfer_blocks as u64) * (lun.block_size as u64);
    let offset: u64 = (lba as u64) * (lun.block_size as u64);
    if count > usize::MAX as u64 {
        return Err(ExecuteError::InvalidField);
    }
    let from_disk = storage.read_at(offset, count as usize);
    let n = data.write_clipped(from_disk.as_slice());
    proof {
        let store = storage@;
        let cnt = spec_io_count(cmd, lun.block_size);
        let off = spec_io_offset(cmd, lun.block_size);
        let start = spec_min(off, store.len() as int);
        let m = spec_min(spec_clip(store.len() as int, off, cnt), old(data).spec_room());
        assert(from_disk@.take(n as int) =~= store.subrange(start, start + m));
    }
    if (n as u64) == count {
        Ok(())
    } else {
        Err(ExecuteError::ReadIo { resid: (count as usize) - n })
    }
}

/// The write transfer of WRITE(10): refuses a read-only unit before touching
/// storage, validates the block range, then lays the chain's payload over
/// the image at the command's offset, reporting any bytes left over.
fn execute_write(
    lba: u32,
    xfer_blocks: u32,
    Ghost(cmd): Ghost<Command>,
    lun: &LogicalUnit,
    payload: &[u8],
    data: &mut WriteBuf,
    storage: &mut StorageImage,
) -> (r: Result<(), ExecuteError>)
    requires
        old(data).wf(),
        cmd == (Command::Write10 { lba, xfer_blocks: xfer_blocks as u16 }),
        xfer_blocks <= u16::MAX,
    ensures
        *final (data) == *old(data),
        ({
            let outcome = spec_execute_outcome(
                cmd,
                *lun,
                payload@,
                old(storage)@,
                old(data).spec_room(),
            );
            &&& (r is Ok) == (outcome is Ok)
            &&& r is Err ==> r->Err_0 == outcome->Err_0
        }),
        final (storage)@ =~= spec_execute_store(cmd, *lun, payload@, old(storage)@),
{
    if lun.read_only {
        return Err(ExecuteError::ReadOnly);
    }
    if (lba as u64) + (xfer_blocks as u64) > lun.max_lba {
        return Err(
            ExecuteError::LbaOutOfRange {
                length: xfer_blocks as usize,
                sector: lba as u64,
                max_lba: lun.max_lba,
            },
        );
    }
    proof {
        assert((lba as int) * (lun.block_size as int) <= 0xffffffff * 0xffffffff)
            by (nonlinear_arith)
            requires
                lba as int <= 0xffffffff,
                lun.block_size as int <= 0xffffffff,
        ;
        assert((xfer_blocks as int) * (lun.block_size as int) <= 0xffffffff * 0xffffffff)
            by (nonlinear_arith)
            requires
                xfer_blocks as int <= 0xffffffff,
                lun.block_size as int <= 0xffffffff,
        ;
    }
    let count: u64 = (xfer_blocks as u64) * (lun.block_size as u64);
    let offset: u64 = (lba as u64) * (lun.block_size as u64);
    if count > usize::MAX as u64 {
        return Err(ExecuteError::InvalidField);
    }
    let avail = if (count as usize) <= payload.len() {
        count as usize
    } else {
        payload.len()
    };
    let mut buf: Vec<u8> = Vec::new();
    let mut i: usize = 0;
    while i < avail
        invariant
            i <= avail,
            avail <= payload@.len(),
            buf@ =~= payload@.take(i as int),
        decreases avail - i,
    {
        buf.push(payload[i]);
        i = i + 1;
    }
    let t = storage.write_at(offset, buf.as_slice());
    proof {
        let store = old(storage)@;
        let cnt = spec_io_count(cmd, lun.block_size);
        let off = spec_io_offset(cmd, lun.block_size);
        let tt = spec_clip(store.len() as int, off, spec_min(cnt, payload@.len() as int));
        assert(t == tt);
        assert(storage@ =~= spec_write_image(store, off, payload@.take(tt)));
    }
    if (t as u64) == count {
        Ok(())
    } else {
        Err(ExecuteError::WriteIo { resid: (count as usize) - t })
    }
}

/// Law: an out-of-range block request is refused with the exact triple of
/// the request and the target.  Whenever the starting block address plus the
/// transfer length of a READ(6), READ(10) or WRITE(10) exceeds the unit's
/// block bound — unless the write was already refused for write protection —
/// the command is refused before any storage access, with the request's
/// transfer length, its starting address and the unit's bound, and every
/// execution of it fails with exactly that error.
pub proof fn lemma_lba_out_of_range(cmd: Command, lun: LogicalUnit)
    requires
        spec_is_io(cmd),
        !(cmd is Write10 && lun.read_only),
        spec_io_lba(cmd) + spec_io_blocks(cmd) > lun.max_lba,
    ensures
        spec_validate(cmd, lun) == Some(
            ExecuteError::LbaOutOfRange {
                length: spec_io_blocks(cmd) as usize,
                sector: spec_io_lba(cmd) as u64,
                max_lba: lun.max_lba,
            },
        ),
        forall|payload: Seq<u8>, store: Seq<u8>, room: int|
            #[trigger] spec_execute_outcome(cmd, lun, payload, store, room) == Err::<
                (),
                ExecuteError,
            >(
                ExecuteError::LbaOutOfRange {
                    length: spec_io_blocks(cmd) as usize,
                    sector: spec_io_lba(cmd) as u64,
                    max_lba: lun.max_lba,
                },
            ),
{
}

/// Law: a write to a read-only unit always yields the write-protection
/// error.  A WRITE(10) against a unit with `read_only` set is refused before
/// any storage access, regardless of the validity of its block range, and
/// every execution of it fails with exactly `ReadOnly` — which carries its
/// own sense triple, distinct from the out-of-range one.
pub proof fn lemma_write_read_only(cmd: Command, lun: LogicalUnit)
    requires
        cmd is Write10,
        lun.read_only,
    ensures
        spec_validate(cmd, lun) == Some(ExecuteError::ReadOnly),
        forall|payload: Seq<u8>, store: Seq<u8>, room: int|
            #[trigger] spec_execute_outcome(cmd, lun, payload, store, room) == Err::<
                (),
                ExecuteError,
            >(ExecuteError::ReadOnly),
        crate::response::spec_sense_of_error(ExecuteError::ReadOnly)
            != crate::response::spec_sense_of_error(
            ExecuteError::LbaOutOfRange { length: 0, sector: 0, max_lba: 0 },
        ),
{
}

} // verus!
