//! Device lifecycle: the logical unit descriptor, the guest-visible
//! configuration structure, and the device object that owns the backing
//! storage until a worker takes it over.

use vstd::prelude::*;

use crate::storage::StorageImage;
use crate::worker::VirtQueue;
use crate::worker::Worker;

verus! {

/// Number of queues the device exposes: one control queue, one event queue
/// and at least one request queue.
pub const MINIMUM_NUM_QUEUES: usize = 3;

/// Highest channel the device addresses.
pub const DEFAULT_MAX_CHANNEL: u16 = 0;

/// Highest target the device addresses.
pub const DEFAULT_MAX_TARGET: u16 = 255;

/// Highest logical unit number the device addresses.
pub const DEFAULT_MAX_LUN: u32 = 16383;

/// Depth of each virtqueue.
pub const DEFAULT_QUEUE_SIZE: u16 = 256;

/// Maximum number of linked commands per logical unit.
pub const MAX_CMD_PER_LUN: u32 = 128;

/// Maximum transfer size hint, in 512-byte sectors.
pub const MAX_SECTORS: u32 = 0xffff;

/// Byte size of the virtio-scsi event structure.
pub const EVENT_INFO_SIZE: u32 = 16;

/// Virtio device type id of a SCSI host.
pub const VIRTIO_ID_SCSI: u32 = 8;

/// Index of the request queue among the device's queues, after the control
/// queue and the event queue.
pub const REQUEST_QUEUE_INDEX: usize = 2;

/// Describes one exposed storage target.
#[derive(Copy, Clone, Debug, PartialEq, Eq, Structural)]
pub struct LogicalUnit {
    /// The block bound of the target device: a request may not run past it.
    pub max_lba: u64,
    /// Block size of the target device, in bytes.
    pub block_size: u32,
    /// Whether writes to the target are refused.
    pub read_only: bool,
}

/// The guest-visible configuration structure, field for field in its wire
/// order.
#[derive(Copy, Clone, Debug, PartialEq, Eq, Structural)]
pub struct VirtioScsiConfig {
    /// Number of request queues, not counting the control and event queues.
    pub num_queues: u32,
    /// Maximum number of segments in a command.
    pub seg_max: u32,
    /// Maximum transfer size hint, in 512-byte sectors.
    pub max_sectors: u32,
    /// Maximum number of queued commands per logical unit.
    pub cmd_per_lun: u32,
    /// Byte size of the event structure.
    pub event_info_size: u32,
    /// Byte size of the sense area.
    pub sense_size: u32,
    /// Byte size of the CDB area.
    pub cdb_size: u32,
    /// Highest addressable channel.
    pub max_channel: u16,
    /// Highest addressable target.
    pub max_target: u16,
    /// Highest addressable logical unit number.
    pub max_lun: u32,
}

/// The wire image of the configuration structure: ten fields in order, each
/// little-endian.
pub open spec fn spec_config_bytes(c: VirtioScsiConfig) -> Seq<u8> {
    spec_le32(c.num_queues) + spec_le32(c.seg_max) + spec_le32(c.max_sectors) + spec_le32(
        c.cmd_per_lun,
    ) + spec_le32(c.event_info_size) + spec_le32(c.sense_size) + spec_le32(c.cdb_size) + spec_le16(
        c.max_channel,
    ) + spec_le16(c.max_target) + spec_le32(c.max_lun)
}

/// The little-endian wire image of a 32-bit field.
pub open spec fn spec_le32(v: u32) -> Seq<u8> {
    seq![
        (v & 0xff) as u8,
        ((v >> 8) & 0xff) as u8,
        ((v >> 16) & 0xff) as u8,
        ((v >> 24) & 0xff) as u8,
    ]
}

/// The little-endian wire image of a 16-bit field.
pub open spec fn spec_le16(v: u16) -> Seq<u8> {
    seq![(v & 0xff) as u8, ((v >> 8) & 0xff) as u8]
}

/// Appends the little-endian image of a 32-bit field.
fn push_le32(out: &mut Vec<u8>, v: u32)
    ensures
        final (out)@ =~= old(out)@ + spec_le32(v),
{
    out.push((v & 0xff) as u8);
    out.push(((v >> 8) & 0xff) as u8);
    out.push(((v >> 16) & 0xff) as u8);
    out.push(((v >> 24) & 0xff) as u8);
}

/// Appends the little-endian image of a 16-bit field.
fn push_le16(out: &mut Vec<u8>, v: u16)
    ensures
        final (out)@ =~= old(out)@ + spec_le16(v),
{
    out.push((v & 0xff) as u8);
    out.push(((v >> 8) & 0xff) as u8);
}

/// The virtio device exposing SCSI command operations on a storage image.
#[derive(Debug)]
pub struct Device {
    /// Bitmap of the negotiated virtio feature bits.
    avail_features: u64,
    /// The backing image, held until a worker takes exclusive ownership.
    disk_image: Option<StorageImage>,
    /// Depth of each virtqueue.
    queue_sizes: Vec<u16>,
    /// Maximum number of segments in a command.
    seg_max: u32,
    /// Byte size of the sense area.
    sense_size: u32,
    /// Byte size of the CDB area.
    cdb_size: u32,
    /// The exposed storage target.
    target: LogicalUnit,
}

impl Device {
    /// The device's queue depths.
    pub closed spec fn spec_queue_sizes(self) -> Seq<u16> {
        self.queue_sizes@
    }

    /// The exposed storage target.
    pub closed spec fn spec_target(self) -> LogicalUnit {
        self.target
    }

    /// Whether the device still holds its backing image.
    pub closed spec fn spec_has_disk(self) -> bool {
        self.disk_image is Some
    }

    /// The backing image the device holds.
    pub closed spec fn spec_disk(self) -> StorageImage
        recommends
            self.spec_has_disk(),
    {
        self.disk_image->Some_0
    }

    /// Creates a virtio-scsi device over the given image.  The target's block
    /// bound is derived from the image's byte length: the number of whole
    /// blocks the image holds.
    pub fn new(disk_image: StorageImage, base_features: u64, block_size: u32, read_only: bool) -> (r:
        Device)
        requires
            block_size > 0,
        ensures
            r.spec_has_disk(),
            r.spec_disk() == disk_image,
            r.spec_target() == (LogicalUnit {
                max_lba: ((disk_image@.len() as u64) / (block_size as u64)) as u64,
                block_size,
                read_only,
            }),
            r.spec_features() == base_features,
            r.spec_queue_sizes() =~= Seq::new(
                MINIMUM_NUM_QUEUES as nat,
                |i: int| DEFAULT_QUEUE_SIZE,
            ),
    {
        let len = disk_image.get_len();
        let target = LogicalUnit {
            max_lba: (len as u64) / (block_size as u64),
            block_size,
            read_only,
        };
        let mut queue_sizes: Vec<u16> = Vec::new();
        let mut i: usize = 0;
        while i < MINIMUM_NUM_QUEUES
            invariant
                i <= MINIMUM_NUM_QUEUES,
                queue_sizes@.len() == i,
                forall|j: int| 0 <= j < i ==> queue_sizes@[j] == DEFAULT_QUEUE_SIZE,
            decreases MINIMUM_NUM_QUEUES - i,
        {
            queue_sizes.push(DEFAULT_QUEUE_SIZE);
            i = i + 1;
        }
        Device {
            avail_features: base_features,
            disk_image: Some(disk_image),
            queue_sizes,
            seg_max: (DEFAULT_QUEUE_SIZE - 2) as u32,
            sense_size: crate::constants::SENSE_SIZE as u32,
            cdb_size: crate::constants::CDB_SIZE as u32,
            target,
        }
    }

    /// The negotiated virtio feature bits.
    pub closed spec fn spec_features(self) -> u64 {
        self.avail_features
    }

    /// The maximum number of segments in a command.
    pub closed spec fn spec_seg_max(self) -> u32 {
        self.seg_max
    }

    /// The byte size of the sense area.
    pub closed spec fn spec_sense_size(self) -> u32 {
        self.sense_size
    }

    /// The byte size of the CDB area.
    pub closed spec fn spec_cdb_size(self) -> u32 {
        self.cdb_size
    }

    /// Returns the negotiated virtio feature bits.
    pub fn features(&self) -> (r: u64)
        ensures
            r == self.spec_features(),
    {
        self.avail_features
    }

    /// The virtio device type id.
    pub fn device_type(&self) -> (r: u32)
        ensures
            r == VIRTIO_ID_SCSI,
    {
        VIRTIO_ID_SCSI
    }

    /// The depth of each of the device's queues.
    pub fn queue_max_sizes(&self) -> (r: &Vec<u16>)
        ensures
            r@ == self.spec_queue_sizes(),
    {
        &self.queue_sizes
    }

    /// The configuration structure the guest reads: fixed limits, the
    /// negotiated sense and CDB sizes, and the number of request queues (the
    /// queue count minus the control and event queues).
    pub fn build_config_space(&self) -> (r: VirtioScsiConfig)
        requires
            self.spec_queue_sizes().len() >= 2,
        ensures
            r == (VirtioScsiConfig {
                num_queues: (self.spec_queue_sizes().len() - 2) as u32,
                seg_max: self.spec_seg_max(),
                max_sectors: MAX_SECTORS,
                cmd_per_lun: MAX_CMD_PER_LUN,
                event_info_size: EVENT_INFO_SIZE,
                sense_size: self.spec_sense_size(),
                cdb_size: self.spec_cdb_size(),
                max_channel: DEFAULT_MAX_CHANNEL,
                max_target: DEFAULT_MAX_TARGET,
                max_lun: DEFAULT_MAX_LUN,
            }),
    {
        VirtioScsiConfig {
            num_queues: (self.queue_sizes.len() - 2) as u32,
            seg_max: self.seg_max,
            max_sectors: MAX_SECTORS,
            cmd_per_lun: MAX_CMD_PER_LUN,
            event_info_size: EVENT_INFO_SIZE,
            sense_size: self.sense_size,
            cdb_size: self.cdb_size,
            max_channel: DEFAULT_MAX_CHANNEL,
            max_target: DEFAULT_MAX_TARGET,
            max_lun: DEFAULT_MAX_LUN,
        }
    }

    /// Reads from the configuration space: up to `count` bytes of the wire
    /// image of the configuration structure, starting at `offset` and clipped
    /// at the structure's end.
    pub fn read_config(&self, offset: u64, count: usize) -> (r: Vec<u8>)
        requires
            self.spec_queue_sizes().len() >= 2,
        ensures
            ({
                let image = spec_config_bytes(
                    VirtioScsiConfig {
                        num_queues: (self.spec_queue_sizes().len() - 2) as u32,
                        seg_max: self.spec_seg_max(),
                        max_sectors: MAX_SECTORS,
                        cmd_per_lun: MAX_CMD_PER_LUN,
                        event_info_size: EVENT_INFO_SIZE,
                        sense_size: self.spec_sense_size(),
                        cdb_size: self.spec_cdb_size(),
                        max_channel: DEFAULT_MAX_CHANNEL,
                        max_target: DEFAULT_MAX_TARGET,
                        max_lun: DEFAULT_MAX_LUN,
                    },
                );
                let start = if offset as int <= image.len() as int {
                    offset as int
                } else {
                    image.len() as int
                };
                let n = crate::storage::spec_clip(image.len() as int, offset as int, count as int);
                r@ =~= image.subrange(start, start + n)
            }),
    {
        let config = self.build_config_space();
        let image = config_to_bytes(&config);
        let len = image.len();
        if offset >= len as u64 {
            return Vec::new();
        }
        let off = offset as usize;
        let n = if count <= len - off {
            count
        } else {
            len - off
        };
        let mut out: Vec<u8> = Vec::new();
        let mut i: usize = 0;
        while i < n
            invariant
                i <= n,
                off + n <= image@.len(),
                off + n <= usize::MAX,
                out@ =~= image@.subrange(off as int, off + i),
            decreases n - i,
        {
            out.push(image[off + i]);
            i = i + 1;
        }
        out
    }

    /// Activation: takes exclusive ownership of the backing image, binds the
    /// request queue (the third queue; the control and event queues are
    /// reserved but not yet processed) and hands both, with the target
    /// descriptor, to exactly one new worker.  Fails, leaving the device
    /// unchanged, when fewer queues arrive than the device exposes or when
    /// the image was already taken.
    pub fn activate(&mut self, queues: Vec<VirtQueue>) -> (r: Result<Worker, ()>)
        ensures
            final (self).spec_target() == old(self).spec_target(),
            final (self).spec_features() == old(self).spec_features(),
            final (self).spec_queue_sizes() == old(self).spec_queue_sizes(),
            queues@.len() >= MINIMUM_NUM_QUEUES && old(self).spec_has_disk() <==> r is Ok,
            r is Ok ==> {
                &&& !final (self).spec_has_disk()
                &&& r->Ok_0.target == old(self).spec_target()
                &&& r->Ok_0.storage == old(self).spec_disk()
                &&& r->Ok_0.queue == queues@[REQUEST_QUEUE_INDEX as int]
            },
            r is Err ==> final (self).spec_has_disk() == old(self).spec_has_disk(),
    {
        if queues.len() < MINIMUM_NUM_QUEUES {
            return Err(());
        }
        let disk = match self.disk_image.take() {
            Some(d) => d,
            None => {
                return Err(());
            },
        };
        let mut queues = queues;
        let queue = queues.remove(REQUEST_QUEUE_INDEX);
        Ok(Worker { target: self.target, storage: disk, queue })
    }
}

/// Serializes the configuration structure into its wire image.
pub fn config_to_bytes(c: &VirtioScsiConfig) -> (r: Vec<u8>)
    ensures
        r@ =~= spec_config_bytes(*c),
        r@.len() == 36,
{
    let mut out: Vec<u8> = Vec::new();
    push_le32(&mut out, c.num_queues);
    push_le32(&mut out, c.seg_max);
    push_le32(&mut out, c.max_sectors);
    push_le32(&mut out, c.cmd_per_lun);
    push_le32(&mut out, c.event_info_size);
    push_le32(&mut out, c.sense_size);
    push_le32(&mut out, c.cdb_size);
    push_le16(&mut out, c.max_channel);
    push_le16(&mut out, c.max_target);
    push_le32(&mut out, c.max_lun);
    out
}

} // verus!
