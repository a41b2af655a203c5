//! Feature negotiation parameters of the out-of-process network device: the
//! queue count and the virtio-net and vhost protocol feature bits the device
//! model allows its backend to negotiate.

use vstd::prelude::*;

verus! {

/// Feature bit: checksum offload.
pub const VIRTIO_NET_F_CSUM: u64 = 0;

/// Feature bit: guest-side checksum offload.
pub const VIRTIO_NET_F_GUEST_CSUM: u64 = 1;

/// Feature bit: control channel offload reconfiguration.
pub const VIRTIO_NET_F_CTRL_GUEST_OFFLOADS: u64 = 2;

/// Feature bit: maximum transmission unit report.
pub const VIRTIO_NET_F_MTU: u64 = 3;

/// Feature bit: device address report.
pub const VIRTIO_NET_F_MAC: u64 = 5;

/// Feature bit: guest-side TCP segmentation offload.
pub const VIRTIO_NET_F_GUEST_TSO4: u64 = 7;

/// Feature bit: guest-side UDP fragmentation offload.
pub const VIRTIO_NET_F_GUEST_UFO: u64 = 10;

/// Feature bit: host-side TCP segmentation offload.
pub const VIRTIO_NET_F_HOST_TSO4: u64 = 11;

/// Feature bit: host-side UDP fragmentation offload.
pub const VIRTIO_NET_F_HOST_UFO: u64 = 14;

/// Feature bit: control virtqueue.
pub const VIRTIO_NET_F_CTRL_VQ: u64 = 17;

/// Feature bit: multiqueue with automatic receive steering.
pub const VIRTIO_NET_F_MQ: u64 = 22;

/// Vhost protocol feature bit: multiple queues.
pub const VHOST_PROTOCOL_F_MQ: u64 = 0;

/// Vhost protocol feature bit: configuration space access.
pub const VHOST_PROTOCOL_F_CONFIG: u64 = 9;

/// The queues the network device starts with: receive, transmit and
/// control.
pub fn net_default_queues() -> (r: usize)
    ensures
        r == 3,
{
    3
}

/// The virtio-net feature bits the device model allows its backend to
/// negotiate.
pub fn net_allow_features() -> (r: u64)
    ensures
        r == (1u64 << VIRTIO_NET_F_CSUM) | (1u64 << VIRTIO_NET_F_CTRL_VQ) | (1u64
            << VIRTIO_NET_F_CTRL_GUEST_OFFLOADS) | (1u64 << VIRTIO_NET_F_GUEST_CSUM) | (1u64
            << VIRTIO_NET_F_GUEST_TSO4) | (1u64 << VIRTIO_NET_F_GUEST_UFO) | (1u64
            << VIRTIO_NET_F_HOST_TSO4) | (1u64 << VIRTIO_NET_F_HOST_UFO) | (1u64
            << VIRTIO_NET_F_MAC) | (1u64 << VIRTIO_NET_F_MQ) | (1u64 << VIRTIO_NET_F_MTU),
{
    (1u64 << VIRTIO_NET_F_CSUM) | (1u64 << VIRTIO_NET_F_CTRL_VQ) | (1u64
        << VIRTIO_NET_F_CTRL_GUEST_OFFLOADS) | (1u64 << VIRTIO_NET_F_GUEST_CSUM) | (1u64
        << VIRTIO_NET_F_GUEST_TSO4) | (1u64 << VIRTIO_NET_F_GUEST_UFO) | (1u64
        << VIRTIO_NET_F_HOST_TSO4) | (1u64 << VIRTIO_NET_F_HOST_UFO) | (1u64 << VIRTIO_NET_F_MAC)
        | (1u64 << VIRTIO_NET_F_MQ) | (1u64 << VIRTIO_NET_F_MTU)
}

/// The vhost protocol feature bits the device model allows: multiple queues
/// and configuration space access.
pub fn net_allow_protocol_features() -> (r: u64)
    ensures
        r == (1u64 << VHOST_PROTOCOL_F_MQ) | (1u64 << VHOST_PROTOCOL_F_CONFIG),
{
    (1u64 << VHOST_PROTOCOL_F_MQ) | (1u64 << VHOST_PROTOCOL_F_CONFIG)
}

} // verus!
