//! The proxy protocol for a device isolated in a sandboxed process: a closed
//! set of request variants, their replies, a marshaling codec for the duplex
//! channel, and the child side's dispatch decisions.  The process spawning
//! and the channel itself live outside this library; every decision about
//! what a message means is made here.

use vstd::prelude::*;

verus! {

/// The address information of one bus access.
#[derive(Copy, Clone, Debug, PartialEq, Eq, Structural)]
pub struct BusAccessInfo {
    /// Offset of the access into the device's allocated slot.
    pub offset: u64,
    /// Absolute address of the access on the bus.
    pub address: u64,
    /// Id of the bus the access arrived on.
    pub id: u32,
}

/// A request to the sandboxed device process.  The payload buffers are
/// carried at their fixed wire width; `len` says how much of them is used.
#[derive(Debug, PartialEq, Eq)]
pub enum ProxyCommand {
    /// Read `len` bytes from the device.
    Read {
        /// Bytes to read, at most the fixed buffer width 8.
        len: u32,
        /// Where the access goes.
        info: BusAccessInfo,
    },
    /// Write `len` bytes to the device.
    Write {
        /// Bytes of `data` in use, at most the fixed buffer width 8.
        len: u32,
        /// Where the access goes.
        info: BusAccessInfo,
        /// The payload, padded to its fixed width.
        data: Vec<u8>,
    },
    /// Read the configuration register with the given index.
    ReadConfig(u32),
    /// Write into the configuration register with the given index.
    WriteConfig {
        /// Index of the register.
        reg_idx: u32,
        /// Offset of the write into the register.
        offset: u32,
        /// Bytes of `data` in use, at most the fixed buffer width 4.
        len: u32,
        /// The payload, padded to its fixed width.
        data: Vec<u8>,
    },
    /// Stop the device process.
    Shutdown,
}

/// Mathematical image of a request, with the payloads as sequences.
#[verifier::ext_equal]
pub ghost enum SpecProxyCommand {
    /// Read `len` bytes from the device.
    Read {
        /// Bytes to read.
        len: u32,
        /// Where the access goes.
        info: BusAccessInfo,
    },
    /// Write `len` bytes to the device.
    Write {
        /// Bytes of `data` in use.
        len: u32,
        /// Where the access goes.
        info: BusAccessInfo,
        /// The payload.
        data: Seq<u8>,
    },
    /// Read the configuration register with the given index.
    ReadConfig(u32),
    /// Write into the configuration register with the given index.
    WriteConfig {
        /// Index of the register.
        reg_idx: u32,
        /// Offset of the write into the register.
        offset: u32,
        /// Bytes of `data` in use.
        len: u32,
        /// The payload.
        data: Seq<u8>,
    },
    /// Stop the device process.
    Shutdown,
}

impl View for ProxyCommand {
    type V = SpecProxyCommand;

    open spec fn view(&self) -> SpecProxyCommand {
        match self {
            ProxyCommand::Read { len, info } => SpecProxyCommand::Read { len: *len, info: *info },
            ProxyCommand::Write { len, info, data } => SpecProxyCommand::Write {
                len: *len,
                info: *info,
                data: data@,
            },
            ProxyCommand::ReadConfig(idx) => SpecProxyCommand::ReadConfig(*idx),
            ProxyCommand::WriteConfig { reg_idx, offset, len, data } => {
                SpecProxyCommand::WriteConfig {
                    reg_idx: *reg_idx,
                    offset: *offset,
                    len: *len,
                    data: data@,
                }
            },
            ProxyCommand::Shutdown => SpecProxyCommand::Shutdown,
        }
    }
}

impl SpecProxyCommand {
    /// A request is well formed when its payload has its fixed wire width
    /// and its length field does not claim more than that width.
    pub open spec fn wf(self) -> bool {
        match self {
            SpecProxyCommand::Read { len, .. } => len <= 8,
            SpecProxyCommand::Write { len, data, .. } => len <= 8 && data.len() == 8,
            SpecProxyCommand::ReadConfig(_) => true,
            SpecProxyCommand::WriteConfig { len, data, .. } => len <= 4 && data.len() == 4,
            SpecProxyCommand::Shutdown => true,
        }
    }
}

/// A reply from the sandboxed device process.
#[derive(Debug, PartialEq, Eq)]
pub enum ProxyReply {
    /// The request needed no data in return.
    Done,
    /// The bytes a read returned, padded to the fixed buffer width 8.
    ReadResult(Vec<u8>),
    /// The value a configuration-register read returned.
    ReadConfigResult(u32),
}

/// The little-endian wire image of a 32-bit field.
pub open spec fn spec_le32(v: u32) -> Seq<u8> {
    seq![
        (v & 0xff) as u8,
        ((v >> 8) & 0xff) as u8,
        ((v >> 16) & 0xff) as u8,
        ((v >> 24) & 0xff) as u8,
    ]
}

/// The little-endian wire image of a 64-bit field.
pub open spec fn spec_le64(v: u64) -> Seq<u8> {
    seq![
        (v & 0xff) as u8,
        ((v >> 8) & 0xff) as u8,
        ((v >> 16) & 0xff) as u8,
        ((v >> 24) & 0xff) as u8,
        ((v >> 32) & 0xff) as u8,
        ((v >> 40) & 0xff) as u8,
        ((v >> 48) & 0xff) as u8,
        ((v >> 56) & 0xff) as u8,
    ]
}

/// The 32-bit value a little-endian wire image decodes to.
pub open spec fn spec_read_le32(s: Seq<u8>, at: int) -> u32
    recommends
        0 <= at,
        at + 4 <= s.len(),
{
    ((s[at] as u32) + (s[at + 1] as u32) * 0x100 + (s[at + 2] as u32) * 0x10000 + (s[at + 3] as u32)
        * 0x1000000) as u32
}

/// The 64-bit value a little-endian wire image decodes to.
pub open spec fn spec_read_le64(s: Seq<u8>, at: int) -> u64
    recommends
        0 <= at,
        at + 8 <= s.len(),
{
    ((s[at] as u64) + (s[at + 1] as u64) * 0x100 + (s[at + 2] as u64) * 0x10000 + (s[at + 3] as u64)
        * 0x1000000 + (s[at + 4] as u64) * 0x100000000 + (s[at + 5] as u64) * 0x10000000000 + (s[at
        + 6] as u64) * 0x1000000000000 + (s[at + 7] as u64) * 0x100000000000000) as u64
}

/// The wire image of the bus access information: offset, address and id.
pub open spec fn spec_info_bytes(info: BusAccessInfo) -> Seq<u8> {
    spec_le64(info.offset) + spec_le64(info.address) + spec_le32(info.id)
}

/// The wire image of a request: a tag byte selecting the variant, then its
/// fields in order, fixed-width and little-endian.
pub open spec fn spec_command_bytes(cmd: SpecProxyCommand) -> Seq<u8>
    recommends
        cmd.wf(),
{
    match cmd {
        SpecProxyCommand::Read { len, info } => seq![0u8] + spec_le32(len) + spec_info_bytes(info),
        SpecProxyCommand::Write { len, info, data } => seq![1u8] + spec_le32(len)
            + spec_info_bytes(info) + data,
        SpecProxyCommand::ReadConfig(idx) => seq![2u8] + spec_le32(idx),
        SpecProxyCommand::WriteConfig { reg_idx, offset, len, data } => seq![3u8] + spec_le32(
            reg_idx,
        ) + spec_le32(offset) + spec_le32(len) + data,
        SpecProxyCommand::Shutdown => seq![4u8],
    }
}

/// What decoding a request wire image yields: the request it is the encoding
/// of, exactly when it is a well-formed request's encoding, and nothing
/// otherwise.
pub open spec fn spec_decode_command(s: Seq<u8>) -> Option<SpecProxyCommand> {
    if s.len() == 0 {
        None
    } else if s[0] == 0 && s.len() == 25 && spec_read_le32(s, 1) <= 8 {
        Some(
            SpecProxyCommand::Read {
                len: spec_read_le32(s, 1),
                info: BusAccessInfo {
                    offset: spec_read_le64(s, 5),
                    address: spec_read_le64(s, 13),
                    id: spec_read_le32(s, 21),
                },
            },
        )
    } else if s[0] == 1 && s.len() == 33 && spec_read_le32(s, 1) <= 8 {
        Some(
            SpecProxyCommand::Write {
                len: spec_read_le32(s, 1),
                info: BusAccessInfo {
                    offset: spec_read_le64(s, 5),
                    address: spec_read_le64(s, 13),
                    id: spec_read_le32(s, 21),
                },
                data: s.subrange(25, 33),
            },
        )
    } else if s[0] == 2 && s.len() == 5 {
        Some(SpecProxyCommand::ReadConfig(spec_read_le32(s, 1)))
    } else if s[0] == 3 && s.len() == 17 && spec_read_le32(s, 9) <= 4 {
        Some(
            SpecProxyCommand::WriteConfig {
                reg_idx: spec_read_le32(s, 1),
                offset: spec_read_le32(s, 5),
                len: spec_read_le32(s, 9),
                data: s.subrange(13, 17),
            },
        )
    } else if s[0] == 4 && s.len() == 1 {
        Some(SpecProxyCommand::Shutdown)
    } else {
        None
    }
}

/// Appends the little-endian image of a 32-bit field.
fn push_le32(out: &mut Vec<u8>, v: u32)
    ensures
        final (out)@ =~= old(out)@ + spec_le32(v),
{
    out.push((v & 0xff) as u8);
    out.push(((v >> 8) & 0xff) as u8);
    out.push(((v >> 16) & 0xff) as u8);
    out.push(((v >> 24) & 0xff) as u8);
}

/// Appends the little-endian image of a 64-bit field.
fn push_le64(out: &mut Vec<u8>, v: u64)
    ensures
        final (out)@ =~= old(out)@ + spec_le64(v),
{
    out.push((v & 0xff) as u8);
    out.push(((v >> 8) & 0xff) as u8);
    out.push(((v >> 16) & 0xff) as u8);
    out.push(((v >> 24) & 0xff) as u8);
    out.push(((v >> 32) & 0xff) as u8);
    out.push(((v >> 40) & 0xff) as u8);
    out.push(((v >> 48) & 0xff) as u8);
    out.push(((v >> 56) & 0xff) as u8);
}

/// Reads the little-endian 32-bit field at the given offset.
fn read_le32(s: &[u8], at: usize) -> (r: u32)
    requires
        at + 4 <= s@.len(),
    ensures
        r == spec_read_le32(s@, at as int),
{
    (s[at] as u32) + (s[at + 1] as u32) * 0x100 + (s[at + 2] as u32) * 0x10000 + (s[at + 3] as u32)
        * 0x1000000
}

/// Reads the little-endian 64-bit field at the given offset.
fn read_le64(s: &[u8], at: usize) -> (r: u64)
    requires
        at + 8 <= s@.len(),
    ensures
        r == spec_read_le64(s@, at as int),
{
    (s[at] as u64) + (s[at + 1] as u64) * 0x100 + (s[at + 2] as u64) * 0x10000 + (s[at + 3] as u64)
        * 0x1000000 + (s[at + 4] as u64) * 0x100000000 + (s[at + 5] as u64) * 0x10000000000 + (s[at
        + 6] as u64) * 0x1000000000000 + (s[at + 7] as u64) * 0x100000000000000
}

/// Copies the byte range `[start, end)` out of a slice.
fn bytes_of(s: &[u8], start: usize, end: usize) -> (r: Vec<u8>)
    requires
        start <= end <= s@.len(),
    ensures
        r@ =~= s@.subrange(start as int, end as int),
{
    let mut out: Vec<u8> = Vec::new();
    let mut i: usize = start;
    while i < end
        invariant
            start <= i <= end,
            end <= s@.len(),
            out@ =~= s@.subrange(start as int, i as int),
        decreases end - i,
    {
        out.push(s[i]);
        i = i + 1;
    }
    out
}

/// Serializes a request into its wire image.
pub fn encode_command(cmd: &ProxyCommand) -> (r: Vec<u8>)
    requires
        cmd@.wf(),
    ensures
        r@ =~= spec_command_bytes(cmd@),
{
    let mut out: Vec<u8> = Vec::new();
    match cmd {
        ProxyCommand::Read { len, info } => {
            out.push(0);
            push_le32(&mut out, *len);
            push_le64(&mut out, info.offset);
            push_le64(&mut out, info.address);
            push_le32(&mut out, info.id);
        },
        ProxyCommand::Write { len, info, data } => {
            out.push(1);
            push_le32(&mut out, *len);
            push_le64(&mut out, info.offset);
            push_le64(&mut out, info.address);
            push_le32(&mut out, info.id);
            let mut i: usize = 0;
            let ghost out0 = out@;
            while i < data.len()
                invariant
                    i <= data@.len(),
                    out@ =~= out0 + data@.take(i as int),
                decreases data@.len() - i,
            {
                out.push(data[i]);
                i = i + 1;
            }
            proof {
                assert(data@.take(data@.len() as int) =~= data@);
            }
        },
        ProxyCommand::ReadConfig(idx) => {
            out.push(2);
            push_le32(&mut out, *idx);
        },
        ProxyCommand::WriteConfig { reg_idx, offset, len, data } => {
            out.push(3);
            push_le32(&mut out, *reg_idx);
            push_le32(&mut out, *offset);
            push_le32(&mut out, *len);
            let mut i: usize = 0;
            let ghost out0 = out@;
            while i < data.len()
                invariant
                    i <= data@.len(),
                    out@ =~= out0 + data@.take(i as int),
                decreases data@.len() - i,
            {
                out.push(data[i]);
                i = i + 1;
            }
            proof {
                assert(data@.take(data@.len() as int) =~= data@);
            }
        },
        ProxyCommand::Shutdown => {
            out.push(4);
        },
    }
    out
}

/// Parses a request from its wire image.  Yields the encoded request exactly
/// when the image is a well-formed request's encoding, and nothing
/// otherwise.
pub fn decode_command(s: &[u8]) -> (r: Option<ProxyCommand>)
    ensures
        (r is Some) == (spec_decode_command(s@) is Some),
        r is Some ==> r->0@ == spec_decode_command(s@)->0 && r->0@.wf(),
{
    if s.len() == 0 {
        return None;
    }
    let tag = s[0];
    if tag == 0 && s.len() == 25 {
        let len = read_le32(s, 1);
        if len > 8 {
            return None;
        }
        Some(
            ProxyCommand::Read {
                len,
                info: BusAccessInfo {
                    offset: read_le64(s, 5),
                    address: read_le64(s, 13),
                    id: read_le32(s, 21),
                },
            },
        )
    } else if tag == 1 && s.len() == 33 {
        let len = read_le32(s, 1);
        if len > 8 {
            return None;
        }
        Some(
            ProxyCommand::Write {
                len,
                info: BusAccessInfo {
                    offset: read_le64(s, 5),
                    address: read_le64(s, 13),
                    id: read_le32(s, 21),
                },
                data: bytes_of(s, 25, 33),
            },
        )
    } else if tag == 2 && s.len() == 5 {
        Some(ProxyCommand::ReadConfig(read_le32(s, 1)))
    } else if tag == 3 && s.len() == 17 {
        let len = read_le32(s, 9);
        if len > 4 {
            return None;
        }
        Some(
            ProxyCommand::WriteConfig {
                reg_idx: read_le32(s, 1),
                offset: read_le32(s, 5),
                len,
                data: bytes_of(s, 13, 17),
            },
        )
    } else if tag == 4 && s.len() == 1 {
        Some(ProxyCommand::Shutdown)
    } else {
        None
    }
}

/// The 32-bit field's value survives its wire image.
proof fn lemma_le32_round_trip(v: u32)
    ensures
        spec_read_le32(spec_le32(v), 0) == v,
{
    assert(v & 0xff < 0x100 && (v >> 8) & 0xff < 0x100 && (v >> 16) & 0xff < 0x100 && (v >> 24)
        & 0xff < 0x100) by (bit_vector);
    assert((v & 0xff) + ((v >> 8) & 0xff) * 0x100 + ((v >> 16) & 0xff) * 0x10000 + ((v >> 24)
        & 0xff) * 0x1000000 == v) by (bit_vector);
}

/// The 64-bit field's value survives its wire image.
proof fn lemma_le64_round_trip(v: u64)
    ensures
        spec_read_le64(spec_le64(v), 0) == v,
{
    assert(v & 0xff < 0x100 && (v >> 8) & 0xff < 0x100 && (v >> 16) & 0xff < 0x100 && (v >> 24)
        & 0xff < 0x100 && (v >> 32) & 0xff < 0x100 && (v >> 40) & 0xff < 0x100 && (v >> 48) & 0xff
        < 0x100 && (v >> 56) & 0xff < 0x100) by (bit_vector);
    assert((v & 0xff) + ((v >> 8) & 0xff) * 0x100 + ((v >> 16) & 0xff) * 0x10000 + ((v >> 24)
        & 0xff) * 0x1000000 + ((v >> 32) & 0xff) * 0x100000000 + ((v >> 40) & 0xff) * 0x10000000000
        + ((v >> 48) & 0xff) * 0x1000000000000 + ((v >> 56) & 0xff) * 0x100000000000000 == v)
        by (bit_vector);
}

/// A le32 image read from inside a larger image.
proof fn lemma_read_le32_at(s: Seq<u8>, at: int, v: u32)
    requires
        0 <= at,
        at + 4 <= s.len(),
        s.subrange(at, at + 4) == spec_le32(v),
    ensures
        spec_read_le32(s, at) == v,
{
    lemma_le32_round_trip(v);
    assert(s[at] == spec_le32(v)[0]);
    assert(s[at + 1] == spec_le32(v)[1]);
    assert(s[at + 2] == spec_le32(v)[2]);
    assert(s[at + 3] == spec_le32(v)[3]);
}

/// A le64 image read from inside a larger image.
proof fn lemma_read_le64_at(s: Seq<u8>, at: int, v: u64)
    requires
        0 <= at,
        at + 8 <= s.len(),
        s.subrange(at, at + 8) == spec_le64(v),
    ensures
        spec_read_le64(s, at) == v,
{
    lemma_le64_round_trip(v);
    assert forall|k: int| 0 <= k < 8 implies s[at + k] == spec_le64(v)[k] by {
        assert(s.subrange(at, at + 8)[k] == s[at + k]);
    }
}

/// Law: the request codec round-trips.  Encoding any well-formed request
/// and decoding the resulting wire image recovers exactly that request.
pub proof fn lemma_command_round_trip(cmd: SpecProxyCommand)
    requires
        cmd.wf(),
    ensures
        spec_decode_command(spec_command_bytes(cmd)) == Some(cmd),
{
    let s = spec_command_bytes(cmd);
    match cmd {
        SpecProxyCommand::Read { len, info } => {
            assert(s.subrange(1, 5) =~= spec_le32(len));
            assert(s.subrange(5, 13) =~= spec_le64(info.offset));
            assert(s.subrange(13, 21) =~= spec_le64(info.address));
            assert(s.subrange(21, 25) =~= spec_le32(info.id));
            lemma_read_le32_at(s, 1, len);
            lemma_read_le64_at(s, 5, info.offset);
            lemma_read_le64_at(s, 13, info.address);
            lemma_read_le32_at(s, 21, info.id);
        },
        SpecProxyCommand::Write { len, info, data } => {
            assert(s.subrange(1, 5) =~= spec_le32(len));
            assert(s.subrange(5, 13) =~= spec_le64(info.offset));
            assert(s.subrange(13, 21) =~= spec_le64(info.address));
            assert(s.subrange(21, 25) =~= spec_le32(info.id));
            assert(s.subrange(25, 33) =~= data);
            lemma_read_le32_at(s, 1, len);
            lemma_read_le64_at(s, 5, info.offset);
            lemma_read_le64_at(s, 13, info.address);
            lemma_read_le32_at(s, 21, info.id);
        },
        SpecProxyCommand::ReadConfig(idx) => {
            assert(s.subrange(1, 5) =~= spec_le32(idx));
            lemma_read_le32_at(s, 1, idx);
        },
        SpecProxyCommand::WriteConfig { reg_idx, offset, len, data } => {
            assert(s.subrange(1, 5) =~= spec_le32(reg_idx));
            assert(s.subrange(5, 9) =~= spec_le32(offset));
            assert(s.subrange(9, 13) =~= spec_le32(len));
            assert(s.subrange(13, 17) =~= data);
            lemma_read_le32_at(s, 1, reg_idx);
            lemma_read_le32_at(s, 5, offset);
            lemma_read_le32_at(s, 9, len);
        },
        SpecProxyCommand::Shutdown => {},
    }
}

/// The device operation a request asks the child process to perform, with
/// the payload already cut to its used length.
#[verifier::ext_equal]
pub ghost enum SpecDeviceOp {
    /// Read `len` bytes at the given access address.
    ReadFrom {
        /// Where the access goes.
        info: BusAccessInfo,
        /// Bytes to read.
        len: u32,
    },
    /// Write the payload at the given access address.
    WriteTo {
        /// Where the access goes.
        info: BusAccessInfo,
        /// The payload, cut to its used length.
        data: Seq<u8>,
    },
    /// Read the configuration register with the given index.
    ConfigRead {
        /// Index of the register.
        reg_idx: u32,
    },
    /// Write the payload into the configuration register.
    ConfigWrite {
        /// Index of the register.
        reg_idx: u32,
        /// Offset of the write into the register.
        offset: u32,
        /// The payload, cut to its used length.
        data: Seq<u8>,
    },
    /// Perform nothing.
    NoOp,
}

/// The child side's dispatch decision for a request: which device operation
/// to perform and whether the loop keeps running afterwards.
pub open spec fn spec_child_op(cmd: SpecProxyCommand) -> SpecDeviceOp {
    match cmd {
        SpecProxyCommand::Read { len, info } => SpecDeviceOp::ReadFrom { info, len },
        SpecProxyCommand::Write { len, info, data } => SpecDeviceOp::WriteTo {
            info,
            data: data.take(len as int),
        },
        SpecProxyCommand::ReadConfig(idx) => SpecDeviceOp::ConfigRead { reg_idx: idx },
        SpecProxyCommand::WriteConfig { reg_idx, offset, len, data } => SpecDeviceOp::ConfigWrite {
            reg_idx,
            offset,
            data: data.take(len as int),
        },
        SpecProxyCommand::Shutdown => SpecDeviceOp::NoOp,
    }
}

/// The device operation a request asks for, as plain values.
#[derive(Debug)]
pub enum DeviceOp {
    /// Read `len` bytes at the given access address.
    ReadFrom {
        /// Where the access goes.
        info: BusAccessInfo,
        /// Bytes to read.
        len: u32,
    },
    /// Write the payload at the given access address.
    WriteTo {
        /// Where the access goes.
        info: BusAccessInfo,
        /// The payload, cut to its used length.
        data: Vec<u8>,
    },
    /// Read the configuration register with the given index.
    ConfigRead {
        /// Index of the register.
        reg_idx: u32,
    },
    /// Write the payload into the configuration register.
    ConfigWrite {
        /// Index of the register.
        reg_idx: u32,
        /// Offset of the write into the register.
        offset: u32,
        /// The payload, cut to its used length.
        data: Vec<u8>,
    },
    /// Perform nothing.
    NoOp,
}

impl View for DeviceOp {
    type V = SpecDeviceOp;

    open spec fn view(&self) -> SpecDeviceOp {
        match self {
            DeviceOp::ReadFrom { info, len } => SpecDeviceOp::ReadFrom { info: *info, len: *len },
            DeviceOp::WriteTo { info, data } => SpecDeviceOp::WriteTo { info: *info, data: data@ },
            DeviceOp::ConfigRead { reg_idx } => SpecDeviceOp::ConfigRead { reg_idx: *reg_idx },
            DeviceOp::ConfigWrite { reg_idx, offset, data } => SpecDeviceOp::ConfigWrite {
                reg_idx: *reg_idx,
                offset: *offset,
                data: data@,
            },
            DeviceOp::NoOp => SpecDeviceOp::NoOp,
        }
    }
}

/// The child side's dispatch: decides which device operation a request asks
/// for, with the payload cut to its used length, and whether the serving
/// loop keeps running.  Only a shutdown request stops it.
pub fn child_step(cmd: &ProxyCommand) -> (r: (DeviceOp, bool))
    requires
        cmd@.wf(),
    ensures
        r.0@ == spec_child_op(cmd@),
        r.1 == !(cmd@ is Shutdown),
{
    match cmd {
        ProxyCommand::Read { len, info } => (DeviceOp::ReadFrom { info: *info, len: *len }, true),
        ProxyCommand::Write { len, info, data } => {
            let used = bytes_of(data.as_slice(), 0, *len as usize);
            proof {
                assert(data@.subrange(0, cmd@->Write_len as int) =~= data@.take(
                    cmd@->Write_len as int,
                ));
            }
            (DeviceOp::WriteTo { info: *info, data: used }, true)
        },
        ProxyCommand::ReadConfig(idx) => (DeviceOp::ConfigRead { reg_idx: *idx }, true),
        ProxyCommand::WriteConfig { reg_idx, offset, len, data } => {
            let used = bytes_of(data.as_slice(), 0, *len as usize);
            proof {
                assert(data@.subrange(0, cmd@->WriteConfig_len as int) =~= data@.take(
                    cmd@->WriteConfig_len as int,
                ));
            }
            (
                DeviceOp::ConfigWrite { reg_idx: *reg_idx, offset: *offset, data: used },
                true,
            )
        },
        ProxyCommand::Shutdown => (DeviceOp::NoOp, false),
    }
}

/// The child side's reply decision: a read answers with its bytes padded to
/// the fixed width, a configuration read answers with its value, a shutdown
/// acknowledges, and a write of either kind sends nothing back.
pub fn child_reply(cmd: &ProxyCommand, read_bytes: &Vec<u8>, config_val: u32) -> (r: Option<
    ProxyReply,
>)
    requires
        cmd@ is Read ==> read_bytes@.len() <= 8,
    ensures
        cmd@ is Read ==> (r matches Some(ProxyReply::ReadResult(b)) && b@ =~= read_bytes@
            + Seq::new((8 - read_bytes@.len()) as nat, |i: int| 0u8)),
        cmd@ is ReadConfig ==> r == Some(ProxyReply::ReadConfigResult(config_val)),
        cmd@ is Shutdown ==> r == Some(ProxyReply::Done),
        cmd@ is Write || cmd@ is WriteConfig ==> r is None,
{
    match cmd {
        ProxyCommand::Read { .. } => {
            let mut buf: Vec<u8> = Vec::new();
            let mut i: usize = 0;
            while i < read_bytes.len()
                invariant
                    i <= read_bytes@.len(),
                    buf@ =~= read_bytes@.take(i as int),
                decreases read_bytes@.len() - i,
            {
                buf.push(read_bytes[i]);
                i = i + 1;
            }
            while buf.len() < 8
                invariant
                    read_bytes@.len() <= 8,
                    read_bytes@.len() <= buf@.len() <= 8,
                    buf@.take(read_bytes@.len() as int) =~= read_bytes@,
                    forall|j: int| read_bytes@.len() <= j < buf@.len() ==> buf@[j] == 0u8,
                decreases 8 - buf@.len(),
            {
                buf.push(0);
            }
            proof {
                assert(buf@ =~= read_bytes@ + Seq::new((8 - read_bytes@.len()) as nat, |i: int| 0u8));
            }
            Some(ProxyReply::ReadResult(buf))
        },
        ProxyCommand::ReadConfig(_) => Some(ProxyReply::ReadConfigResult(config_val)),
        ProxyCommand::Shutdown => Some(ProxyReply::Done),
        _ => None,
    }
}

/// The parent side's framing of a register write: the payload is padded to
/// its fixed width and its used length recorded, as the protocol's write
/// request.
pub fn make_write_config_command(reg_idx: u32, offset: u32, data: &Vec<u8>) -> (r: ProxyCommand)
    requires
        data@.len() <= 4,
    ensures
        r@.wf(),
        r@ matches SpecProxyCommand::WriteConfig { reg_idx: ri, offset: off, len, data: d } && ri
            == reg_idx && off == offset && len == data@.len() && d =~= data@ + Seq::new(
            (4 - data@.len()) as nat,
            |i: int| 0u8,
        ),
{
    let mut buf: Vec<u8> = Vec::new();
    let mut i: usize = 0;
    while i < data.len()
        invariant
            i <= data@.len(),
            buf@ =~= data@.take(i as int),
        decreases data@.len() - i,
    {
        buf.push(data[i]);
        i = i + 1;
    }
    while buf.len() < 4
        invariant
            data@.len() <= 4,
            data@.len() <= buf@.len() <= 4,
            buf@.take(data@.len() as int) =~= data@,
            forall|j: int| data@.len() <= j < buf@.len() ==> buf@[j] == 0u8,
        decreases 4 - buf@.len(),
    {
        buf.push(0);
    }
    proof {
        assert(buf@ =~= data@ + Seq::new((4 - data@.len()) as nat, |i: int| 0u8));
    }
    ProxyCommand::WriteConfig { reg_idx, offset, len: data.len() as u32, data: buf }
}

/// The parent side's framing of a bus write, padded likewise.
pub fn make_write_command(info: BusAccessInfo, data: &Vec<u8>) -> (r: ProxyCommand)
    requires
        data@.len() <= 8,
    ensures
        r@.wf(),
        r@ matches SpecProxyCommand::Write { len, info: inf, data: d } && inf == info && len
            == data@.len() && d =~= data@ + Seq::new((8 - data@.len()) as nat, |i: int| 0u8),
{
    let mut buf: Vec<u8> = Vec::new();
    let mut i: usize = 0;
    while i < data.len()
        invariant
            i <= data@.len(),
            buf@ =~= data@.take(i as int),
        decreases data@.len() - i,
    {
        buf.push(data[i]);
        i = i + 1;
    }
    while buf.len() < 8
        invariant
            data@.len() <= 8,
            data@.len() <= buf@.len() <= 8,
            buf@.take(data@.len() as int) =~= data@,
            forall|j: int| data@.len() <= j < buf@.len() ==> buf@[j] == 0u8,
        decreases 8 - buf@.len(),
    {
        buf.push(0);
    }
    proof {
        assert(buf@ =~= data@ + Seq::new((8 - data@.len()) as nat, |i: int| 0u8));
    }
    ProxyCommand::Write { len: data.len() as u32, info, data: buf }
}

/// The parent side's handling of a configuration-read reply: the value when
/// one arrived, and 0 when the reply is missing or of the wrong shape.
pub fn read_config_reply(reply: Option<ProxyReply>) -> (r: u32)
    ensures
        reply matches Some(ProxyReply::ReadConfigResult(v)) ==> r == v,
        !(reply matches Some(ProxyReply::ReadConfigResult(_))) ==> r == 0,
{
    if let Some(ProxyReply::ReadConfigResult(val)) = reply {
        val
    } else {
        0
    }
}

/// The parent side's handling of a read reply: the first `len` bytes of the
/// returned buffer when a read result arrived and holds that many, and
/// nothing otherwise.
pub fn read_reply(reply: &Option<ProxyReply>, len: usize) -> (r: Option<Vec<u8>>)
    ensures
        match reply {
            Some(ProxyReply::ReadResult(b)) => if len <= b@.len() {
                r matches Some(out) && out@ =~= b@.take(len as int)
            } else {
                r is None
            },
            _ => r is None,
        },
{
    if let Some(ProxyReply::ReadResult(buffer)) = reply {
        if len <= buffer.len() {
            Some(bytes_of(buffer.as_slice(), 0, len))
        } else {
            None
        }
    } else {
        None
    }
}

} // verus!
