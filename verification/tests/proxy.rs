//! The proxy protocol: codec round trips, the child side's dispatch, and a
//! request/response exchange against a small echo device.

use virtio_scsi::proxy::child_reply;
use virtio_scsi::proxy::child_step;
use virtio_scsi::proxy::decode_command;
use virtio_scsi::proxy::encode_command;
use virtio_scsi::proxy::make_write_command;
use virtio_scsi::proxy::make_write_config_command;
use virtio_scsi::proxy::read_config_reply;
use virtio_scsi::proxy::read_reply;
use virtio_scsi::proxy::BusAccessInfo;
use virtio_scsi::proxy::DeviceOp;
use virtio_scsi::proxy::ProxyCommand;
use virtio_scsi::proxy::ProxyReply;

fn info() -> BusAccessInfo {
    BusAccessInfo {
        offset: 0x10,
        address: 0xfedc_0010,
        id: 2,
    }
}

#[test]
fn command_codec_round_trips() {
    let commands = vec![
        ProxyCommand::Read {
            len: 4,
            info: info(),
        },
        ProxyCommand::Write {
            len: 2,
            info: info(),
            data: vec![0xAA, 0xBB, 0, 0, 0, 0, 0, 0],
        },
        ProxyCommand::ReadConfig(7),
        ProxyCommand::WriteConfig {
            reg_idx: 1,
            offset: 2,
            len: 4,
            data: vec![1, 2, 3, 4],
        },
        ProxyCommand::Shutdown,
    ];
    for cmd in commands {
        let bytes = encode_command(&cmd);
        let back = decode_command(&bytes).expect("an encoding decodes");
        assert_eq!(back, cmd);
    }
}

#[test]
fn decode_refuses_malformed_images() {
    assert_eq!(decode_command(&[]), None);
    assert_eq!(decode_command(&[9]), None, "unknown tag");
    assert_eq!(decode_command(&[0, 1, 2]), None, "short read request");
    assert_eq!(decode_command(&[4, 0]), None, "trailing bytes");
    // A length field claiming more than the buffer width.
    let mut bytes = encode_command(&ProxyCommand::Read {
        len: 8,
        info: info(),
    });
    bytes[1] = 9;
    assert_eq!(decode_command(&bytes), None);
}

#[test]
fn wire_image_layout() {
    let bytes = encode_command(&ProxyCommand::ReadConfig(0x0102_0304));
    assert_eq!(bytes, vec![2, 0x04, 0x03, 0x02, 0x01]);
    let shutdown = encode_command(&ProxyCommand::Shutdown);
    assert_eq!(shutdown, vec![4]);
    let read = encode_command(&ProxyCommand::Read {
        len: 8,
        info: info(),
    });
    assert_eq!(read.len(), 25);
    assert_eq!(read[0], 0);
    assert_eq!(&read[1..5], &[8, 0, 0, 0]);
    assert_eq!(&read[5..13], &[0x10, 0, 0, 0, 0, 0, 0, 0]);
    assert_eq!(&read[13..21], &[0x10, 0x00, 0xdc, 0xfe, 0, 0, 0, 0]);
    assert_eq!(&read[21..25], &[2, 0, 0, 0]);
}

#[test]
fn parent_side_framing_pads_payloads() {
    let cmd = make_write_config_command(3, 1, &vec![42]);
    match &cmd {
        ProxyCommand::WriteConfig {
            reg_idx,
            offset,
            len,
            data,
        } => {
            assert_eq!((*reg_idx, *offset, *len), (3, 1, 1));
            assert_eq!(data, &vec![42, 0, 0, 0]);
        }
        other => panic!("wrong variant: {:?}", other),
    }
    let wcmd = make_write_command(info(), &vec![1, 2, 3]);
    match &wcmd {
        ProxyCommand::Write { len, data, .. } => {
            assert_eq!(*len, 3);
            assert_eq!(data, &vec![1, 2, 3, 0, 0, 0, 0, 0]);
        }
        other => panic!("wrong variant: {:?}", other),
    }
}

#[test]
fn child_dispatch_cuts_payloads_and_stops_on_shutdown() {
    let (op, running) = child_step(&make_write_command(info(), &vec![42]));
    match op {
        DeviceOp::WriteTo { data, .. } => assert_eq!(data, vec![42]),
        other => panic!("wrong operation: {:?}", other),
    }
    assert!(running);

    let (op, running) = child_step(&ProxyCommand::Shutdown);
    assert!(matches!(op, DeviceOp::NoOp));
    assert!(!running);

    let (op, _) = child_step(&ProxyCommand::ReadConfig(5));
    assert!(matches!(op, DeviceOp::ConfigRead { reg_idx: 5 }));
}

#[test]
fn child_replies_by_request_kind() {
    let read_cmd = ProxyCommand::Read {
        len: 1,
        info: info(),
    };
    let reply = child_reply(&read_cmd, &vec![42], 0);
    assert_eq!(
        reply,
        Some(ProxyReply::ReadResult(vec![42, 0, 0, 0, 0, 0, 0, 0]))
    );
    assert_eq!(
        child_reply(&ProxyCommand::ReadConfig(0), &Vec::new(), 42),
        Some(ProxyReply::ReadConfigResult(42))
    );
    assert_eq!(
        child_reply(&ProxyCommand::Shutdown, &Vec::new(), 0),
        Some(ProxyReply::Done)
    );
    assert_eq!(
        child_reply(&make_write_command(info(), &vec![1]), &Vec::new(), 0),
        None
    );
}

/// A simple test echo device that stores the one byte written to it.
struct EchoDevice {
    data: u8,
    config: u8,
}

impl EchoDevice {
    /// Serves one request the way the sandboxed child process would: decode,
    /// dispatch, perform, reply.
    fn serve(&mut self, wire: &[u8]) -> (Option<ProxyReply>, bool) {
        let cmd = decode_command(wire).expect("well-formed request");
        let (op, running) = child_step(&cmd);
        let mut read_bytes = Vec::new();
        let mut config_val = 0u32;
        match op {
            DeviceOp::ReadFrom { len, .. } => {
                for _ in 0..len {
                    read_bytes.push(self.data);
                }
            }
            DeviceOp::WriteTo { data, .. } => {
                assert!(data.len() == 1);
                self.data = data[0];
            }
            DeviceOp::ConfigRead { .. } => {
                config_val = self.config as u32;
            }
            DeviceOp::ConfigWrite { data, .. } => {
                assert!(data.len() == 1);
                self.config = data[0];
            }
            DeviceOp::NoOp => {}
        }
        (child_reply(&cmd, &read_bytes, config_val), running)
    }
}

#[test]
fn test_proxied_read_write() {
    let mut device = EchoDevice { data: 0, config: 0 };
    let address = BusAccessInfo {
        offset: 0,
        address: 0,
        id: 0,
    };

    let write = encode_command(&make_write_command(address, &vec![42]));
    let (reply, running) = device.serve(&write);
    assert_eq!(reply, None);
    assert!(running);

    let read = encode_command(&ProxyCommand::Read {
        len: 1,
        info: address,
    });
    let (reply, _) = device.serve(&read);
    let buffer = read_reply(&reply, 1).expect("one byte back");
    assert_eq!(buffer, [42]);
}

#[test]
fn test_proxied_config() {
    let mut device = EchoDevice { data: 0, config: 0 };
    let write = encode_command(&make_write_config_command(0, 0, &vec![42]));
    let (reply, _) = device.serve(&write);
    assert_eq!(reply, None);

    let read = encode_command(&ProxyCommand::ReadConfig(0));
    let (reply, _) = device.serve(&read);
    assert_eq!(read_config_reply(reply), 42);

    let shutdown = encode_command(&ProxyCommand::Shutdown);
    let (reply, running) = device.serve(&shutdown);
    assert_eq!(reply, Some(ProxyReply::Done));
    assert!(!running);
}

#[test]
fn missing_replies_fall_back() {
    assert_eq!(read_config_reply(None), 0);
    assert_eq!(read_config_reply(Some(ProxyReply::Done)), 0);
    assert_eq!(read_reply(&None, 1), None);
    assert_eq!(
        read_reply(&Some(ProxyReply::ReadResult(vec![0u8; 8])), 9),
        None
    );
}
