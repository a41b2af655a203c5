//! Backend half of a paravirtualized SCSI controller: it decodes SCSI Command
//! Descriptor Blocks arriving over a virtqueue transport, executes them against
//! a backing storage image, and encodes SCSI-compliant status and sense data
//! for the guest.  The transport queue and the backing store are modelled at
//! their interface boundary; every decoding, validation, execution and
//! encoding rule is stated in a contract and proved.

pub mod chain;
pub mod command;
pub mod constants;
pub mod device;
pub mod execute;
pub mod fdt;
pub mod net;
pub mod proxy;
pub mod psci;
pub mod response;
pub mod sense;
pub mod storage;
pub mod worker;
