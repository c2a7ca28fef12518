//! Verified decision logic of the Patina storage components: NVMe admin command
//! construction and outcome checking, boot-partition writes, raw BlockIo writes,
//! SimpleFileSystem file reads, RAM disk installation, and the USB HID
//! descriptor definitions.
//!
//! Every operation that talks to firmware is written as a state machine: the
//! machine names the next firmware call to make, the caller performs it and
//! hands back what the firmware answered, and the machine decides what comes
//! next, until it finishes with a result.
use vstd::prelude::*;

pub mod status;
pub mod pass_thru;
pub mod boot_partition;
pub mod nvme;
pub mod block_io;
pub mod file_system;
pub mod ram_disk;
pub mod usb_hid_defs;
