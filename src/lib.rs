//! Firmware identity resolution, content-addressed distribution and update
//! scheduling for System76 machines.
//!
//! Everything that touches the hardware, the network or the disk lives with
//! the caller; this library holds the decisions, each with a contract.

pub mod boot;
pub mod cache;
pub mod digest;
pub mod info;
pub mod manifest;
pub mod probe;
pub mod retry;
pub mod schedule;
pub mod text;
pub mod thelio_io;
pub mod timestamp;
pub mod transition;

pub use crate::digest::{firmware_id, generate_firmware_id};
pub use crate::info::{
    BiosInfo, Changelog, Digest, EcInfo, FirmwareId, IntelMeInfo, SystemInfo, ThelioIoInfo, ThelioIoList, Version,
};
pub use crate::probe::{bios, ec_or_none, model_is_whitelisted, Sideband};
pub use crate::retry::{Retry, RetryStep};
pub use crate::schedule::{schedule, unschedule};
pub use crate::thelio_io::{thelio_io_list, ThelioIo, ThelioIoBootloader, ThelioIoMetadata, ThelioIoNormal};
pub use crate::timestamp::exceeded;
pub use crate::transition::{Transition, TransitionKind};
