//! What the firmware service reports to its clients.

use vstd::prelude::*;

verus! {

/// Information about the system's BIOS.
#[derive(Clone, Debug)]
pub struct BiosInfo {
    pub model: String,
    pub version: String,
}

/// Changelog containing details about each version of firmware.
#[derive(Clone, Debug)]
pub struct Changelog {
    pub versions: Vec<Version>,
}

/// Details about a version of firmware.
#[derive(Clone, Debug)]
pub struct Version {
    pub bios_me: bool,
    pub bios_set: bool,
    pub bios: String,
    pub description: String,
    pub me_cr: Option<bool>,
    pub me_hap: Option<bool>,
    pub me: Option<String>,
    pub date: String,
}

/// Signature of the firmware that can be installed on the system.
#[derive(Clone, Debug)]
pub struct Digest(pub String);

/// Information about the latest system firmware, and all changelogs since then.
#[derive(Clone, Debug)]
pub struct SystemInfo {
    pub digest: Digest,
    pub changelog: Changelog,
}

/// Information about the EC.
#[derive(Clone, Debug)]
pub struct EcInfo {
    pub project: String,
    pub version: String,
}

/// A signature describing the current system firmware.
#[derive(Clone, Debug)]
pub struct FirmwareId(pub String);

/// Information about the Intel ME.
#[derive(Clone, Debug)]
pub struct IntelMeInfo {
    pub enabled: bool,
    pub version: String,
}

/// The latest firmware information for Thelio I/O devices.
#[derive(Clone, Debug)]
pub struct ThelioIoInfo {
    pub digest: Digest,
    pub revision: String,
}

/// The Thelio I/O devices discovered on the system: each device directory
/// with the revision it runs.
#[derive(Clone, Debug)]
pub struct ThelioIoList(pub Vec<(String, String)>);

} // verus!
