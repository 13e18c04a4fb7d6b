//! Thelio I/O boards on the USB bus: how a device is recognised, what the
//! list of devices reports, which devices an update switches to their
//! bootloader, and the programmer's arguments.

use vstd::prelude::*;
use crate::text::{joined, same_text};

verus! {

/// The firmware metadata that the distribution store lists for Thelio I/O.
pub struct ThelioIoMetadata {
    pub device: String,
    pub revision: String,
}

/// A Thelio I/O board in its bootloader, by its device directory.
pub struct ThelioIoBootloader(pub String);

/// A Thelio I/O board running its firmware, by its device directory.
pub struct ThelioIoNormal(pub String);

/// A Thelio I/O board.
pub enum ThelioIo {
    Bootloader(ThelioIoBootloader),
    Normal(ThelioIoNormal),
}

/// Whether a device file held `contents` (trimmed; `None` where it could not
/// be read) equal to `value`.
pub open spec fn file_holds(contents: Option<String>, value: Seq<char>) -> bool {
    contents matches Some(c) && c@ == value
}

/// Whether a device file held `contents` (trimmed; `None` where it could not
/// be read) equal to `value`.
pub fn check_file(contents: &Option<String>, value: &str) -> (r: bool)
    ensures
        r == file_holds(*contents, value@),
{
    match contents {
        Some(c) => same_text(c.as_str(), value),
        None => false,
    }
}

/// The device directory of a board.
pub open spec fn device_path(d: ThelioIo) -> Seq<char> {
    match d {
        ThelioIo::Bootloader(b) => b.0@,
        ThelioIo::Normal(n) => n.0@,
    }
}

impl ThelioIo {
    /// The board in the device directory `path`, given what its
    /// `manufacturer`, `product` and `idProduct` files held: `None` unless
    /// it is a System76 Io; running its firmware where `idProduct` is 1776,
    /// else in its bootloader.
    pub fn new(path: &str, manufacturer: &Option<String>, product: &Option<String>, id_product: &Option<String>) -> (r: Option<ThelioIo>)
        ensures
            !(file_holds(*manufacturer, "System76"@) && file_holds(*product, "Io"@)) ==> r is None,
            file_holds(*manufacturer, "System76"@) && file_holds(*product, "Io"@) ==> (r matches Some(d)
                && device_path(d) == path@
                && (d is Normal <==> file_holds(*id_product, "1776"@))),
    {
        if !check_file(manufacturer, "System76") {
            return None;
        }
        if !check_file(product, "Io") {
            return None;
        }
        if check_file(id_product, "1776") {
            Some(ThelioIo::Normal(ThelioIoNormal(String::from_str(path))))
        } else {
            Some(ThelioIo::Bootloader(ThelioIoBootloader(String::from_str(path))))
        }
    }

    /// The board's device directory.
    pub fn path(&self) -> (r: &str)
        ensures
            r@ == device_path(*self),
    {
        match self {
            ThelioIo::Bootloader(bootloader) => bootloader.0.as_str(),
            ThelioIo::Normal(normal) => normal.0.as_str(),
        }
    }
}

/// The revision that the list reports for a board whose revision file held
/// `revision`: none for a board in its bootloader, and none where the file
/// could not be read.
pub open spec fn listed_revision(d: ThelioIo, revision: Option<String>) -> Seq<char> {
    match d {
        ThelioIo::Bootloader(_) => Seq::empty(),
        ThelioIo::Normal(_) => match revision {
            Some(r) => r@,
            None => Seq::empty(),
        },
    }
}

/// The revision that the list reports for `d`, whose revision file held
/// `revision`.
fn listed(d: &ThelioIo, revision: &Option<String>) -> (r: String)
    ensures
        r@ == listed_revision(*d, *revision),
{
    match d {
        ThelioIo::Bootloader(_) => String::new(),
        ThelioIo::Normal(_) => match revision {
            Some(r) => r.clone(),
            None => String::new(),
        },
    }
}

/// Each board's device directory with the revision that it runs, in the
/// order given; `revisions[i]` is what the revision file of `devices[i]`
/// held.
pub fn thelio_io_list(devices: &Vec<ThelioIo>, revisions: &Vec<Option<String>>) -> (r: Vec<(String, String)>)
    requires
        devices@.len() == revisions@.len(),
    ensures
        r@.len() == devices@.len(),
        forall|i: int| 0 <= i < r@.len() ==> (#[trigger] r@[i]).0@ == device_path(devices@[i])
            && r@[i].1@ == listed_revision(devices@[i], revisions@[i]),
{
    let mut out: Vec<(String, String)> = Vec::new();
    let mut i: usize = 0;
    while i < devices.len()
        invariant
            0 <= i <= devices@.len(),
            devices@.len() == revisions@.len(),
            out@.len() == i,
            forall|k: int| 0 <= k < i ==> (#[trigger] out@[k]).0@ == device_path(devices@[k])
                && out@[k].1@ == listed_revision(devices@[k], revisions@[k]),
        decreases devices@.len() - i,
    {
        let d = &devices[i];
        let path = String::from_str(d.path());
        let rev = listed(d, &revisions[i]);
        out.push((path, rev));
        i += 1;
    }
    out
}

/// Whether an update to `target` switches `d`, whose revision file held
/// `revision`, to its bootloader: a board running its firmware whose
/// revision differs from the target (an unreadable one counts as empty).
pub open spec fn needs_switch(d: ThelioIo, revision: Option<String>, target: Seq<char>) -> bool {
    d is Normal && listed_revision(d, revision) != target
}

/// Whether an update to `target` switches `d`, whose revision file held
/// `revision`, to its bootloader.
pub fn switch_to_bootloader(d: &ThelioIo, revision: &Option<String>, target: &str) -> (r: bool)
    ensures
        r == needs_switch(*d, *revision, target@),
{
    match d {
        ThelioIo::Bootloader(_) => false,
        ThelioIo::Normal(_) => {
            let current = listed(d, revision);
            !same_text(current.as_str(), target)
        },
    }
}

/// What the device programmer is asked to do.
#[derive(Clone, Copy, Debug, PartialEq, Eq, Structural)]
pub enum DfuCommand {
    /// Write the image read from standard input.
    Flash,
    /// Leave the bootloader.
    Reset,
}

/// The programmer's arguments for the board at USB bus `bus`, device `dev`.
pub open spec fn dfu_args_spec(bus: Seq<char>, dev: Seq<char>, command: DfuCommand) -> Seq<Seq<char>> {
    let target = "atmega32u4:"@ + bus + ","@ + dev;
    match command {
        DfuCommand::Flash => seq![target, "flash"@, "--quiet"@, "STDIN"@],
        DfuCommand::Reset => seq![target, "reset"@, "--quiet"@],
    }
}

/// The programmer's arguments for the board at USB bus `bus`, device `dev`.
pub fn dfu_programmer_args(bus: &str, dev: &str, command: DfuCommand) -> (r: Vec<String>)
    ensures
        r@.map_values(|s: String| s@) == dfu_args_spec(bus@, dev@, command),
{
    let t = joined("atmega32u4:", bus);
    let t = joined(t.as_str(), ",");
    let t = joined(t.as_str(), dev);
    let mut v: Vec<String> = Vec::new();
    v.push(t);
    match command {
        DfuCommand::Flash => {
            v.push(String::from_str("flash"));
            v.push(String::from_str("--quiet"));
            v.push(String::from_str("STDIN"));
        },
        DfuCommand::Reset => {
            v.push(String::from_str("reset"));
            v.push(String::from_str("--quiet"));
        },
    }
    assert(v@.map_values(|s: String| s@) =~= dfu_args_spec(bus@, dev@, command));
    v
}

impl ThelioIoNormal {
    /// The directory of the board's interface that holds its `revision` and
    /// `bootloader` files: `{path}/{name}:1.1`, where `name` is the last
    /// component of the device directory `path`.
    pub fn interface_dir(&self, name: &str) -> (r: String)
        ensures
            r@ == self.0@ + "/"@ + name@ + ":1.1"@,
    {
        let s = joined(self.0.as_str(), "/");
        let s = joined(s.as_str(), name);
        joined(s.as_str(), ":1.1")
    }
}

} // verus!
