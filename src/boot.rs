//! The one-shot boot entry that runs a staged update: which mount is the
//! boot partition, and the arguments of the boot configuration utility that
//! create, point BootNext at, and delete that entry.

use vstd::prelude::*;
use crate::text::{has_prefix, joined, same_text};

verus! {

/// A mounted file system: the device it comes from and where it is mounted.
pub struct Mount {
    pub source: String,
    pub dest: String,
}

/// Whether `c` separates the fields of a line of the kernel's mount table.
pub open spec fn is_blank(c: char) -> bool {
    c == ' ' || c == '\t'
}

/// The first index from `i` on that holds no blank, or the line's length.
pub open spec fn skip_blanks(s: Seq<char>, i: int) -> int
    decreases s.len() - i,
{
    if i < 0 || i >= s.len() {
        i
    } else if is_blank(s[i]) {
        skip_blanks(s, i + 1)
    } else {
        i
    }
}

/// The first index from `i` on that holds a blank, or the line's length.
pub open spec fn field_end(s: Seq<char>, i: int) -> int
    decreases s.len() - i,
{
    if i < 0 || i >= s.len() {
        i
    } else if !is_blank(s[i]) {
        field_end(s, i + 1)
    } else {
        i
    }
}

/// The first two fields of a line of the mount table, the device and the
/// mount point, or `None` where the line has fewer.
pub open spec fn mount_fields(s: Seq<char>) -> Option<(Seq<char>, Seq<char>)> {
    let a = skip_blanks(s, 0);
    let b = field_end(s, a);
    let c = skip_blanks(s, b);
    let d = field_end(s, c);
    if a < b && c < d {
        Some((s.subrange(a, b), s.subrange(c, d)))
    } else {
        None
    }
}

/// The index that `skip_blanks` (where `blank`) or `field_end` (where not)
/// gives from `i`.
fn scan(s: &str, i: usize, blank: bool) -> (r: usize)
    requires
        i <= s@.len(),
    ensures
        blank ==> r == skip_blanks(s@, i as int),
        !blank ==> r == field_end(s@, i as int),
        i <= r <= s@.len(),
{
    let n = s.unicode_len();
    let mut j = i;
    while j < n
        invariant
            n == s@.len(),
            i <= j <= n,
            blank ==> skip_blanks(s@, i as int) == skip_blanks(s@, j as int),
            !blank ==> field_end(s@, i as int) == field_end(s@, j as int),
        decreases n - j,
    {
        let c = s.get_char(j);
        if (c == ' ' || c == '\t') != blank {
            return j;
        }
        j += 1;
    }
    j
}

/// The device and mount point on a line of the kernel's mount table, whose
/// fields are separated by blanks; `None` where the line has fewer than two.
pub fn parse_mount_line(line: &str) -> (r: Option<Mount>)
    ensures
        match mount_fields(line@) {
            Some(p) => r matches Some(m) && m.source@ == p.0 && m.dest@ == p.1,
            None => r is None,
        },
{
    let a = scan(line, 0, true);
    let b = scan(line, a, false);
    let c = scan(line, b, true);
    let d = scan(line, c, false);
    if a < b && c < d {
        Some(Mount {
            source: String::from_str(line.substring_char(a, b)),
            dest: String::from_str(line.substring_char(c, d)),
        })
    } else {
        None
    }
}

/// Whether `m` is a device mounted at `efi_dir`.
pub open spec fn is_efi_mount(m: Mount, efi_dir: Seq<char>) -> bool {
    m.source@.len() > 0 && m.source@[0] == '/' && m.dest@ == efi_dir
}

/// The error where no device is mounted at `efi_dir`.
pub open spec fn no_mount_message(efi_dir: Seq<char>) -> Seq<char> {
    "failed to find mount: "@ + efi_dir
}

/// The index of the first device mounted at `efi_dir`, or an error that
/// names the directory.
pub fn find_efi_mount(mounts: &Vec<Mount>, efi_dir: &str) -> (r: Result<usize, String>)
    ensures
        r matches Ok(i) ==> i < mounts@.len() && is_efi_mount(mounts@[i as int], efi_dir@)
            && forall|j: int| 0 <= j < i ==> !is_efi_mount(#[trigger] mounts@[j], efi_dir@),
        r matches Err(e) ==> e@ == no_mount_message(efi_dir@)
            && forall|j: int| 0 <= j < mounts@.len() ==> !is_efi_mount(#[trigger] mounts@[j], efi_dir@),
{
    let mut i: usize = 0;
    while i < mounts.len()
        invariant
            0 <= i <= mounts@.len(),
            forall|j: int| 0 <= j < i ==> !is_efi_mount(#[trigger] mounts@[j], efi_dir@),
        decreases mounts@.len() - i,
    {
        let m = &mounts[i];
        let rooted = has_prefix(m.source.as_str(), "/");
        proof {
            reveal_strlit("/");
            if rooted {
                assert(m.source@.subrange(0, 1)[0] == m.source@[0]);
            } else if m.source@.len() > 0 && m.source@[0] == '/' {
                assert(m.source@.subrange(0, 1) =~= "/"@);
            }
        }
        if rooted && same_text(m.dest.as_str(), efi_dir) {
            return Ok(i);
        }
        i += 1;
    }
    Err(joined("failed to find mount: ", efi_dir))
}

/// The number of the boot entry that runs the updater.
pub open spec fn boot_num() -> Seq<char> {
    "1776"@
}

/// The updater's loader, on the boot partition.
pub open spec fn loader_path() -> Seq<char> {
    "\\system76-firmware-update\\boot.efi"@
}

/// The label of the boot entry, and the name of the staging directory.
pub open spec fn update_label() -> Seq<char> {
    "system76-firmware-update"@
}

/// The texts of a list of strings.
pub open spec fn texts(v: Seq<String>) -> Seq<Seq<char>> {
    v.map_values(|s: String| s@)
}

/// Appends `s` to `v`.
fn push_text(v: &mut Vec<String>, s: &str)
    ensures
        texts(final(v)@) == texts(old(v)@).push(s@),
{
    v.push(String::from_str(s));
    proof {
        assert(texts(final(v)@) =~= texts(old(v)@).push(s@));
    }
}

/// The arguments that create the boot entry on partition `part` of disk
/// `disk`; with `modify_order` the entry is also added to BootOrder.
pub open spec fn create_entry_spec(disk: Seq<char>, part: Seq<char>, modify_order: bool) -> Seq<Seq<char>> {
    seq![
        "--quiet"@,
        if modify_order { "--create"@ } else { "--create-only"@ },
        "--bootnum"@,
        boot_num(),
        "--disk"@,
        disk,
        "--part"@,
        part,
        "--loader"@,
        loader_path(),
        "--label"@,
        update_label(),
    ]
}

/// The arguments that create the boot entry on partition `part` of disk
/// `disk`; with `modify_order` the entry is also added to BootOrder.
pub fn create_entry_args(disk: &str, part: &str, modify_order: bool) -> (r: Vec<String>)
    ensures
        texts(r@) == create_entry_spec(disk@, part@, modify_order),
{
    let mut v: Vec<String> = Vec::new();
    push_text(&mut v, "--quiet");
    push_text(&mut v, if modify_order { "--create" } else { "--create-only" });
    push_text(&mut v, "--bootnum");
    push_text(&mut v, "1776");
    push_text(&mut v, "--disk");
    push_text(&mut v, disk);
    push_text(&mut v, "--part");
    push_text(&mut v, part);
    push_text(&mut v, "--loader");
    push_text(&mut v, "\\system76-firmware-update\\boot.efi");
    push_text(&mut v, "--label");
    push_text(&mut v, "system76-firmware-update");
    assert(texts(v@) =~= create_entry_spec(disk@, part@, modify_order));
    v
}

/// The arguments that point BootNext at the boot entry.
pub fn boot_next_args() -> (r: Vec<String>)
    ensures
        texts(r@) == seq!["--quiet"@, "--bootnext"@, boot_num()],
{
    let mut v: Vec<String> = Vec::new();
    push_text(&mut v, "--quiet");
    push_text(&mut v, "--bootnext");
    push_text(&mut v, "1776");
    assert(texts(v@) =~= seq!["--quiet"@, "--bootnext"@, boot_num()]);
    v
}

/// The arguments that clear BootNext.
pub fn clear_boot_next_args() -> (r: Vec<String>)
    ensures
        texts(r@) == seq!["--quiet"@, "--delete-bootnext"@],
{
    let mut v: Vec<String> = Vec::new();
    push_text(&mut v, "--quiet");
    push_text(&mut v, "--delete-bootnext");
    assert(texts(v@) =~= seq!["--quiet"@, "--delete-bootnext"@]);
    v
}

/// The arguments that delete the boot entry.
pub fn delete_entry_args() -> (r: Vec<String>)
    ensures
        texts(r@) == seq!["--quiet"@, "--delete-bootnum"@, "--bootnum"@, boot_num()],
{
    let mut v: Vec<String> = Vec::new();
    push_text(&mut v, "--quiet");
    push_text(&mut v, "--delete-bootnum");
    push_text(&mut v, "--bootnum");
    push_text(&mut v, "1776");
    assert(texts(v@) =~= seq!["--quiet"@, "--delete-bootnum"@, "--bootnum"@, boot_num()]);
    v
}

} // verus!
