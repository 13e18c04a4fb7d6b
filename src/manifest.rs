//! Manifests of the distribution store: which digest each file name has.

use vstd::prelude::*;
use buildchain::Manifest;
use crate::text::joined;

verus! {

#[verifier::external_type_specification]
#[verifier::external_body]
pub struct ExManifest(buildchain::Manifest);

/// The file names of a manifest, each with its digest.
pub uninterp spec fn manifest_files(m: Manifest) -> Map<Seq<char>, Seq<char>>;

/// The file names and digests of the manifest that `json` holds, or `None`
/// where it holds none.
pub uninterp spec fn parsed_files(json: Seq<u8>) -> Option<Map<Seq<char>, Seq<char>>>;

/// Relies on `serde_json::from_slice` for `buildchain::Manifest`: whether it
/// parses, and the files it lists, depend on the bytes alone.
#[verifier::external_body]
pub fn parse_manifest(json: &[u8]) -> (r: Result<Manifest, String>)
    ensures
        r is Ok <==> parsed_files(json@) is Some,
        r matches Ok(m) ==> parsed_files(json@) == Some(manifest_files(m)),
{
    serde_json::from_slice::<Manifest>(json).map_err(|e| e.to_string())
}

/// Relies on `BTreeMap::get` on `Manifest::files`: the digest under `name`.
#[verifier::external_body]
fn manifest_get(m: &Manifest, name: &str) -> (r: Option<String>)
    ensures
        r is Some <==> manifest_files(*m).contains_key(name@),
        r matches Some(d) ==> d@ == manifest_files(*m)[name@],
{
    m.files.get(name).cloned()
}

/// The error for a file that a manifest does not list.
pub open spec fn not_found_message(file_name: Seq<char>) -> Seq<char> {
    file_name + " not found"@
}

/// What a lookup of `file_name` in a manifest with files `files` returns.
pub open spec fn lookup_result(files: Map<Seq<char>, Seq<char>>, file_name: Seq<char>, r: Result<String, String>) -> bool {
    if files.contains_key(file_name) {
        r matches Ok(d) && d@ == files[file_name]
    } else {
        r matches Err(e) && e@ == not_found_message(file_name)
    }
}

/// The digest of `file_name` in `manifest`, or an error that names the file.
pub fn bundle_digest(manifest: &Manifest, file_name: &str) -> (r: Result<String, String>)
    ensures
        lookup_result(manifest_files(*manifest), file_name@, r),
{
    match manifest_get(manifest, file_name) {
        Some(d) => Ok(d),
        None => Err(joined(file_name, " not found")),
    }
}

/// The name of the bundle that holds the firmware updater.
pub open spec fn updater_file() -> Seq<char> {
    "system76-firmware-update.tar.xz"@
}

/// The name of the updater bundle, as a new string.
pub fn updater_file_name() -> (r: String)
    ensures
        r@ == updater_file(),
{
    String::from_str("system76-firmware-update.tar.xz")
}

/// The name of the bundle that holds the firmware for `firmware_id`.
pub open spec fn firmware_file(firmware_id: Seq<char>) -> Seq<char> {
    firmware_id + ".tar.xz"@
}

/// The name of the bundle that holds the firmware for `firmware_id`.
pub fn firmware_file_name(firmware_id: &str) -> (r: String)
    ensures
        r@ == firmware_file(firmware_id@),
{
    joined(firmware_id, ".tar.xz")
}

/// What `bundle_digests` returns for files `files`: both digests, or the
/// error for the first of the two bundles that is missing, the updater's
/// first.
pub open spec fn bundle_digests_result(
    files: Map<Seq<char>, Seq<char>>,
    firmware_id: Seq<char>,
    r: Result<(String, String), String>,
) -> bool {
    if !files.contains_key(updater_file()) {
        r matches Err(e) && e@ == not_found_message(updater_file())
    } else if !files.contains_key(firmware_file(firmware_id)) {
        r matches Err(e) && e@ == not_found_message(firmware_file(firmware_id))
    } else {
        r matches Ok(p) && p.0@ == files[updater_file()] && p.1@ == files[firmware_file(firmware_id)]
    }
}

/// The digests of the updater bundle and of the firmware bundle for
/// `firmware_id`. Both must be listed, since scheduling needs both.
pub fn bundle_digests(manifest: &Manifest, firmware_id: &str) -> (r: Result<(String, String), String>)
    ensures
        bundle_digests_result(manifest_files(*manifest), firmware_id@, r),
{
    let updater = updater_file_name();
    let updater_digest = bundle_digest(manifest, updater.as_str())?;
    let firmware = firmware_file_name(firmware_id);
    let firmware_digest = bundle_digest(manifest, firmware.as_str())?;
    Ok((updater_digest, firmware_digest))
}

/// The name of the metadata file of the Thelio I/O firmware.
pub open spec fn thelio_io_metadata_file() -> Seq<char> {
    "metadata.json"@
}

/// The name of the Thelio I/O firmware image.
pub open spec fn thelio_io_image_file() -> Seq<char> {
    "main.hex"@
}

/// The digests of the Thelio I/O metadata and firmware image, the metadata's
/// error first where a file is missing.
pub fn thelio_io_digests(manifest: &Manifest) -> (r: Result<(String, String), String>)
    ensures
        ({
            let files = manifest_files(*manifest);
            if !files.contains_key(thelio_io_metadata_file()) {
                r matches Err(e) && e@ == not_found_message(thelio_io_metadata_file())
            } else if !files.contains_key(thelio_io_image_file()) {
                r matches Err(e) && e@ == not_found_message(thelio_io_image_file())
            } else {
                r matches Ok(p) && p.0@ == files[thelio_io_metadata_file()]
                    && p.1@ == files[thelio_io_image_file()]
            }
        }),
{
    let metadata = bundle_digest(manifest, "metadata.json")?;
    let image = bundle_digest(manifest, "main.hex")?;
    Ok((metadata, image))
}

} // verus!
