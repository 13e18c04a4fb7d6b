use system76_firmware::cache::{accept_fetched, object_step, ObjectStep};
use system76_firmware::digest::content_digest;
use system76_firmware::manifest::{bundle_digest, bundle_digests, parse_manifest, thelio_io_digests};

const BYTES: &[u8] = b"firmware bytes";
const BYTES_DIGEST: &str = "2TLO3CIGDWMCPLJKTGFNOHDUZ565CQ3KX3G3LN4K4E4LVVB3UJ62NO6S3HBPQKLW2XX2FG7GZTNTS";

#[test]
fn content_digest_is_base32_sha384() {
    assert_eq!(content_digest(BYTES), Ok(BYTES_DIGEST.to_string()));
    assert_eq!(
        content_digest(b""),
        Ok("HCYGBJ2RVSLDQTGZGJ7LDMPDNIQ73NYRCS7AOQ2MBTD36Y7W4HNCOTW6X7TW6ZP32UNNF4KITC4VW".to_string())
    );
}

#[test]
fn cached_bytes_matching_digest_are_served() {
    for can_fetch in [true, false] {
        match object_step(BYTES_DIGEST, Some(BYTES.to_vec()), can_fetch) {
            Ok(ObjectStep::Serve(b)) => assert_eq!(b, BYTES.to_vec()),
            _ => panic!("expected the cached bytes"),
        }
    }
}

#[test]
fn corrupt_cache_file_is_discarded_and_fetched() {
    match object_step(BYTES_DIGEST, Some(b"tampered".to_vec()), true) {
        Ok(ObjectStep::Fetch { discard }) => assert!(discard),
        _ => panic!("expected a fetch"),
    }
}

#[test]
fn corrupt_cache_file_without_fetcher_fails() {
    match object_step(BYTES_DIGEST, Some(b"tampered".to_vec()), false) {
        Ok(ObjectStep::Fail { discard, message }) => {
            assert!(discard);
            assert_eq!(message, format!("could not find digest in cache: {}", BYTES_DIGEST));
        }
        _ => panic!("expected a failure"),
    }
}

#[test]
fn missing_cache_file_is_fetched_or_fails() {
    match object_step(BYTES_DIGEST, None, true) {
        Ok(ObjectStep::Fetch { discard }) => assert!(!discard),
        _ => panic!("expected a fetch"),
    }
    match object_step("D", None, false) {
        Ok(ObjectStep::Fail { discard, message }) => {
            assert!(!discard);
            assert_eq!(message, "could not find digest in cache: D");
        }
        _ => panic!("expected a failure"),
    }
}

#[test]
fn fetched_bytes_are_checked() {
    assert_eq!(accept_fetched(BYTES_DIGEST, BYTES.to_vec()), Ok(BYTES.to_vec()));
    assert_eq!(accept_fetched(BYTES_DIGEST, b"other".to_vec()), Err("sha384 mismatch".to_string()));
}

fn manifest(files: &str) -> buildchain::Manifest {
    parse_manifest(format!("{{\"time\": 7, \"files\": {{{}}}}}", files).as_bytes()).unwrap()
}

#[test]
fn manifest_lookup() {
    let m = manifest("\"a.tar.xz\": \"DA\", \"b\": \"DB\"");
    assert_eq!(bundle_digest(&m, "a.tar.xz"), Ok("DA".to_string()));
    assert_eq!(bundle_digest(&m, "c"), Err("c not found".to_string()));
}

#[test]
fn manifest_that_does_not_parse() {
    assert!(parse_manifest(b"not json").is_err());
    assert!(parse_manifest(b"{\"files\": {}}").is_err());
}

#[test]
fn bundle_digests_need_both_bundles() {
    let both = manifest("\"system76-firmware-update.tar.xz\": \"U\", \"darp6_h.tar.xz\": \"F\"");
    assert_eq!(bundle_digests(&both, "darp6_h"), Ok(("U".to_string(), "F".to_string())));
    assert_eq!(bundle_digests(&both, "galp5_h"), Err("galp5_h.tar.xz not found".to_string()));
    let firmware_only = manifest("\"darp6_h.tar.xz\": \"F\"");
    assert_eq!(
        bundle_digests(&firmware_only, "darp6_h"),
        Err("system76-firmware-update.tar.xz not found".to_string())
    );
}

#[test]
fn thelio_io_manifest_files() {
    let m = manifest("\"metadata.json\": \"M\", \"main.hex\": \"H\"");
    assert_eq!(thelio_io_digests(&m), Ok(("M".to_string(), "H".to_string())));
    let m = manifest("\"main.hex\": \"H\"");
    assert_eq!(thelio_io_digests(&m), Err("metadata.json not found".to_string()));
    let m = manifest("\"metadata.json\": \"M\"");
    assert_eq!(thelio_io_digests(&m), Err("main.hex not found".to_string()));
}
