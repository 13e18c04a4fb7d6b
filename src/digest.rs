//! Content hashes, and the firmware identity built from one.

use vstd::prelude::*;
use sha2::Digest as _;
use vstd::utf8::encode_utf8;
use crate::text::joined;
use crate::transition::{resolve, rules_view, default_rules, transitions, unsupported_message, TransitionKind, Transition};

verus! {

/// The SHA-256 digest of `data`, as 64 lower-case hex digits.
pub uninterp spec fn sha256_hex(data: Seq<u8>) -> Seq<char>;

/// The SHA-384 digest of `data`, in unpadded RFC 4648 base32: the form in
/// which the distribution store names its objects.
pub uninterp spec fn sha384_base32(data: Seq<u8>) -> Seq<char>;

/// Relies on `sha2::Sha256::digest`, printed with `{:x}`: the 32-byte
/// digest of `input`, two lower-case hex digits per byte.
#[verifier::external_body]
pub fn sha256(input: &[u8]) -> (r: String)
    ensures
        r@ == sha256_hex(input@),
        r@.len() == 64,
{
    format!("{:x}", sha2::Sha256::digest(input))
}

/// Relies on `buildchain::Sha384::new` and `Sha384::to_base32`: the digest
/// of `data` in the store's base32 form. `Sha384::new` fails only where
/// reading its input fails, and reading a byte slice does not fail.
#[verifier::external_body]
pub fn content_digest(data: &[u8]) -> (r: Result<String, String>)
    ensures
        r is Ok,
        r matches Ok(s) ==> s@ == sha384_base32(data@),
{
    buildchain::Sha384::new(data).map(|s| s.to_base32()).map_err(|e| e.to_string())
}

/// The identity under which firmware for `model` with embedded controller
/// project `project` is distributed: the model, `_`, and the SHA-256 of the
/// project name in hex.
pub open spec fn firmware_id_of(model: Seq<char>, project: Seq<char>) -> Seq<char> {
    model + seq!['_'] + sha256_hex(encode_utf8(project))
}

/// The identity under which firmware for `model` with embedded controller
/// project `project` is distributed.
pub fn generate_firmware_id(model: &str, project: &str) -> (r: String)
    ensures
        r@ == firmware_id_of(model@, project@),
        r@.len() == model@.len() + 65,
{
    let project_hash = sha256(project.as_bytes());
    let s = joined(model, "_");
    proof {
        reveal_strlit("_");
        assert("_"@ =~= seq!['_']);
    }
    joined(s.as_str(), project_hash.as_str())
}

/// What `firmware_id` returns under `rules`: the identity of the target
/// project, or the message for an unsupported model.
pub open spec fn firmware_id_result(
    kind: TransitionKind,
    rules: Seq<crate::transition::TransitionView>,
    model: Seq<char>,
    variant: u8,
    project: Seq<char>,
    r: Result<String, String>,
) -> bool {
    match resolve(kind, rules, model, variant, project) {
        Some(target) => r matches Ok(id) && id@ == firmware_id_of(model, target),
        None => r matches Err(e) && e@ == unsupported_message(kind, model),
    }
}

/// The firmware identity of a machine of model `model`, board variant
/// `variant`, whose primary embedded controller reports `ec_project`, for
/// the kind of firmware `transition_kind`, under the rules that ship with
/// this library.
pub fn firmware_id(transition_kind: TransitionKind, model: &str, variant: u8, ec_project: &str) -> (r: Result<String, String>)
    ensures
        firmware_id_result(transition_kind, default_rules(), model@, variant, ec_project@, r),
{
    let rules = transitions();
    firmware_id_with(transition_kind, &rules, model, variant, ec_project)
}

/// The firmware identity as `firmware_id` gives it, under the rules `rules`.
pub fn firmware_id_with(
    transition_kind: TransitionKind,
    rules: &Vec<Transition>,
    model: &str,
    variant: u8,
    ec_project: &str,
) -> (r: Result<String, String>)
    ensures
        firmware_id_result(transition_kind, rules_view(rules@), model@, variant, ec_project@, r),
{
    let (transition_model, transition_ec) = transition_kind.transition_with(rules, model, variant, ec_project)?;
    Ok(generate_firmware_id(transition_model.as_str(), transition_ec.as_str()))
}

} // verus!
