//! What the hardware probes report, turned into the values that the rest
//! of the library works with.

use vstd::prelude::*;
use crate::text::{contains_spec, contains_text, joined, same_text};

verus! {

/// What the BIOS probe returns, given what the model and version files held
/// (trimmed), or the error of the first that could not be read.
pub fn bios(model: Result<String, String>, version: Result<String, String>) -> (r: Result<(String, String), String>)
    ensures
        model matches Err(e) ==> (r matches Err(m) && m@ == "failed to read BIOS model: "@ + e@),
        model matches Ok(mo) ==> match version {
            Err(e) => r matches Err(m) && m@ == "failed to read BIOS version: "@ + e@,
            Ok(v) => r matches Ok(p) && p.0@ == mo@ && p.1@ == v@,
        },
{
    let bios_model = match model {
        Ok(ok) => ok,
        Err(err) => {
            return Err(joined("failed to read BIOS model: ", err.as_str()));
        },
    };
    let bios_version = match version {
        Ok(ok) => ok,
        Err(err) => {
            return Err(joined("failed to read BIOS version: ", err.as_str()));
        },
    };
    Ok((bios_model, bios_version))
}

/// The embedded controller's project and version, or the project `"none"`
/// with an empty version where the probe failed.
pub fn ec_or_none(ec: Result<(String, String), String>) -> (r: (String, String))
    ensures
        ec matches Ok(p) ==> r == p,
        ec is Err ==> r.0@ == "none"@ && r.1@ == Seq::<char>::empty(),
{
    match ec {
        Ok(ok) => ok,
        Err(_err) => (String::from_str("none"), String::new()),
    }
}

/// The sideband port and pad of each board-strap pin that tells the board
/// variants of `model` apart, lowest bit first.
pub open spec fn variant_pins_spec(model: Seq<char>) -> Seq<(u8, u8)> {
    if model == "gaze15"@ {
        // BOARD_ID1 = GPP_G0, BOARD_ID2 = GPP_G1
        seq![(0x6Du8, 0x60u8), (0x6Du8, 0x62u8)]
    } else {
        Seq::empty()
    }
}

/// The sideband port and pad of each board-strap pin of `model`, lowest bit
/// first; none for models with a single board variant.
pub fn variant_pins(model: &str) -> (r: Vec<(u8, u8)>)
    ensures
        r@ == variant_pins_spec(model@),
{
    let mut v: Vec<(u8, u8)> = Vec::new();
    if same_text(model, "gaze15") {
        v.push((0x6D, 0x60));
        v.push((0x6D, 0x62));
    }
    assert(v@ =~= variant_pins_spec(model@));
    v
}

/// Whether a pad's configuration reads the pin as high (its input bit).
pub open spec fn pad_is_high(config: u64) -> bool {
    config & 2 != 0
}

/// The weight of bit `i`.
pub open spec fn bit_weight(i: nat) -> nat
    decreases i,
{
    if i == 0 { 1 } else { 2 * bit_weight((i - 1) as nat) }
}

/// The board variant that pads configured as `pads` give: bit `i` is set
/// where pin `i` reads high.
pub open spec fn variant_of(pads: Seq<u64>) -> nat
    decreases pads.len(),
{
    if pads.len() == 0 {
        0
    } else {
        variant_of(pads.drop_last()) + if pad_is_high(pads.last()) { bit_weight((pads.len() - 1) as nat) } else { 0 }
    }
}

/// Bit weights grow with the bit's index.
proof fn lemma_bit_weight_monotonic(i: nat, j: nat)
    requires
        i <= j,
    ensures
        bit_weight(i) <= bit_weight(j),
    decreases j,
{
    if i < j {
        lemma_bit_weight_monotonic(i, (j - 1) as nat);
    }
}

/// The board variant that pads configured as `pads` give, bit `i` from pad
/// `i`; at most eight pins fit in a variant.
pub fn variant_from_pads(pads: &Vec<u64>) -> (r: u8)
    requires
        pads@.len() <= 8,
    ensures
        r as nat == variant_of(pads@),
{
    proof {
        reveal_with_fuel(bit_weight, 9);
    }
    let mut variant: u32 = 0;
    let mut bit: u32 = 1;
    let mut i: usize = 0;
    while i < pads.len()
        invariant
            0 <= i <= pads@.len() <= 8,
            bit as nat == bit_weight(i as nat),
            variant as nat == variant_of(pads@.subrange(0, i as int)),
            variant < bit,
            bit <= 256,
        decreases pads@.len() - i,
    {
        let ghost before = pads@.subrange(0, i as int);
        assert(pads@.subrange(0, i as int + 1).drop_last() =~= before);
        proof {
            reveal_with_fuel(bit_weight, 8);
            assert(bit_weight(7) == 128);
            lemma_bit_weight_monotonic(i as nat, 7);
        }
        if pads[i] & 2 != 0 {
            variant = variant + bit;
        }
        bit = bit * 2;
        i += 1;
    }
    assert(pads@.subrange(0, i as int) =~= pads@);
    variant as u8
}

/// The distance between two ports in a sideband address.
pub const P2SB_PORT_STRIDE: u64 = 0x10000;

/// The size of the mapped sideband window.
pub const SIDEBAND_WINDOW: u64 = 0x100_0000;

/// A mapping of the primary-to-sideband bridge's register window.
pub struct Sideband {
    pub addr: u64,
}

impl Sideband {
    /// The offset of register `reg` of port `port` in the window, or `None`
    /// where it lies outside.
    pub fn offset(port: u8, reg: u32) -> (r: Option<u64>)
        ensures
            port as nat * 0x10000 + (reg as nat) < SIDEBAND_WINDOW ==> r == Some((port as nat * 0x10000 + reg as nat) as u64),
            port as nat * 0x10000 + (reg as nat) >= SIDEBAND_WINDOW ==> r is None,
    {
        let offset = (port as u64) * P2SB_PORT_STRIDE + reg as u64;
        if offset < SIDEBAND_WINDOW {
            Some(offset)
        } else {
            None
        }
    }

    /// A pad's configuration from its two configuration words.
    pub fn pad_config(dw0: u32, dw1: u32) -> (r: u64)
        ensures
            r as nat == dw0 as nat + dw1 as nat * 0x1_0000_0000,
    {
        let r = (dw0 as u64) | ((dw1 as u64) << 32u64);
        assert(((dw0 as u64) | ((dw1 as u64) << 32u64)) == (dw0 as u64) + (dw1 as u64) * 0x1_0000_0000) by (bit_vector)
            requires dw0 as u64 <= 0xffff_ffff, dw1 as u64 <= 0xffff_ffff;
        r
    }
}

/// The models that the firmware service accepts requests for.
pub open spec fn model_whitelist() -> Seq<Seq<char>> {
    seq![
        "addw1"@,
        "addw2"@,
        "bonw11"@,
        "bonw12"@,
        "bonw13"@,
        "bonw14"@,
        "darp5"@,
        "darp6"@,
        "darp7"@,
        "galp2"@,
        "galp3"@,
        "galp3-b"@,
        "galp3-c"@,
        "galp4"@,
        "galp5"@,
        "gaze10"@,
        "gaze11"@,
        "gaze12"@,
        "gaze13"@,
        "gaze14"@,
        "gaze15"@,
        "gaze16-3050"@,
        "gaze16-3060"@,
        "kudu2"@,
        "kudu3"@,
        "kudu4"@,
        "kudu5"@,
        "lemu6"@,
        "lemu7"@,
        "lemu8"@,
        "lemp9"@,
        "lemp10"@,
        "meer4"@,
        "meer5"@,
        "meer6"@,
        "orxp1"@,
        "oryp2"@,
        "oryp2-ess"@,
        "oryp3"@,
        "oryp3-b"@,
        "oryp3-ess"@,
        "oryp4"@,
        "oryp4-b"@,
        "oryp5"@,
        "oryp6"@,
        "oryp7"@,
        "pang10"@,
        "pang11"@,
        "serw9"@,
        "serw10"@,
        "serw11"@,
        "serw11-b"@,
        "serw12"@,
        "thelio-b1"@,
        "thelio-b2"@,
        "thelio-major-b1"@,
        "thelio-major-b1.1"@,
        "thelio-major-b2"@,
        "thelio-major-b3"@,
        "thelio-major-r1"@,
        "thelio-major-r2"@,
        "thelio-major-r2.1"@,
        "thelio-mega-b1"@,
        "thelio-mega-r1"@,
        "thelio-mega-r1.1"@,
        "thelio-mira-b1"@,
        "thelio-mira-r1"@,
        "thelio-r1"@,
        "thelio-r2"@,
    ]
}

/// The models that the firmware service accepts requests for.
fn whitelist() -> (r: Vec<&'static str>)
    ensures
        r@.map_values(|s: &str| s@) == model_whitelist(),
{
    let mut v: Vec<&'static str> = Vec::new();
    v.push("addw1");
    v.push("addw2");
    v.push("bonw11");
    v.push("bonw12");
    v.push("bonw13");
    v.push("bonw14");
    v.push("darp5");
    v.push("darp6");
    v.push("darp7");
    v.push("galp2");
    v.push("galp3");
    v.push("galp3-b");
    v.push("galp3-c");
    v.push("galp4");
    v.push("galp5");
    v.push("gaze10");
    v.push("gaze11");
    v.push("gaze12");
    v.push("gaze13");
    v.push("gaze14");
    v.push("gaze15");
    v.push("gaze16-3050");
    v.push("gaze16-3060");
    v.push("kudu2");
    v.push("kudu3");
    v.push("kudu4");
    v.push("kudu5");
    v.push("lemu6");
    v.push("lemu7");
    v.push("lemu8");
    v.push("lemp9");
    v.push("lemp10");
    v.push("meer4");
    v.push("meer5");
    v.push("meer6");
    v.push("orxp1");
    v.push("oryp2");
    v.push("oryp2-ess");
    v.push("oryp3");
    v.push("oryp3-b");
    v.push("oryp3-ess");
    v.push("oryp4");
    v.push("oryp4-b");
    v.push("oryp5");
    v.push("oryp6");
    v.push("oryp7");
    v.push("pang10");
    v.push("pang11");
    v.push("serw9");
    v.push("serw10");
    v.push("serw11");
    v.push("serw11-b");
    v.push("serw12");
    v.push("thelio-b1");
    v.push("thelio-b2");
    v.push("thelio-major-b1");
    v.push("thelio-major-b1.1");
    v.push("thelio-major-b2");
    v.push("thelio-major-b3");
    v.push("thelio-major-r1");
    v.push("thelio-major-r2");
    v.push("thelio-major-r2.1");
    v.push("thelio-mega-b1");
    v.push("thelio-mega-r1");
    v.push("thelio-mega-r1.1");
    v.push("thelio-mira-b1");
    v.push("thelio-mira-r1");
    v.push("thelio-r1");
    v.push("thelio-r2");
    assert(v@.map_values(|s: &str| s@) =~= model_whitelist());
    v
}

/// Whether requests are accepted for the model `model`.
pub fn model_is_whitelisted(model: &str) -> (r: bool)
    ensures
        r == model_whitelist().contains(model@),
{
    let list = whitelist();
    let ghost names = list@.map_values(|s: &str| s@);
    let mut i: usize = 0;
    while i < list.len()
        invariant
            0 <= i <= list@.len(),
            names == list@.map_values(|s: &str| s@),
            names == model_whitelist(),
            forall|j: int| 0 <= j < i ==> names[j] != model@,
        decreases list@.len() - i,
    {
        if same_text(model, list[i]) {
            assert(names[i as int] == model@);
            return true;
        }
        i += 1;
    }
    false
}

/// Whether the firmware service serves requests on a machine whose system
/// vendor and model read as `vendor` and `model` (`None` where they could
/// not be read): the vendor names System76 and the model is accepted.
pub open spec fn service_allowed(vendor: Option<String>, model: Option<String>) -> bool {
    (vendor matches Some(v) && contains_spec(v@, "System76"@))
        && (model matches Some(m) && model_whitelist().contains(m@))
}

/// Whether the firmware service serves requests on a machine whose system
/// vendor and model read as `vendor` and `model`.
pub fn in_whitelist(vendor: &Option<String>, model: &Option<String>) -> (r: bool)
    ensures
        r == service_allowed(*vendor, *model),
{
    let vendor_ok = match vendor {
        Some(v) => contains_text(v.as_str(), "System76"),
        None => false,
    };
    let model_ok = match model {
        Some(m) => model_is_whitelisted(m.as_str()),
        None => false,
    };
    vendor_ok && model_ok
}

} // verus!
