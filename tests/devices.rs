use system76_firmware::text::{contains_text, has_prefix, same_text};
use system76_firmware::probe::in_whitelist;
use system76_firmware::probe::{variant_from_pads, variant_pins};
use system76_firmware::thelio_io::{check_file, dfu_programmer_args, switch_to_bootloader, DfuCommand};
use system76_firmware::{
    bios, ec_or_none, model_is_whitelisted, thelio_io_list, Sideband, ThelioIo, ThelioIoBootloader, ThelioIoNormal,
};

fn some(s: &str) -> Option<String> {
    Some(s.to_string())
}

#[test]
fn check_file_compares_contents() {
    assert!(check_file(&some("System76"), "System76"));
    assert!(!check_file(&some("System7"), "System76"));
    assert!(!check_file(&None, "System76"));
}

#[test]
fn thelio_io_recognition() {
    let normal = ThelioIo::new("/sys/bus/usb/devices/1-2", &some("System76"), &some("Io"), &some("1776"));
    assert!(matches!(normal, Some(ThelioIo::Normal(_))));
    assert_eq!(normal.unwrap().path(), "/sys/bus/usb/devices/1-2");
    let boot = ThelioIo::new("/d", &some("System76"), &some("Io"), &some("2ff4"));
    assert!(matches!(boot, Some(ThelioIo::Bootloader(_))));
    assert!(ThelioIo::new("/d", &some("System76"), &some("Io"), &None).is_some());
    assert!(ThelioIo::new("/d", &some("Other"), &some("Io"), &some("1776")).is_none());
    assert!(ThelioIo::new("/d", &some("System76"), &None, &some("1776")).is_none());
}

#[test]
fn thelio_io_list_reports_revisions() {
    let devices = vec![
        ThelioIo::Normal(ThelioIoNormal("/a".to_string())),
        ThelioIo::Bootloader(ThelioIoBootloader("/b".to_string())),
        ThelioIo::Normal(ThelioIoNormal("/c".to_string())),
    ];
    let list = thelio_io_list(&devices, &vec![some("0.3.0"), some("ignored"), None]);
    assert_eq!(
        list,
        vec![
            ("/a".to_string(), "0.3.0".to_string()),
            ("/b".to_string(), String::new()),
            ("/c".to_string(), String::new()),
        ]
    );
}

#[test]
fn only_outdated_running_boards_switch() {
    let normal = ThelioIo::Normal(ThelioIoNormal("/a".to_string()));
    let boot = ThelioIo::Bootloader(ThelioIoBootloader("/b".to_string()));
    assert!(switch_to_bootloader(&normal, &some("0.2.0"), "0.3.0"));
    assert!(!switch_to_bootloader(&normal, &some("0.3.0"), "0.3.0"));
    assert!(switch_to_bootloader(&normal, &None, "0.3.0"));
    assert!(!switch_to_bootloader(&boot, &some("0.2.0"), "0.3.0"));
}

#[test]
fn programmer_arguments() {
    assert_eq!(dfu_programmer_args("3", "12", DfuCommand::Reset), vec!["atmega32u4:3,12", "reset", "--quiet"]);
    assert_eq!(
        dfu_programmer_args("1", "4", DfuCommand::Flash),
        vec!["atmega32u4:1,4", "flash", "--quiet", "STDIN"]
    );
}

#[test]
fn interface_directory() {
    let n = ThelioIoNormal("/sys/bus/usb/devices/1-2".to_string());
    assert_eq!(n.interface_dir("1-2"), "/sys/bus/usb/devices/1-2/1-2:1.1");
}

#[test]
fn bios_results() {
    assert_eq!(
        bios(Ok("darp6".to_string()), Ok("1.0".to_string())),
        Ok(("darp6".to_string(), "1.0".to_string()))
    );
    assert_eq!(
        bios(Err("denied".to_string()), Err("x".to_string())),
        Err("failed to read BIOS model: denied".to_string())
    );
    assert_eq!(
        bios(Ok("darp6".to_string()), Err("gone".to_string())),
        Err("failed to read BIOS version: gone".to_string())
    );
}

#[test]
fn ec_probe_failure_reads_as_none() {
    assert_eq!(ec_or_none(Err("no EC".to_string())), ("none".to_string(), String::new()));
    assert_eq!(
        ec_or_none(Ok(("76ec".to_string(), "2021-01-01".to_string()))),
        ("76ec".to_string(), "2021-01-01".to_string())
    );
}

#[test]
fn board_variant_from_straps() {
    assert_eq!(variant_pins("gaze15"), vec![(0x6D, 0x60), (0x6D, 0x62)]);
    assert!(variant_pins("darp6").is_empty());
    assert_eq!(variant_from_pads(&vec![]), 0);
    assert_eq!(variant_from_pads(&vec![0x2, 0x0]), 1);
    assert_eq!(variant_from_pads(&vec![0x0, 0x2]), 2);
    assert_eq!(variant_from_pads(&vec![0xFFFF_FFFF_0000_0002, 0x3]), 3);
    assert_eq!(variant_from_pads(&vec![0x1, 0x4]), 0);
    assert_eq!(variant_from_pads(&vec![2; 8]), 255);
}

#[test]
fn sideband_offsets() {
    assert_eq!(Sideband::offset(0x6D, 0xC), Some(0x6D_000C));
    assert_eq!(Sideband::offset(0xFF, 0xFFFF), Some(0xFF_FFFF));
    assert_eq!(Sideband::offset(0xFF, 0x1_0000), None);
    assert_eq!(Sideband::pad_config(0x2, 0x1), 0x1_0000_0002);
}

#[test]
fn whitelisted_models() {
    assert!(model_is_whitelisted("darp6"));
    assert!(model_is_whitelisted("addw1"));
    assert!(model_is_whitelisted("thelio-r2"));
    assert!(model_is_whitelisted("thelio-major-r2.1"));
    assert!(!model_is_whitelisted("darp"));
    assert!(!model_is_whitelisted(""));
    assert!(!model_is_whitelisted("pang12"));
}

#[test]
fn service_gate() {
    assert!(in_whitelist(&some("System76"), &some("darp6")));
    assert!(in_whitelist(&some("System76, Inc."), &some("galp5")));
    assert!(!in_whitelist(&some("Other"), &some("darp6")));
    assert!(!in_whitelist(&some("System76"), &some("unknown")));
    assert!(!in_whitelist(&None, &some("darp6")));
    assert!(!in_whitelist(&some("System76"), &None));
}

#[test]
fn text_search() {
    assert!(contains_text("abcSystem76", "System76"));
    assert!(contains_text("abc", ""));
    assert!(!contains_text("Sys", "System76"));
    assert!(!contains_text("system76", "System76"));
    assert!(has_prefix("thelio-mira-r1_x", "thelio-mira-r1_"));
    assert!(!has_prefix("thelio", "thelio-mira"));
    assert!(same_text("76ec", "76ec"));
    assert!(!same_text("76ec", "76ed"));
}
