use system76_firmware::boot::parse_mount_line;
use system76_firmware::boot::{
    boot_next_args, clear_boot_next_args, create_entry_args, delete_entry_args, find_efi_mount, Mount,
};
use system76_firmware::schedule::{schedule_firmware_id, Phase, RunKind, UpdateRun};
use system76_firmware::{schedule, unschedule, TransitionKind};

/// Drives `run`, answering each step as `outcome` says, and returns the
/// steps taken with the run's result.
fn drive(mut run: UpdateRun, outcome: impl Fn(Phase) -> Result<(), String>) -> (Vec<Phase>, Result<(), String>) {
    let mut steps = Vec::new();
    while run.action() != Phase::Done {
        let phase = run.action();
        steps.push(phase);
        run.advance(outcome(phase));
    }
    (steps, run.result().unwrap())
}

#[test]
fn schedule_runs_every_step() {
    let run = schedule_firmware_id("darp6_h");
    assert_eq!(run.updater_file, "system76-firmware-update.tar.xz");
    assert_eq!(run.firmware_file, "darp6_h.tar.xz");
    assert!(!run.modify_order);
    let (steps, result) = drive(run, |_| Ok(()));
    assert_eq!(
        steps,
        vec![
            Phase::RequireUefi,
            Phase::Disarm,
            Phase::RemoveStaged,
            Phase::CreateTemp,
            Phase::ExtractUpdater,
            Phase::ExtractFirmware,
            Phase::MoveIntoPlace,
            Phase::Arm,
        ]
    );
    assert_eq!(result, Ok(()));
}

#[test]
fn thelio_mira_needs_boot_order() {
    assert!(schedule_firmware_id("thelio-mira-r1_abc").modify_order);
    assert!(!schedule_firmware_id("thelio-mira-r1").modify_order);
}

#[test]
fn failed_firmware_extraction_stages_nothing() {
    let (steps, result) = drive(schedule_firmware_id("darp6_h"), |p| {
        if p == Phase::ExtractFirmware { Err("failed to extract".to_string()) } else { Ok(()) }
    });
    assert_eq!(
        steps,
        vec![
            Phase::RequireUefi,
            Phase::Disarm,
            Phase::RemoveStaged,
            Phase::CreateTemp,
            Phase::ExtractUpdater,
            Phase::ExtractFirmware,
            Phase::RemoveTemp,
        ]
    );
    assert!(!steps.contains(&Phase::MoveIntoPlace));
    assert_eq!(result, Err("failed to extract".to_string()));
    let (_, again) = drive(schedule_firmware_id("darp6_h"), |_| Ok(()));
    assert_eq!(again, Ok(()));
}

#[test]
fn failed_rename_removes_temp_and_keeps_first_error() {
    let (steps, result) = drive(schedule_firmware_id("darp6_h"), |p| match p {
        Phase::MoveIntoPlace => Err("failed to move".to_string()),
        Phase::RemoveTemp => Err("cleanup failed".to_string()),
        _ => Ok(()),
    });
    assert_eq!(steps.last(), Some(&Phase::RemoveTemp));
    assert!(!steps.contains(&Phase::Arm));
    assert_eq!(result, Err("failed to move".to_string()));
}

#[test]
fn non_uefi_boot_is_rejected_first() {
    let (steps, result) = drive(schedule_firmware_id("darp6_h"), |p| {
        if p == Phase::RequireUefi { Err("must be run using UEFI boot".to_string()) } else { Ok(()) }
    });
    assert_eq!(steps, vec![Phase::RequireUefi]);
    assert_eq!(result, Err("must be run using UEFI boot".to_string()));
}

#[test]
fn unschedule_twice_succeeds() {
    for _ in 0..2 {
        let run = unschedule();
        assert_eq!(run.kind, RunKind::Unschedule);
        let (steps, result) = drive(run, |_| Ok(()));
        assert_eq!(steps, vec![Phase::Disarm, Phase::RemoveStaged]);
        assert_eq!(result, Ok(()));
    }
}

#[test]
fn unschedule_reports_disarm_error() {
    let (steps, result) = drive(unschedule(), |_| Err("failed to unset next boot".to_string()));
    assert_eq!(steps, vec![Phase::Disarm]);
    assert_eq!(result, Err("failed to unset next boot".to_string()));
}

#[test]
fn schedule_for_darp6() {
    let run = schedule(TransitionKind::Automatic, "darp6", 0, "N150CU").unwrap();
    assert_eq!(run.kind, RunKind::Schedule);
    assert_eq!(
        run.firmware_file,
        "darp6_00c6eac75532b70881a0d1e01034dbb68b71ebfe862c3a78ea52870fa5759b37.tar.xz"
    );
    assert_eq!(run.action(), Phase::RequireUefi);
    assert!(run.result().is_none());
}

#[test]
fn schedule_for_unsupported_model_fails() {
    assert_eq!(
        schedule(TransitionKind::Open, "Y", 0, "VEND").err(),
        Some("Model 'Y' is not supported by open firmware and EC at this time".to_string())
    );
}

#[test]
fn boot_entry_arguments() {
    assert_eq!(
        create_entry_args("/dev/nvme0n1", "1", false),
        vec![
            "--quiet", "--create-only", "--bootnum", "1776", "--disk", "/dev/nvme0n1", "--part", "1",
            "--loader", "\\system76-firmware-update\\boot.efi", "--label", "system76-firmware-update",
        ]
    );
    assert_eq!(create_entry_args("/dev/sda", "2", true)[1], "--create");
    assert_eq!(boot_next_args(), vec!["--quiet", "--bootnext", "1776"]);
    assert_eq!(clear_boot_next_args(), vec!["--quiet", "--delete-bootnext"]);
    assert_eq!(delete_entry_args(), vec!["--quiet", "--delete-bootnum", "--bootnum", "1776"]);
}

fn mount(source: &str, dest: &str) -> Mount {
    Mount { source: source.to_string(), dest: dest.to_string() }
}

#[test]
fn efi_mount_is_first_device_at_dir() {
    let mounts = vec![
        mount("tmpfs", "/boot/efi"),
        mount("/dev/sda2", "/"),
        mount("/dev/sda1", "/boot/efi"),
        mount("/dev/sdb1", "/boot/efi"),
    ];
    assert_eq!(find_efi_mount(&mounts, "/boot/efi"), Ok(2));
    assert_eq!(find_efi_mount(&mounts, "/efi"), Err("failed to find mount: /efi".to_string()));
    assert_eq!(find_efi_mount(&vec![], "/boot/efi"), Err("failed to find mount: /boot/efi".to_string()));
}

#[test]
fn mount_table_lines() {
    let m = parse_mount_line("/dev/nvme0n1p1 /boot/efi vfat rw,relatime 0 0").unwrap();
    assert_eq!(m.source, "/dev/nvme0n1p1");
    assert_eq!(m.dest, "/boot/efi");
    let m = parse_mount_line("  tmpfs\t/run  tmpfs").unwrap();
    assert_eq!((m.source.as_str(), m.dest.as_str()), ("tmpfs", "/run"));
    assert!(parse_mount_line("").is_none());
    assert!(parse_mount_line("   onlyone   ").is_none());
}
