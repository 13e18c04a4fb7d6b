//! Staging a firmware update on the boot partition and arming the one-shot
//! boot entry, and cancelling it again, as state machines.
//!
//! The caller performs each step that `action` names and reports its
//! outcome to `advance`, until the run is done. A bundle is extracted into a
//! fresh temporary directory first and only then moved, in one rename, to the
//! fixed staging directory, so a failed extraction leaves nothing there.

use vstd::prelude::*;
use crate::digest::{firmware_id, firmware_id_of};
use crate::manifest::{firmware_file, firmware_file_name, updater_file, updater_file_name};
use crate::text::has_prefix;
use crate::transition::{default_rules, resolve, unsupported_message, TransitionKind};

verus! {

/// Which run this is.
#[derive(Clone, Copy, Debug, PartialEq, Eq, Structural)]
pub enum RunKind {
    /// Stage an update and arm the boot entry.
    Schedule,
    /// Disarm the boot entry and remove the staged update.
    Unschedule,
}

/// A step of a run.
#[derive(Clone, Copy, Debug, PartialEq, Eq, Structural)]
pub enum Phase {
    /// Check that the machine booted through UEFI.
    RequireUefi,
    /// Delete the one-shot boot entry and BootNext, if set.
    Disarm,
    /// Remove the staging directory, if present.
    RemoveStaged,
    /// Create a temporary directory on the boot partition.
    CreateTemp,
    /// Extract the updater bundle into the temporary directory.
    ExtractUpdater,
    /// Extract the firmware bundle into its `firmware` subdirectory.
    ExtractFirmware,
    /// Rename the temporary directory to the staging directory.
    MoveIntoPlace,
    /// Remove the temporary directory; its outcome is not reported upward.
    RemoveTemp,
    /// Create the one-shot boot entry and point BootNext at it.
    Arm,
    /// The run is over.
    Done,
}

/// The step after `phase` ends well (`ok`) or not.
pub open spec fn next_phase(kind: RunKind, phase: Phase, ok: bool) -> Phase {
    match phase {
        Phase::RequireUefi => if ok { Phase::Disarm } else { Phase::Done },
        Phase::Disarm => if ok { Phase::RemoveStaged } else { Phase::Done },
        Phase::RemoveStaged => if ok && kind == RunKind::Schedule { Phase::CreateTemp } else { Phase::Done },
        Phase::CreateTemp => if ok { Phase::ExtractUpdater } else { Phase::Done },
        Phase::ExtractUpdater => if ok { Phase::ExtractFirmware } else { Phase::RemoveTemp },
        Phase::ExtractFirmware => if ok { Phase::MoveIntoPlace } else { Phase::RemoveTemp },
        Phase::MoveIntoPlace => if ok { Phase::Arm } else { Phase::RemoveTemp },
        Phase::RemoveTemp => Phase::Done,
        Phase::Arm => Phase::Done,
        Phase::Done => Phase::Done,
    }
}

/// The step that a run of `kind` starts with.
pub open spec fn first_phase(kind: RunKind) -> Phase {
    if kind == RunKind::Schedule { Phase::RequireUefi } else { Phase::Disarm }
}

/// What a run leaves on the machine: whether the staging directory exists,
/// and whether the one-shot boot entry is armed.
pub struct Machine {
    pub staged: bool,
    pub armed: bool,
}

/// The machine after `phase` ends well (`ok`) or not; a step that fails
/// changes nothing.
pub open spec fn effect(phase: Phase, ok: bool, m: Machine) -> Machine {
    if !ok {
        m
    } else {
        match phase {
            Phase::Disarm => Machine { armed: false, ..m },
            Phase::RemoveStaged => Machine { staged: false, ..m },
            Phase::MoveIntoPlace => Machine { staged: true, ..m },
            Phase::Arm => Machine { armed: true, ..m },
            _ => m,
        }
    }
}

/// The step reached and the machine left when the steps from `phase` on end
/// as `outcomes` from index `i` on says (`true` for success), until the run
/// is done.
pub open spec fn run_from(kind: RunKind, phase: Phase, outcomes: Seq<bool>, i: int, m: Machine) -> (Phase, Machine)
    decreases outcomes.len() - i,
{
    if i < 0 || i >= outcomes.len() || phase == Phase::Done {
        (phase, m)
    } else {
        run_from(kind, next_phase(kind, phase, outcomes[i]), outcomes, i + 1, effect(phase, outcomes[i], m))
    }
}

/// The step reached and the machine left when the steps from `phase` on end
/// as `outcomes` says, until the run is done.
pub open spec fn run(kind: RunKind, phase: Phase, outcomes: Seq<bool>, m: Machine) -> (Phase, Machine) {
    run_from(kind, phase, outcomes, 0, m)
}

/// Whether a step from `phase` on, as `outcomes` from index `i` on says,
/// fails in a way that the run reports (the removal of the temporary
/// directory does not count).
pub open spec fn fails_from(kind: RunKind, phase: Phase, outcomes: Seq<bool>, i: int) -> bool
    decreases outcomes.len() - i,
{
    if i < 0 || i >= outcomes.len() || phase == Phase::Done {
        false
    } else {
        (!outcomes[i] && phase != Phase::RemoveTemp)
            || fails_from(kind, next_phase(kind, phase, outcomes[i]), outcomes, i + 1)
    }
}

/// Whether a step from `phase` on, as `outcomes` says, fails in a way that
/// the run reports.
pub open spec fn run_fails(kind: RunKind, phase: Phase, outcomes: Seq<bool>) -> bool {
    fails_from(kind, phase, outcomes, 0)
}

/// A run of the steps that stage an update or cancel one.
pub struct UpdateRun {
    /// Which run this is.
    pub kind: RunKind,
    /// The step to perform next.
    pub phase: Phase,
    /// The first error that the run reports, if any.
    pub error: Option<String>,
    /// The name of the updater bundle in the manifest.
    pub updater_file: String,
    /// The name of the firmware bundle in the manifest.
    pub firmware_file: String,
    /// Whether arming also adds the boot entry to BootOrder: for models whose
    /// firmware does not honour BootNext alone.
    pub modify_order: bool,
}

impl UpdateRun {
    /// The step to perform next; `Phase::Done` once the run is over.
    pub fn action(&self) -> (r: Phase)
        ensures
            r == self.phase,
    {
        self.phase
    }

    /// Records the outcome of the step that `action` named.
    pub fn advance(&mut self, outcome: Result<(), String>)
        ensures
            final(self).kind == old(self).kind,
            final(self).updater_file == old(self).updater_file,
            final(self).firmware_file == old(self).firmware_file,
            final(self).modify_order == old(self).modify_order,
            final(self).phase == next_phase(old(self).kind, old(self).phase, outcome is Ok),
            final(self).error == (if old(self).error is None && old(self).phase != Phase::RemoveTemp
                && old(self).phase != Phase::Done && outcome is Err {
                Some(outcome->Err_0)
            } else {
                old(self).error
            }),
    {
        let ok = outcome.is_ok();
        if self.error.is_none() && self.phase != Phase::RemoveTemp && self.phase != Phase::Done {
            match outcome {
                Ok(()) => {},
                Err(e) => {
                    self.error = Some(e);
                },
            }
        }
        self.phase = match self.phase {
            Phase::RequireUefi => if ok { Phase::Disarm } else { Phase::Done },
            Phase::Disarm => if ok { Phase::RemoveStaged } else { Phase::Done },
            Phase::RemoveStaged => if ok && self.kind == RunKind::Schedule { Phase::CreateTemp } else { Phase::Done },
            Phase::CreateTemp => if ok { Phase::ExtractUpdater } else { Phase::Done },
            Phase::ExtractUpdater => if ok { Phase::ExtractFirmware } else { Phase::RemoveTemp },
            Phase::ExtractFirmware => if ok { Phase::MoveIntoPlace } else { Phase::RemoveTemp },
            Phase::MoveIntoPlace => if ok { Phase::Arm } else { Phase::RemoveTemp },
            Phase::RemoveTemp => Phase::Done,
            Phase::Arm => Phase::Done,
            Phase::Done => Phase::Done,
        };
    }

    /// The run's result once it is over: the first error it reports, or
    /// success; `None` while steps remain.
    pub fn result(&self) -> (r: Option<Result<(), String>>)
        ensures
            self.phase != Phase::Done ==> r is None,
            self.phase == Phase::Done ==> r == Some(match self.error {
                Some(e) => Err::<(), String>(e),
                None => Ok(()),
            }),
    {
        if self.phase != Phase::Done {
            None
        } else {
            match &self.error {
                Some(e) => Some(Err(e.clone())),
                None => Some(Ok(())),
            }
        }
    }
}

/// The model whose firmware only runs the update when the boot entry is
/// also in BootOrder, as the start of a firmware identity.
pub open spec fn boot_order_prefix() -> Seq<char> {
    "thelio-mira-r1_"@
}

/// Whether the firmware identity `id` needs the boot entry in BootOrder.
pub open spec fn needs_boot_order(id: Seq<char>) -> bool {
    boot_order_prefix().len() <= id.len() && id.subrange(0, boot_order_prefix().len() as int) == boot_order_prefix()
}

/// A fresh run that stages the bundles of the firmware identity
/// `firmware_id`.
pub fn schedule_firmware_id(firmware_id: &str) -> (r: UpdateRun)
    ensures
        r.kind == RunKind::Schedule,
        r.phase == first_phase(RunKind::Schedule),
        r.error is None,
        r.updater_file@ == updater_file(),
        r.firmware_file@ == firmware_file(firmware_id@),
        r.modify_order == needs_boot_order(firmware_id@),
{
    UpdateRun {
        kind: RunKind::Schedule,
        phase: Phase::RequireUefi,
        error: None,
        updater_file: updater_file_name(),
        firmware_file: firmware_file_name(firmware_id),
        modify_order: has_prefix(firmware_id, "thelio-mira-r1_"),
    }
}

/// A run that stages the firmware for this machine, a model `model` of
/// board variant `variant` whose primary embedded controller reports
/// `ec_project`, for the kind of firmware `transition_kind`; or the error of
/// `firmware_id` where the model does not support that kind.
pub fn schedule(transition_kind: TransitionKind, model: &str, variant: u8, ec_project: &str) -> (r: Result<UpdateRun, String>)
    ensures
        match resolve(transition_kind, default_rules(), model@, variant, ec_project@) {
            Some(target) => r matches Ok(run) && run.kind == RunKind::Schedule
                && run.phase == first_phase(RunKind::Schedule) && run.error is None
                && run.updater_file@ == updater_file()
                && run.firmware_file@ == firmware_file(firmware_id_of(model@, target))
                && run.modify_order == needs_boot_order(firmware_id_of(model@, target)),
            None => r matches Err(e) && e@ == unsupported_message(transition_kind, model@),
        },
{
    let id = firmware_id(transition_kind, model, variant, ec_project)?;
    Ok(schedule_firmware_id(id.as_str()))
}

/// A fresh run that disarms the boot entry and removes the staged update.
pub fn unschedule() -> (r: UpdateRun)
    ensures
        r.kind == RunKind::Unschedule,
        r.phase == first_phase(RunKind::Unschedule),
        r.error is None,
{
    UpdateRun {
        kind: RunKind::Unschedule,
        phase: Phase::Disarm,
        error: None,
        updater_file: String::new(),
        firmware_file: String::new(),
        modify_order: false,
    }
}

/// Cancelling succeeds and leaves neither a staged update nor an armed boot
/// entry, whatever the machine held before; so cancelling twice in a row, or
/// where nothing was ever scheduled, succeeds both times.
pub proof fn lemma_unschedule_idempotent(m: Machine)
    ensures
        run(RunKind::Unschedule, first_phase(RunKind::Unschedule), seq![true, true], m)
            == (Phase::Done, Machine { staged: false, armed: false }),
        !run_fails(RunKind::Unschedule, first_phase(RunKind::Unschedule), seq![true, true]),
        run(RunKind::Unschedule, first_phase(RunKind::Unschedule), seq![true, true],
            run(RunKind::Unschedule, first_phase(RunKind::Unschedule), seq![true, true], m).1)
            == (Phase::Done, Machine { staged: false, armed: false }),
{
    reveal_with_fuel(run_from, 3);
    reveal_with_fuel(fails_from, 3);
}

/// The outcomes of a scheduling run whose firmware extraction fails: every
/// step before it succeeds, and the removal of the temporary directory ends
/// as `cleanup_ok` says.
pub open spec fn failed_extraction(cleanup_ok: bool) -> Seq<bool> {
    seq![true, true, true, true, true, false, cleanup_ok]
}

/// The outcomes of a scheduling run in which every step succeeds.
pub open spec fn clean_run() -> Seq<bool> {
    seq![true, true, true, true, true, true, true, true]
}

/// Where extracting the firmware bundle fails, the run reports the failure,
/// no staged update exists afterward, and a following run in which every
/// step succeeds stages the update and arms the boot entry.
pub proof fn lemma_atomic_staging(m: Machine, cleanup_ok: bool)
    ensures
        run(RunKind::Schedule, first_phase(RunKind::Schedule), failed_extraction(cleanup_ok), m).0 == Phase::Done,
        !run(RunKind::Schedule, first_phase(RunKind::Schedule), failed_extraction(cleanup_ok), m).1.staged,
        run_fails(RunKind::Schedule, first_phase(RunKind::Schedule), failed_extraction(cleanup_ok)),
        run(RunKind::Schedule, first_phase(RunKind::Schedule), clean_run(),
            run(RunKind::Schedule, first_phase(RunKind::Schedule), failed_extraction(cleanup_ok), m).1)
            == (Phase::Done, Machine { staged: true, armed: true }),
        !run_fails(RunKind::Schedule, first_phase(RunKind::Schedule), clean_run()),
{
    reveal_with_fuel(run_from, 9);
    reveal_with_fuel(fails_from, 9);
}

} // verus!
