//! Backing up an app's data on a device and copying the archive off it.

use vstd::prelude::*;
use vstd::string::*;
use crate::args::{owned_strings, pull_args, pull_argv, shell_args, shell_argv};
use crate::command::CommandResult;
use crate::scripts::{backup_script, backup_template, filled};
use crate::step::{Move, Step};
use crate::text::views;

verus! {

/// Where the backup script leaves the archive on the device.
pub open spec fn backup_archive() -> Seq<char> {
    "/sdcard/app_data_backup.tar.gz"@
}

/// `adb -s <device> shell <backup script>`: archive a package's data on the
/// device.
pub fn backup_args(device_id: &str, package_name: &str) -> (r: Vec<String>)
    ensures
        views(r@) == shell_argv(device_id@, filled(backup_template(), package_name@)),
{
    let script = backup_script(package_name);
    shell_args(device_id, script.as_str())
}

/// `adb -s <device> shell rm -f <archive>`: delete the archive on the device.
pub open spec fn archive_removal_argv(device_id: Seq<char>, archive: Seq<char>) -> Seq<Seq<char>> {
    seq!["-s"@, device_id, "shell"@, "rm"@, "-f"@, archive]
}

/// Which command copying a backup off the device is waiting on.
pub enum PullStage {
    /// The copy.
    Pull,
    /// The deletion of the archive, after a copy that reported the given result.
    Cleanup(CommandResult),
}

/// The stage of copying a backup off the device, by views.
pub enum PullStageView {
    Pull,
    Cleanup((bool, Seq<char>)),
}

/// Copying a backup off the device, in progress.
pub struct BackupPull {
    pub device_id: String,
    pub stage: PullStage,
}

/// Copying a backup off the device, by views.
pub struct BackupPullView {
    pub device_id: Seq<char>,
    pub stage: PullStageView,
}

impl View for BackupPull {
    type V = BackupPullView;

    open spec fn view(&self) -> BackupPullView {
        BackupPullView {
            device_id: self.device_id@,
            stage: match self.stage {
                PullStage::Pull => PullStageView::Pull,
                PullStage::Cleanup(r) => PullStageView::Cleanup(r@),
            },
        }
    }
}

/// What copying a backup off the device does once the command it waits on
/// reports `r`: after the copy, whatever it reported, it deletes the archive
/// on the device; then it finishes with what the copy reported.
pub open spec fn backup_pull_next(s: BackupPullView, r: (bool, Seq<char>)) -> Move<BackupPullView> {
    match s.stage {
        PullStageView::Pull => Move::Run(
            BackupPullView { stage: PullStageView::Cleanup(r), ..s },
            archive_removal_argv(s.device_id, backup_archive()),
        ),
        PullStageView::Cleanup(p) => Move::Finish(p),
    }
}

impl BackupPull {
    /// Begin copying the backup archive of a device to `local_path`.
    pub fn start(device_id: &str, local_path: &str) -> (r: (BackupPull, Vec<String>))
        ensures
            r.0@ == (BackupPullView { device_id: device_id@, stage: PullStageView::Pull }),
            views(r.1@) == pull_argv(device_id@, backup_archive(), local_path@),
    {
        let argv = pull_args(device_id, "/sdcard/app_data_backup.tar.gz", local_path);
        (BackupPull { device_id: String::from_str(device_id), stage: PullStage::Pull }, argv)
    }

    /// The next step once the command waited on has reported `result`.
    pub fn advance(self, result: CommandResult) -> (r: Step<BackupPull>)
        ensures
            r@ == backup_pull_next(self@, result@),
    {
        let BackupPull { device_id, stage } = self;
        match stage {
            PullStage::Pull => {
                let parts = [
                    "-s",
                    device_id.as_str(),
                    "shell",
                    "rm",
                    "-f",
                    "/sdcard/app_data_backup.tar.gz",
                ];
                let argv = owned_strings(&parts);
                assert(views(argv@) == archive_removal_argv(device_id@, backup_archive()));
                Step::Run(BackupPull { device_id, stage: PullStage::Cleanup(result) }, argv)
            },
            PullStage::Cleanup(p) => Step::Finish(p),
        }
    }
}

} // verus!
