//! Restoring an app's data on a device from a backup archive: copy the
//! archive over, unpack it, repair contexts, owners and modes, and clean up.

use vstd::prelude::*;
use vstd::string::*;
use crate::args::{owned_strings, push_args, push_argv, shell_args, shell_argv};
use crate::backup::archive_removal_argv;
use crate::command::CommandResult;
use crate::scripts::{
    filled, restore_cache_modes_script, restore_cache_modes_template, restore_extract_script,
    restore_extract_text, restore_owner_script, restore_owner_template, restore_selinux_script,
    restore_selinux_template,
};
use crate::step::{Move, Step};
use crate::text::views;

verus! {

/// Where the archive is copied to on the device before it is unpacked.
pub open spec fn restore_archive() -> Seq<char> {
    "/sdcard/app_data_restore.tar.gz"@
}

/// The message of a restore that got past copying the archive over.
pub open spec fn restore_done_message() -> Seq<char> {
    "恢复完成（包含 WebView 缓存）"@
}

/// Which command a restore is waiting on.
pub enum RestoreStage {
    /// Copying the archive to the device.
    Push,
    /// Unpacking it.
    Extract,
    /// Restoring SELinux contexts.
    Contexts,
    /// Restoring owners and modes.
    Owners,
    /// Resetting the modes under the data, WebView and cache directories.
    CacheModes,
    /// Deleting the archive on the device.
    Cleanup,
}

/// A restore in progress.
pub struct Restore {
    pub device_id: String,
    pub package_name: String,
    pub stage: RestoreStage,
}

/// A restore in progress, by views.
pub struct RestoreView {
    pub device_id: Seq<char>,
    pub package_name: Seq<char>,
    pub stage: RestoreStage,
}

impl View for Restore {
    type V = RestoreView;

    open spec fn view(&self) -> RestoreView {
        RestoreView {
            device_id: self.device_id@,
            package_name: self.package_name@,
            stage: self.stage,
        }
    }
}

/// What a restore does once the command it waits on reports `r`: a failed
/// copy of the archive ends it with that result; after a successful copy the
/// other commands run in turn whatever they report, and the restore ends with
/// success and the message "恢复完成（包含 WebView 缓存）".
pub open spec fn restore_next(s: RestoreView, r: (bool, Seq<char>)) -> Move<RestoreView> {
    match s.stage {
        RestoreStage::Push => if !r.0 {
            Move::Finish(r)
        } else {
            Move::Run(
                RestoreView { stage: RestoreStage::Extract, ..s },
                shell_argv(s.device_id, restore_extract_text()),
            )
        },
        RestoreStage::Extract => Move::Run(
            RestoreView { stage: RestoreStage::Contexts, ..s },
            shell_argv(s.device_id, filled(restore_selinux_template(), s.package_name)),
        ),
        RestoreStage::Contexts => Move::Run(
            RestoreView { stage: RestoreStage::Owners, ..s },
            shell_argv(s.device_id, filled(restore_owner_template(), s.package_name)),
        ),
        RestoreStage::Owners => Move::Run(
            RestoreView { stage: RestoreStage::CacheModes, ..s },
            shell_argv(s.device_id, filled(restore_cache_modes_template(), s.package_name)),
        ),
        RestoreStage::CacheModes => Move::Run(
            RestoreView { stage: RestoreStage::Cleanup, ..s },
            archive_removal_argv(s.device_id, restore_archive()),
        ),
        RestoreStage::Cleanup => Move::Finish((true, restore_done_message())),
    }
}

impl Restore {
    /// Begin restoring `package_name` on a device from the archive at
    /// `backup_file`: the first command copies it to the device.
    pub fn start(device_id: &str, backup_file: &str, package_name: &str) -> (r: (
        Restore,
        Vec<String>,
    ))
        ensures
            r.0@ == (RestoreView {
                device_id: device_id@,
                package_name: package_name@,
                stage: RestoreStage::Push,
            }),
            views(r.1@) == push_argv(device_id@, backup_file@, restore_archive()),
    {
        let argv = push_args(device_id, backup_file, "/sdcard/app_data_restore.tar.gz");
        let s = Restore {
            device_id: String::from_str(device_id),
            package_name: String::from_str(package_name),
            stage: RestoreStage::Push,
        };
        (s, argv)
    }

    /// The next step once the command waited on has reported `result`.
    pub fn advance(self, result: CommandResult) -> (r: Step<Restore>)
        ensures
            r@ == restore_next(self@, result@),
    {
        let Restore { device_id, package_name, stage } = self;
        match stage {
            RestoreStage::Push => {
                if !result.success {
                    Step::Finish(result)
                } else {
                    let script = restore_extract_script();
                    let argv = shell_args(device_id.as_str(), script.as_str());
                    Step::Run(Restore { device_id, package_name, stage: RestoreStage::Extract }, argv)
                }
            },
            RestoreStage::Extract => {
                let script = restore_selinux_script(package_name.as_str());
                let argv = shell_args(device_id.as_str(), script.as_str());
                Step::Run(Restore { device_id, package_name, stage: RestoreStage::Contexts }, argv)
            },
            RestoreStage::Contexts => {
                let script = restore_owner_script(package_name.as_str());
                let argv = shell_args(device_id.as_str(), script.as_str());
                Step::Run(Restore { device_id, package_name, stage: RestoreStage::Owners }, argv)
            },
            RestoreStage::Owners => {
                let script = restore_cache_modes_script(package_name.as_str());
                let argv = shell_args(device_id.as_str(), script.as_str());
                Step::Run(Restore { device_id, package_name, stage: RestoreStage::CacheModes }, argv)
            },
            RestoreStage::CacheModes => {
                let parts = [
                    "-s",
                    device_id.as_str(),
                    "shell",
                    "rm",
                    "-f",
                    "/sdcard/app_data_restore.tar.gz",
                ];
                let argv = owned_strings(&parts);
                assert(views(argv@) == archive_removal_argv(device_id@, restore_archive()));
                Step::Run(Restore { device_id, package_name, stage: RestoreStage::Cleanup }, argv)
            },
            RestoreStage::Cleanup => Step::Finish(
                CommandResult::succeeded("恢复完成（包含 WebView 缓存）"),
            ),
        }
    }
}

} // verus!
