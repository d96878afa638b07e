//! Removing a package: first for the primary user, then, if that fails, for
//! every user.

use vstd::prelude::*;
use vstd::string::*;
use crate::args::{uninstall_args, uninstall_argv};
use crate::command::CommandResult;
use crate::step::{Move, Step};

verus! {

/// Which attempt an uninstall is waiting on.
pub enum UninstallStage {
    PrimaryUser,
    AllUsers,
}

/// An uninstall in progress.
pub struct Uninstall {
    pub device_id: String,
    pub package_name: String,
    pub stage: UninstallStage,
}

/// An uninstall in progress, by the views of its fields.
pub struct UninstallView {
    pub device_id: Seq<char>,
    pub package_name: Seq<char>,
    pub stage: UninstallStage,
}

impl View for Uninstall {
    type V = UninstallView;

    open spec fn view(&self) -> UninstallView {
        UninstallView {
            device_id: self.device_id@,
            package_name: self.package_name@,
            stage: self.stage,
        }
    }
}

/// What an uninstall does once the attempt it waits on reports `r`: a failed
/// attempt for the primary user is followed by one for all users; otherwise
/// the attempt's result is the outcome.
pub open spec fn uninstall_next(s: UninstallView, r: (bool, Seq<char>)) -> Move<UninstallView> {
    match s.stage {
        UninstallStage::PrimaryUser => if r.0 {
            Move::Finish(r)
        } else {
            Move::Run(
                UninstallView { stage: UninstallStage::AllUsers, ..s },
                uninstall_argv(s.device_id, s.package_name, false),
            )
        },
        UninstallStage::AllUsers => Move::Finish(r),
    }
}

impl Uninstall {
    /// Begin removing `package_name` from a device: the first command removes
    /// it for the primary user.
    pub fn start(device_id: &str, package_name: &str) -> (r: (Uninstall, Vec<String>))
        ensures
            r.0@ == (UninstallView {
                device_id: device_id@,
                package_name: package_name@,
                stage: UninstallStage::PrimaryUser,
            }),
            crate::text::views(r.1@) == uninstall_argv(device_id@, package_name@, true),
    {
        let argv = uninstall_args(device_id, package_name, true);
        let u = Uninstall {
            device_id: String::from_str(device_id),
            package_name: String::from_str(package_name),
            stage: UninstallStage::PrimaryUser,
        };
        (u, argv)
    }

    /// The next step once the attempt waited on has reported `result`.
    pub fn advance(self, result: CommandResult) -> (r: Step<Uninstall>)
        ensures
            r@ == uninstall_next(self@, result@),
    {
        match self.stage {
            UninstallStage::PrimaryUser => {
                if result.success {
                    Step::Finish(result)
                } else {
                    let argv = uninstall_args(
                        self.device_id.as_str(),
                        self.package_name.as_str(),
                        false,
                    );
                    Step::Run(
                        Uninstall {
                            device_id: self.device_id,
                            package_name: self.package_name,
                            stage: UninstallStage::AllUsers,
                        },
                        argv,
                    )
                }
            },
            UninstallStage::AllUsers => Step::Finish(result),
        }
    }
}

} // verus!
