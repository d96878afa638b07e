//! Deleting a file or directory on a device: check that it is there, find out
//! whether it is a directory, remove it, and confirm that it is gone.

use vstd::prelude::*;
use vstd::string::*;
use crate::args::owned_strings;
use crate::command::CommandResult;
use crate::step::{Move, Step};
use crate::text::{trim, trim_str, views};

verus! {

/// `adb -s <device> shell test -e <path> && echo EXISTS || echo <absent>`:
/// print `EXISTS` when the path is there and `absent` when it is not.
pub open spec fn presence_probe_argv(device_id: Seq<char>, path: Seq<char>, absent: Seq<char>) -> Seq<Seq<char>> {
    seq![
        "-s"@,
        device_id,
        "shell"@,
        "test"@,
        "-e"@,
        path,
        "&&"@,
        "echo"@,
        "EXISTS"@,
        "||"@,
        "echo"@,
        absent,
    ]
}

/// `adb -s <device> shell test -d <path> && echo IS_DIR || echo IS_FILE`.
pub open spec fn kind_probe_argv(device_id: Seq<char>, path: Seq<char>) -> Seq<Seq<char>> {
    seq![
        "-s"@,
        device_id,
        "shell"@,
        "test"@,
        "-d"@,
        path,
        "&&"@,
        "echo"@,
        "IS_DIR"@,
        "||"@,
        "echo"@,
        "IS_FILE"@,
    ]
}

/// `adb -s <device> shell rm -rf <path>` for a directory, `rm -f` otherwise.
pub open spec fn removal_argv(device_id: Seq<char>, path: Seq<char>, is_directory: bool) -> Seq<Seq<char>> {
    seq![
        "-s"@,
        device_id,
        "shell"@,
        "rm"@,
        if is_directory {
            "-rf"@
        } else {
            "-f"@
        },
        path,
    ]
}

/// Which command a deletion is waiting on.
pub enum DeletionStage {
    /// Whether the path is there.
    CheckExists,
    /// Whether the path is a directory.
    CheckKind,
    /// The removal of a directory or of a file.
    Remove(bool),
    /// Whether the path is gone, after a removal that printed the given text.
    Confirm(bool, String),
}

/// The stage of a deletion, by views.
pub enum DeletionStageView {
    CheckExists,
    CheckKind,
    Remove(bool),
    Confirm(bool, Seq<char>),
}

/// A deletion in progress.
pub struct Deletion {
    pub device_id: String,
    pub path: String,
    pub stage: DeletionStage,
}

/// A deletion in progress, by views.
pub struct DeletionView {
    pub device_id: Seq<char>,
    pub path: Seq<char>,
    pub stage: DeletionStageView,
}

impl View for Deletion {
    type V = DeletionView;

    open spec fn view(&self) -> DeletionView {
        DeletionView {
            device_id: self.device_id@,
            path: self.path@,
            stage: match self.stage {
                DeletionStage::CheckExists => DeletionStageView::CheckExists,
                DeletionStage::CheckKind => DeletionStageView::CheckKind,
                DeletionStage::Remove(d) => DeletionStageView::Remove(d),
                DeletionStage::Confirm(d, out) => DeletionStageView::Confirm(d, out@),
            },
        }
    }
}

/// Whether a probe succeeded and printed `word`.
pub open spec fn printed(r: (bool, Seq<char>), word: Seq<char>) -> bool {
    r.0 && trim(r.1) == word
}

/// What a deletion does once the command it waits on reports `r`:
/// - a path reported absent ends it with the failure "文件或文件夹不存在";
/// - otherwise it asks whether the path is a directory, which it takes to be
///   so only when that probe printed `IS_DIR`;
/// - it removes the path, recursively for a directory;
/// - it then checks that the path is gone: if that probe printed `DELETED`,
///   it succeeds with "文件夹删除成功" or "文件删除成功", and otherwise it fails
///   with what the removal printed, or "删除失败" when that was nothing.
pub open spec fn deletion_next(s: DeletionView, r: (bool, Seq<char>)) -> Move<DeletionView> {
    match s.stage {
        DeletionStageView::CheckExists => if printed(r, "NOT_EXISTS"@) {
            Move::Finish((false, "文件或文件夹不存在"@))
        } else {
            Move::Run(
                DeletionView { stage: DeletionStageView::CheckKind, ..s },
                kind_probe_argv(s.device_id, s.path),
            )
        },
        DeletionStageView::CheckKind => {
            let d = printed(r, "IS_DIR"@);
            Move::Run(
                DeletionView { stage: DeletionStageView::Remove(d), ..s },
                removal_argv(s.device_id, s.path, d),
            )
        },
        DeletionStageView::Remove(d) => Move::Run(
            DeletionView { stage: DeletionStageView::Confirm(d, r.1), ..s },
            presence_probe_argv(s.device_id, s.path, "DELETED"@),
        ),
        DeletionStageView::Confirm(d, out) => if printed(r, "DELETED"@) {
            Move::Finish(
                (
                    true,
                    if d {
                        "文件夹删除成功"@
                    } else {
                        "文件删除成功"@
                    },
                ),
            )
        } else {
            Move::Finish(
                (
                    false,
                    if out.len() == 0 {
                        "删除失败"@
                    } else {
                        out
                    },
                ),
            )
        },
    }
}

/// Whether `r` succeeded and printed `word`.
fn reports(r: &CommandResult, word: &str) -> (b: bool)
    ensures
        b == printed(r@, word@),
{
    if !r.success {
        return false;
    }
    let t = trim_str(r.output.as_str());
    let w = String::from_str(word);
    t == w
}

impl Deletion {
    /// Begin deleting `path` on a device: the first command asks whether it
    /// is there.
    pub fn start(device_id: &str, path: &str) -> (r: (Deletion, Vec<String>))
        ensures
            r.0@ == (DeletionView {
                device_id: device_id@,
                path: path@,
                stage: DeletionStageView::CheckExists,
            }),
            views(r.1@) == presence_probe_argv(device_id@, path@, "NOT_EXISTS"@),
    {
        let parts = [
            "-s",
            device_id,
            "shell",
            "test",
            "-e",
            path,
            "&&",
            "echo",
            "EXISTS",
            "||",
            "echo",
            "NOT_EXISTS",
        ];
        let argv = owned_strings(&parts);
        let d = Deletion {
            device_id: String::from_str(device_id),
            path: String::from_str(path),
            stage: DeletionStage::CheckExists,
        };
        (d, argv)
    }

    /// The next step once the command waited on has reported `result`.
    pub fn advance(self, result: CommandResult) -> (r: Step<Deletion>)
        ensures
            r@ == deletion_next(self@, result@),
    {
        let Deletion { device_id, path, stage } = self;
        match stage {
            DeletionStage::CheckExists => {
                if reports(&result, "NOT_EXISTS") {
                    Step::Finish(CommandResult::failed("文件或文件夹不存在"))
                } else {
                    let parts = [
                        "-s",
                        device_id.as_str(),
                        "shell",
                        "test",
                        "-d",
                        path.as_str(),
                        "&&",
                        "echo",
                        "IS_DIR",
                        "||",
                        "echo",
                        "IS_FILE",
                    ];
                    let argv = owned_strings(&parts);
                    assert(views(argv@) == kind_probe_argv(device_id@, path@));
                    Step::Run(Deletion { device_id, path, stage: DeletionStage::CheckKind }, argv)
                }
            },
            DeletionStage::CheckKind => {
                let d = reports(&result, "IS_DIR");
                let flag = if d {
                    "-rf"
                } else {
                    "-f"
                };
                let parts = ["-s", device_id.as_str(), "shell", "rm", flag, path.as_str()];
                let argv = owned_strings(&parts);
                assert(views(argv@) == removal_argv(device_id@, path@, d));
                Step::Run(Deletion { device_id, path, stage: DeletionStage::Remove(d) }, argv)
            },
            DeletionStage::Remove(d) => {
                let parts = [
                    "-s",
                    device_id.as_str(),
                    "shell",
                    "test",
                    "-e",
                    path.as_str(),
                    "&&",
                    "echo",
                    "EXISTS",
                    "||",
                    "echo",
                    "DELETED",
                ];
                let argv = owned_strings(&parts);
                assert(views(argv@) == presence_probe_argv(device_id@, path@, "DELETED"@));
                Step::Run(
                    Deletion { device_id, path, stage: DeletionStage::Confirm(d, result.output) },
                    argv,
                )
            },
            DeletionStage::Confirm(d, out) => {
                if reports(&result, "DELETED") {
                    if d {
                        Step::Finish(CommandResult::succeeded("文件夹删除成功"))
                    } else {
                        Step::Finish(CommandResult::succeeded("文件删除成功"))
                    }
                } else if out.as_str().is_empty() {
                    Step::Finish(CommandResult::failed("删除失败"))
                } else {
                    Step::Finish(CommandResult { success: false, output: out })
                }
            },
        }
    }
}

} // verus!
