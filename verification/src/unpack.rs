//! Unpacking the bundled `adb` and `scrcpy` tools into their cache directory
//! on first use: skipped when `adb.exe` is already there; otherwise create the
//! directory, then write the files one by one in a fixed order, stopping at
//! the first failure.

use vstd::prelude::*;
use vstd::string::*;
use crate::args::owned_strings;
use crate::text::views;
use crate::tools::{cache_dir_failed, write_failed};

verus! {

/// The bundled files, in the order they are written.
pub open spec fn tool_files() -> Seq<Seq<char>> {
    seq![
        "adb.exe"@,
        "AdbWinApi.dll"@,
        "AdbWinUsbApi.dll"@,
        "scrcpy.exe"@,
        "scrcpy-server"@,
        "SDL2.dll"@,
        "avcodec-61.dll"@,
        "avformat-61.dll"@,
        "avutil-59.dll"@,
        "swresample-5.dll"@,
        "libusb-1.0.dll"@,
    ]
}

/// The names of the bundled files, in the order they are written.
pub fn tool_file_names() -> (r: Vec<String>)
    ensures
        views(r@) == tool_files(),
        r@.len() == 11,
{
    let parts = [
        "adb.exe",
        "AdbWinApi.dll",
        "AdbWinUsbApi.dll",
        "scrcpy.exe",
        "scrcpy-server",
        "SDL2.dll",
        "avcodec-61.dll",
        "avformat-61.dll",
        "avutil-59.dll",
        "swresample-5.dll",
        "libusb-1.0.dll",
    ];
    let r = owned_strings(&parts);
    assert(views(r@) =~= tool_files());
    r
}

/// What unpacking waits on: creating the directory, or writing the file at a
/// position of `tool_files()`.
pub enum Unpacking {
    CreateDir,
    Write(usize),
}

/// A state that unpacking can be in: a write is of one of the bundled files.
pub open spec fn unpacking_valid(s: Unpacking) -> bool {
    match s {
        Unpacking::CreateDir => true,
        Unpacking::Write(k) => k < 11,
    }
}

/// What to do on the file system next.
pub enum UnpackAction {
    CreateCacheDir,
    WriteFile(String),
}

/// An action, by views.
pub enum UnpackActionView {
    CreateCacheDir,
    WriteFile(Seq<char>),
}

/// What unpacking does next: perform an action and then wait in the given
/// state, or end, with the reason when it failed.
pub enum UnpackStep {
    Run(Unpacking, UnpackAction),
    Done(Result<(), String>),
}

/// A step, by views.
pub enum UnpackMove {
    Run(Unpacking, UnpackActionView),
    Done(Result<(), Seq<char>>),
}

/// The view of an outcome.
pub open spec fn outcome_view(o: Result<(), String>) -> Result<(), Seq<char>> {
    match o {
        Ok(_) => Ok(()),
        Err(e) => Err(e@),
    }
}

impl View for UnpackStep {
    type V = UnpackMove;

    open spec fn view(&self) -> UnpackMove {
        match self {
            UnpackStep::Run(s, UnpackAction::CreateCacheDir) => UnpackMove::Run(
                *s,
                UnpackActionView::CreateCacheDir,
            ),
            UnpackStep::Run(s, UnpackAction::WriteFile(n)) => UnpackMove::Run(
                *s,
                UnpackActionView::WriteFile(n@),
            ),
            UnpackStep::Done(o) => UnpackMove::Done(outcome_view(*o)),
        }
    }
}

/// How unpacking begins: nothing is done when `adb.exe` is already there;
/// otherwise the cache directory is created first.
pub open spec fn unpack_start_spec(adb_present: bool) -> UnpackMove {
    if adb_present {
        UnpackMove::Done(Ok(()))
    } else {
        UnpackMove::Run(Unpacking::CreateDir, UnpackActionView::CreateCacheDir)
    }
}

/// What unpacking does once the action it waits on ended with `outcome`:
/// a failure ends it with a reason naming what failed; after the directory
/// the first file is written, after each file the next one, and after the
/// last file it ends successfully.
pub open spec fn unpack_next_spec(s: Unpacking, outcome: Result<(), Seq<char>>) -> UnpackMove {
    match s {
        Unpacking::CreateDir => match outcome {
            Err(e) => UnpackMove::Done(Err("创建缓存目录失败: "@ + e)),
            Ok(_) => UnpackMove::Run(Unpacking::Write(0), UnpackActionView::WriteFile(tool_files()[0])),
        },
        Unpacking::Write(k) => match outcome {
            Err(e) => UnpackMove::Done(Err("写入"@ + tool_files()[k as int] + "失败: "@ + e)),
            Ok(_) => if k + 1 < 11 {
                UnpackMove::Run(
                    Unpacking::Write((k + 1) as usize),
                    UnpackActionView::WriteFile(tool_files()[k + 1]),
                )
            } else {
                UnpackMove::Done(Ok(()))
            },
        },
    }
}

/// How unpacking begins, given whether `adb.exe` is already there.
pub fn unpack_start(adb_present: bool) -> (r: UnpackStep)
    ensures
        r@ == unpack_start_spec(adb_present),
{
    if adb_present {
        UnpackStep::Done(Ok(()))
    } else {
        UnpackStep::Run(Unpacking::CreateDir, UnpackAction::CreateCacheDir)
    }
}

/// The next step once the action waited on ended with `outcome`.
pub fn unpack_next(s: Unpacking, outcome: Result<(), String>) -> (r: UnpackStep)
    requires
        unpacking_valid(s),
    ensures
        r@ == unpack_next_spec(s, outcome_view(outcome)),
        r@ matches UnpackMove::Run(t, _) ==> unpacking_valid(t),
{
    let names = tool_file_names();
    match s {
        Unpacking::CreateDir => match outcome {
            Err(e) => UnpackStep::Done(Err(cache_dir_failed(e.as_str()))),
            Ok(_) => UnpackStep::Run(Unpacking::Write(0), UnpackAction::WriteFile(names[0].clone())),
        },
        Unpacking::Write(k) => match outcome {
            Err(e) => UnpackStep::Done(Err(write_failed(names[k].as_str(), e.as_str()))),
            Ok(_) => {
                if k + 1 < 11 {
                    UnpackStep::Run(
                        Unpacking::Write(k + 1),
                        UnpackAction::WriteFile(names[k + 1].clone()),
                    )
                } else {
                    UnpackStep::Done(Ok(()))
                }
            },
        },
    }
}

/// The files that unpacking attempts to write from state `s` when the actions
/// end with `outcomes` in turn, and how it ends (nothing when the outcomes
/// run out first).
pub open spec fn unpack_run(s: Unpacking, outcomes: Seq<Result<(), Seq<char>>>) -> (
    Seq<Seq<char>>,
    Option<Result<(), Seq<char>>>,
)
    decreases outcomes.len(),
{
    if outcomes.len() == 0 {
        (Seq::<Seq<char>>::empty(), None)
    } else {
        match unpack_next_spec(s, outcomes[0]) {
            UnpackMove::Done(r) => (Seq::<Seq<char>>::empty(), Some(r)),
            UnpackMove::Run(t, UnpackActionView::CreateCacheDir) => unpack_run(
                t,
                outcomes.drop_first(),
            ),
            UnpackMove::Run(t, UnpackActionView::WriteFile(n)) => {
                let rest = unpack_run(t, outcomes.drop_first());
                (seq![n] + rest.0, rest.1)
            },
        }
    }
}

} // verus!
