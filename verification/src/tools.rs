//! Which `adb` to use, where `scrcpy` is, and the decisions around opening a
//! shell window and starting a screen mirror.

use vstd::prelude::*;
use vstd::string::*;
use crate::args::{owned_strings, str_views};
use crate::command::CommandResult;
use crate::text::views;

verus! {

/// The `scrcpy` executable that was unpacked, from what looking for it found:
/// nothing when the bundled tools could not be unpacked (`None`), otherwise
/// the path where it should be and whether a file is there.
pub fn find_scrcpy_internal(probe: Option<(String, bool)>) -> (r: Option<String>)
    ensures
        match probe {
            Some((path, true)) => r matches Some(p) && p@ == path@,
            _ => r is None,
        },
{
    match probe {
        Some((path, exists)) => if exists {
            Some(path)
        } else {
            None
        },
        None => None,
    }
}

/// The `adb` executable chosen for running commands, if any.
pub struct AdbSettings {
    pub adb_path: Option<String>,
}

/// The view of an optional string.
pub open spec fn opt_view(o: Option<String>) -> Option<Seq<char>> {
    match o {
        Some(s) => Some(s@),
        None => None,
    }
}

/// Where the `adb` to use comes from: the one already chosen, or the bundled
/// one, which must first be unpacked.
pub enum AdbLookup {
    Chosen(String),
    UnpackBundled,
}

impl AdbSettings {
    /// Whether an `adb` is already chosen, in which case it is used as it is
    /// and nothing is unpacked.
    pub fn lookup_adb(&self) -> (r: AdbLookup)
        ensures
            match r {
                AdbLookup::Chosen(p) => opt_view(self.adb_path) == Some(p@),
                AdbLookup::UnpackBundled => self.adb_path is None,
            },
    {
        match &self.adb_path {
            Some(p) => AdbLookup::Chosen(p.clone()),
            None => AdbLookup::UnpackBundled,
        }
    }

    /// No `adb` chosen yet.
    pub fn new() -> (r: AdbSettings)
        ensures
            r.adb_path is None,
    {
        AdbSettings { adb_path: None }
    }

    /// The chosen `adb`.
    pub fn get_adb_path(&self) -> (r: Option<String>)
        ensures
            opt_view(r) == opt_view(self.adb_path),
    {
        match &self.adb_path {
            Some(p) => Some(p.clone()),
            None => None,
        }
    }

    /// Choose `path` as the `adb` to use if a file is there (`exists`), and
    /// say whether it was chosen; otherwise nothing changes.
    pub fn set_adb_path(&mut self, path: String, exists: bool) -> (chosen: bool)
        ensures
            chosen == exists,
            exists ==> opt_view(final(self).adb_path) == Some(path@),
            !exists ==> opt_view(final(self).adb_path) == opt_view(old(self).adb_path),
    {
        if exists {
            self.adb_path = Some(path);
            true
        } else {
            false
        }
    }

    /// Adopt the bundled `adb` when looking for it found one: `probe` is
    /// nothing when the bundled tools could not be unpacked, otherwise the
    /// path where it should be and whether a file is there. Returns the
    /// adopted path.
    pub fn adopt_bundled_adb(&mut self, probe: Option<(String, bool)>) -> (r: Option<String>)
        ensures
            match probe {
                Some((path, true)) => opt_view(r) == Some(path@) && opt_view(
                    final(self).adb_path,
                ) == Some(path@),
                _ => r is None && opt_view(final(self).adb_path) == opt_view(
                    old(self).adb_path,
                ),
            },
    {
        match probe {
            Some((path, exists)) => {
                if exists {
                    let kept = path.clone();
                    self.adb_path = Some(path);
                    Some(kept)
                } else {
                    None
                }
            },
            None => None,
        }
    }

    /// The `adb` to run a command with, or the "ADB not found" result when
    /// none is chosen.
    pub fn adb_for_command(&self) -> (r: Result<String, CommandResult>)
        ensures
            match r {
                Ok(p) => opt_view(self.adb_path) == Some(p@),
                Err(e) => self.adb_path is None && !e.success && e.output@ == "ADB not found"@,
            },
    {
        match &self.adb_path {
            Some(p) => Ok(p.clone()),
            None => Err(crate::command::adb_not_found()),
        }
    }
}

/// The arguments of `cmd` that open a console window running
/// `<adb> -s <device> shell`.
pub open spec fn shell_window_argv(adb_path: Seq<char>, device_id: Seq<char>) -> Seq<Seq<char>> {
    seq!["/c"@, "start"@, "cmd"@, "/k"@, adb_path, "-s"@, device_id, "shell"@]
}

/// The arguments of `cmd` for a shell window on a device, or the failure
/// "ADB路径未设置" when no `adb` is chosen or its path is empty.
pub fn shell_window_args(adb_path: &Option<String>, device_id: &str) -> (r: Result<
    Vec<String>,
    CommandResult,
>)
    ensures
        match r {
            Ok(v) => adb_path matches Some(p) && p@.len() > 0 && views(v@) == shell_window_argv(
                p@,
                device_id@,
            ),
            Err(e) => (adb_path is None || adb_path.unwrap()@.len() == 0) && !e.success
                && e.output@ == "ADB路径未设置"@,
        },
{
    match adb_path {
        Some(p) => {
            if p.as_str().is_empty() {
                Err(CommandResult::failed("ADB路径未设置"))
            } else {
                let parts = ["/c", "start", "cmd", "/k", p.as_str(), "-s", device_id, "shell"];
                let v = owned_strings(&parts);
                assert(views(v@) == shell_window_argv(p@, device_id@));
                Ok(v)
            }
        },
        None => Err(CommandResult::failed("ADB路径未设置")),
    }
}

/// The result of opening a shell window on a device.
pub fn shell_window_opened(device_id: &str) -> (r: CommandResult)
    ensures
        r.success,
        r.output@ == "已打开 ADB Shell 到 "@ + device_id@,
{
    let mut out = String::from_str("已打开 ADB Shell 到 ");
    out.append(device_id);
    CommandResult { success: true, output: out }
}

/// The title of the window that mirrors a device's screen.
pub open spec fn mirror_title(device_id: Seq<char>) -> Seq<char> {
    "屏幕镜像 - "@ + device_id
}

/// The arguments of `scrcpy` that mirror a device's screen.
pub open spec fn mirror_argv(device_id: Seq<char>) -> Seq<Seq<char>> {
    seq!["-s"@, device_id, "--window-title"@, mirror_title(device_id)]
}

/// What starting a screen mirror reports, from whether the program's
/// directory is known, whether `scrcpy` was found, and, when both are, how
/// starting it went.
pub open spec fn mirror_report(
    program_dir_known: bool,
    scrcpy_found: bool,
    spawned: Result<(), Seq<char>>,
) -> (bool, Seq<char>) {
    if !program_dir_known {
        (false, "无法获取程序目录"@)
    } else if !scrcpy_found {
        (false, "未找到 scrcpy.exe，请确保 scrcpy 文件夹在程序目录下"@)
    } else {
        match spawned {
            Ok(_) => (true, "屏幕镜像已启动"@),
            Err(reason) => (false, "启动失败: "@ + reason),
        }
    }
}

/// How to start mirroring a device's screen, from what was found: whether
/// the program's directory is known, and the `scrcpy` found there. Gives the
/// program and its arguments, or the failure "无法获取程序目录" without the
/// directory, or the failure "未找到 scrcpy.exe，请确保 scrcpy 文件夹在程序目录下"
/// without `scrcpy`.
pub fn mirror_launch(program_dir_known: bool, scrcpy: Option<String>, device_id: &str) -> (r:
    Result<(String, Vec<String>), CommandResult>)
    ensures
        match r {
            Ok((program, argv)) => {
                &&& program_dir_known
                &&& scrcpy matches Some(s) && program@ == s@
                &&& views(argv@) == mirror_argv(device_id@)
            },
            Err(e) => e@ == mirror_report(program_dir_known, scrcpy is Some, Ok(())) && !e.success
                && if !program_dir_known {
                e.output@ == "无法获取程序目录"@
            } else {
                scrcpy is None && e.output@ == "未找到 scrcpy.exe，请确保 scrcpy 文件夹在程序目录下"@
            },
        },
{
    if !program_dir_known {
        return Err(CommandResult::failed("无法获取程序目录"));
    }
    match scrcpy {
        None => Err(CommandResult::failed("未找到 scrcpy.exe，请确保 scrcpy 文件夹在程序目录下")),
        Some(program) => {
            let mut title = String::from_str("屏幕镜像 - ");
            title.append(device_id);
            let mut argv: Vec<String> = Vec::new();
            argv.push(String::from_str("-s"));
            argv.push(String::from_str(device_id));
            argv.push(String::from_str("--window-title"));
            argv.push(title);
            assert(views(argv@) =~= mirror_argv(device_id@));
            Ok((program, argv))
        },
    }
}

/// The result of starting the mirror: "屏幕镜像已启动", or "启动失败: "
/// followed by the reason it could not be started.
pub fn mirror_started(spawned: Result<(), String>) -> (r: CommandResult)
    ensures
        r@ == mirror_report(
            true,
            true,
            match spawned {
                Ok(_) => Ok(()),
                Err(reason) => Err(reason@),
            },
        ),
        match spawned {
            Ok(_) => r.success && r.output@ == "屏幕镜像已启动"@,
            Err(reason) => !r.success && r.output@ == "启动失败: "@ + reason@,
        },
{
    match spawned {
        Ok(_) => CommandResult::succeeded("屏幕镜像已启动"),
        Err(reason) => {
            let mut out = String::from_str("启动失败: ");
            out.append(reason.as_str());
            CommandResult { success: false, output: out }
        },
    }
}

/// The reason the bundled tools could not be unpacked when their directory
/// could not be created; `reason` describes the failure.
pub fn cache_dir_failed(reason: &str) -> (r: String)
    ensures
        r@ == "创建缓存目录失败: "@ + reason@,
{
    let mut out = String::from_str("创建缓存目录失败: ");
    out.append(reason);
    out
}

/// The reason the bundled tools could not be unpacked when the file
/// `file_name` could not be written; `reason` describes the failure.
pub fn write_failed(file_name: &str, reason: &str) -> (r: String)
    ensures
        r@ == "写入"@ + file_name@ + "失败: "@ + reason@,
{
    let mut out = String::from_str("写入");
    out.append(file_name);
    out.append("失败: ");
    out.append(reason);
    out
}

/// The result when the package file to install is not there.
pub fn apk_missing(apk_path: &str) -> (r: CommandResult)
    ensures
        !r.success,
        r.output@ == "APK file not found: "@ + apk_path@,
{
    let mut out = String::from_str("APK file not found: ");
    out.append(apk_path);
    CommandResult { success: false, output: out }
}

/// The result when the local file to upload is not there.
pub fn local_file_missing(local_path: &str) -> (r: CommandResult)
    ensures
        !r.success,
        r.output@ == "Local file not found: "@ + local_path@,
{
    let mut out = String::from_str("Local file not found: ");
    out.append(local_path);
    CommandResult { success: false, output: out }
}

} // verus!
