//! The argument lists handed to `adb` for each operation on a device.

use vstd::prelude::*;
use vstd::string::*;
use crate::text::{views, trim, words, trim_str, split_words};
use crate::command::CommandResult;

verus! {

/// The views of a list of string slices.
pub open spec fn str_views(v: Seq<&str>) -> Seq<Seq<char>> {
    v.map_values(|x: &str| x@)
}

/// Owned copies of `parts`, in order.
pub fn owned_strings(parts: &[&str]) -> (r: Vec<String>)
    ensures
        views(r@) == str_views(parts@),
{
    let mut r: Vec<String> = Vec::new();
    let mut k: usize = 0;
    while k < parts.len()
        invariant
            k <= parts@.len(),
            views(r@) =~= str_views(parts@.take(k as int)),
        decreases parts@.len() - k,
    {
        let ghost before = views(r@);
        r.push(String::from_str(parts[k]));
        assert(views(r@) =~= before.push(parts@[k as int]@));
        assert(str_views(parts@.take(k + 1)) =~= str_views(parts@.take(k as int)).push(parts@[k as int]@));
        k = k + 1;
    }
    assert(parts@.take(k as int) =~= parts@);
    r
}

/// The decimal digit for `d`, which is below ten.
pub open spec fn digit_char(d: int) -> char {
    seq!['0', '1', '2', '3', '4', '5', '6', '7', '8', '9'][d]
}

/// The decimal numeral of `n`, without leading zeros.
pub open spec fn decimal(n: nat) -> Seq<char>
    decreases n,
{
    if n < 10 {
        seq![digit_char(n as int)]
    } else {
        decimal(n / 10) + seq![digit_char((n % 10) as int)]
    }
}

/// The decimal numeral of `n`.
pub fn decimal_string(n: u16) -> (r: String)
    ensures
        r@ == decimal(n as nat),
{
    let digits = "0123456789";
    proof {
        reveal_strlit("0123456789");
        assert(digits@ =~= seq!['0', '1', '2', '3', '4', '5', '6', '7', '8', '9']);
    }
    let d = (n % 10) as usize;
    let mut acc = String::from_str(digits.substring_char(d, d + 1));
    assert(acc@ =~= seq![digit_char(d as int)]);
    let mut m = n / 10;
    while m > 0
        invariant
            digits@ == seq!['0', '1', '2', '3', '4', '5', '6', '7', '8', '9'],
            m > 0 ==> decimal(n as nat) == decimal(m as nat) + acc@,
            m == 0 ==> decimal(n as nat) == acc@,
        decreases m,
    {
        let d = (m % 10) as usize;
        let mut next = String::from_str(digits.substring_char(d, d + 1));
        assert(next@ =~= seq![digit_char(d as int)]);
        let ghost old_acc = acc@;
        next.append(acc.as_str());
        acc = next;
        assert(acc@ =~= seq![digit_char(d as int)] + old_acc);
        m = m / 10;
    }
    acc
}

/// `<ip>:<port>`, the address `adb connect` and `adb disconnect` take.
pub open spec fn address(ip: Seq<char>, port: nat) -> Seq<char> {
    ip + ":"@ + decimal(port)
}

/// The address of a device reached over the network.
pub fn device_address(ip: &str, port: u16) -> (r: String)
    ensures
        r@ == address(ip@, port as nat),
{
    let mut r = String::from_str(ip);
    r.append(":");
    let p = decimal_string(port);
    r.append(p.as_str());
    r
}

/// `adb connect <ip>:<port>`.
pub fn connect_args(ip: &str, port: u16) -> (r: Vec<String>)
    ensures
        views(r@) == seq!["connect"@, address(ip@, port as nat)],
{
    let mut r: Vec<String> = Vec::new();
    r.push(String::from_str("connect"));
    r.push(device_address(ip, port));
    assert(views(r@) =~= seq!["connect"@, address(ip@, port as nat)]);
    r
}

/// The port used for a network device when none is given.
pub const DEFAULT_ADB_PORT: u16 = 5555;

/// `adb disconnect <ip>:<port>` for one device, the port defaulting to 5555,
/// or `adb disconnect` for all of them when no address is given.
pub fn disconnect_args(ip: Option<&str>, port: Option<u16>) -> (r: Vec<String>)
    ensures
        views(r@) == match ip {
            Some(ip) => seq![
                "disconnect"@,
                address(
                    ip@,
                    match port {
                        Some(p) => p as nat,
                        None => 5555,
                    },
                ),
            ],
            None => seq!["disconnect"@],
        },
{
    let mut r: Vec<String> = Vec::new();
    r.push(String::from_str("disconnect"));
    match ip {
        Some(ip) => {
            let p = match port {
                Some(p) => p,
                None => DEFAULT_ADB_PORT,
            };
            r.push(device_address(ip, p));
        },
        None => {},
    }
    assert(views(r@) =~= match ip {
        Some(ip) => seq![
            "disconnect"@,
            address(
                ip@,
                match port {
                    Some(p) => p as nat,
                    None => 5555,
                },
            ),
        ],
        None => seq!["disconnect"@],
    });
    r
}

/// `adb devices -l`: list the attached devices, with details.
pub fn devices_args() -> (r: Vec<String>)
    ensures
        views(r@) == seq!["devices"@, "-l"@],
{
    let parts = ["devices", "-l"];
    owned_strings(&parts)
}

/// The arguments of `adb -s <device> shell getprop ro.product.model`.
pub open spec fn model_query_argv(device_id: Seq<char>) -> Seq<Seq<char>> {
    seq!["-s"@, device_id, "shell"@, "getprop"@, "ro.product.model"@]
}

/// `adb -s <device> shell getprop ro.product.model`: ask a device its model.
pub fn model_query_args(device_id: &str) -> (r: Vec<String>)
    ensures
        views(r@) == model_query_argv(device_id@),
{
    let parts = ["-s", device_id, "shell", "getprop", "ro.product.model"];
    owned_strings(&parts)
}

/// `adb -s <device> install -r <apk>`: install or replace a package.
pub fn install_args(device_id: &str, apk_path: &str) -> (r: Vec<String>)
    ensures
        views(r@) == seq!["-s"@, device_id@, "install"@, "-r"@, apk_path@],
{
    let parts = ["-s", device_id, "install", "-r", apk_path];
    owned_strings(&parts)
}

/// The arguments of `adb -s <device> uninstall [--user 0] <package>`.
pub open spec fn uninstall_argv(device_id: Seq<char>, package_name: Seq<char>, primary_user_only: bool) -> Seq<Seq<char>> {
    if primary_user_only {
        seq!["-s"@, device_id, "uninstall"@, "--user"@, "0"@, package_name]
    } else {
        seq!["-s"@, device_id, "uninstall"@, package_name]
    }
}

/// `adb -s <device> uninstall [--user 0] <package>`: remove a package, for the
/// primary user when `primary_user_only` is set.
pub fn uninstall_args(device_id: &str, package_name: &str, primary_user_only: bool) -> (r: Vec<
    String,
>)
    ensures
        views(r@) == uninstall_argv(device_id@, package_name@, primary_user_only),
{
    if primary_user_only {
        let parts = ["-s", device_id, "uninstall", "--user", "0", package_name];
        owned_strings(&parts)
    } else {
        let parts = ["-s", device_id, "uninstall", package_name];
        owned_strings(&parts)
    }
}

/// A change to, or a query of, the screen overscan that hides the bars.
pub enum BarCommand {
    HideStatusBar,
    ShowStatusBar,
    HideNavigationBar,
    ShowNavigationBar,
    HideBothBars,
    ShowBothBars,
}

/// The overscan insets (`left,top,right,bottom`) that each command sets.
pub open spec fn overscan_setting(b: BarCommand) -> Seq<char> {
    match b {
        BarCommand::HideStatusBar => "0,-50,0,0"@,
        BarCommand::ShowStatusBar => "0,0,0,0"@,
        BarCommand::HideNavigationBar => "0,0,0,-100"@,
        BarCommand::ShowNavigationBar => "0,0,0,0"@,
        BarCommand::HideBothBars => "0,-50,0,-100"@,
        BarCommand::ShowBothBars => "0,0,0,0"@,
    }
}

/// `adb -s <device> shell wm overscan <insets>`: hide or show the bars.
pub fn overscan_args(device_id: &str, command: BarCommand) -> (r: Vec<String>)
    ensures
        views(r@) == seq![
            "-s"@,
            device_id@,
            "shell"@,
            "wm"@,
            "overscan"@,
            overscan_setting(command),
        ],
{
    let setting = match command {
        BarCommand::HideStatusBar => "0,-50,0,0",
        BarCommand::ShowStatusBar => "0,0,0,0",
        BarCommand::HideNavigationBar => "0,0,0,-100",
        BarCommand::ShowNavigationBar => "0,0,0,0",
        BarCommand::HideBothBars => "0,-50,0,-100",
        BarCommand::ShowBothBars => "0,0,0,0",
    };
    let parts = ["-s", device_id, "shell", "wm", "overscan", setting];
    owned_strings(&parts)
}

/// `adb -s <device> shell wm overscan`: report the current overscan.
pub fn bar_status_args(device_id: &str) -> (r: Vec<String>)
    ensures
        views(r@) == seq!["-s"@, device_id@, "shell"@, "wm"@, "overscan"@],
{
    let parts = ["-s", device_id, "shell", "wm", "overscan"];
    owned_strings(&parts)
}

/// The arguments of `adb -s <device> push <local> <remote>`.
pub open spec fn push_argv(device_id: Seq<char>, local_path: Seq<char>, remote_path: Seq<char>) -> Seq<Seq<char>> {
    seq!["-s"@, device_id, "push"@, local_path, remote_path]
}

/// `adb -s <device> push <local> <remote>`: copy a file to the device.
pub fn push_args(device_id: &str, local_path: &str, remote_path: &str) -> (r: Vec<String>)
    ensures
        views(r@) == push_argv(device_id@, local_path@, remote_path@),
{
    let parts = ["-s", device_id, "push", local_path, remote_path];
    owned_strings(&parts)
}

/// The arguments of `adb -s <device> pull <remote> <local>`.
pub open spec fn pull_argv(device_id: Seq<char>, remote_path: Seq<char>, local_path: Seq<char>) -> Seq<Seq<char>> {
    seq!["-s"@, device_id, "pull"@, remote_path, local_path]
}

/// `adb -s <device> pull <remote> <local>`: copy a file from the device.
pub fn pull_args(device_id: &str, remote_path: &str, local_path: &str) -> (r: Vec<String>)
    ensures
        views(r@) == pull_argv(device_id@, remote_path@, local_path@),
{
    let parts = ["-s", device_id, "pull", remote_path, local_path];
    owned_strings(&parts)
}

/// `adb -s <device> shell ls -la <path>`: list a directory on the device.
pub fn list_directory_args(device_id: &str, path: &str) -> (r: Vec<String>)
    ensures
        views(r@) == seq!["-s"@, device_id@, "shell"@, "ls"@, "-la"@, path@],
{
    let parts = ["-s", device_id, "shell", "ls", "-la", path];
    owned_strings(&parts)
}

/// `adb -s <device> shell reboot`.
pub fn reboot_args(device_id: &str) -> (r: Vec<String>)
    ensures
        views(r@) == seq!["-s"@, device_id@, "shell"@, "reboot"@],
{
    let parts = ["-s", device_id, "shell", "reboot"];
    owned_strings(&parts)
}

/// The arguments of `adb -s <device> shell <script>`.
pub open spec fn shell_argv(device_id: Seq<char>, script: Seq<char>) -> Seq<Seq<char>> {
    seq!["-s"@, device_id, "shell"@, script]
}

/// `adb -s <device> shell <script>`: run one shell command line on the device.
pub fn shell_args(device_id: &str, script: &str) -> (r: Vec<String>)
    ensures
        views(r@) == shell_argv(device_id@, script@),
{
    let parts = ["-s", device_id, "shell", script];
    owned_strings(&parts)
}

/// `adb -s <device> shell dumpsys window | grep mCurrentFocus`: ask which
/// window has the focus.
pub fn focus_query_args(device_id: &str) -> (r: Vec<String>)
    ensures
        views(r@) == seq![
            "-s"@,
            device_id@,
            "shell"@,
            "dumpsys"@,
            "window"@,
            "|"@,
            "grep"@,
            "mCurrentFocus"@,
        ],
{
    let parts = ["-s", device_id, "shell", "dumpsys", "window", "|", "grep", "mCurrentFocus"];
    owned_strings(&parts)
}

/// The arguments for a command line typed by the user against one device:
/// `-s <device>` followed by the words of the line. A line without words is
/// refused with the message "命令不能为空".
pub fn user_command_args(device_id: &str, command: &str) -> (r: Result<Vec<String>, CommandResult>)
    ensures
        match r {
            Ok(v) => words(trim(command@)).len() > 0 && views(v@) == seq!["-s"@, device_id@]
                + words(trim(command@)),
            Err(e) => words(trim(command@)).len() == 0 && !e.success && e.output@
                == "命令不能为空"@,
        },
{
    let trimmed = trim_str(command);
    let parts = split_words(trimmed.as_str());
    if parts.len() == 0 {
        return Err(CommandResult::failed("命令不能为空"));
    }
    let mut r: Vec<String> = Vec::new();
    r.push(String::from_str("-s"));
    r.push(String::from_str(device_id));
    let mut k: usize = 0;
    while k < parts.len()
        invariant
            k <= parts@.len(),
            views(r@) =~= seq!["-s"@, device_id@] + views(parts@).take(k as int),
        decreases parts@.len() - k,
    {
        let ghost before = views(r@);
        r.push(parts[k].clone());
        assert(views(r@) =~= before.push(parts@[k as int]@));
        assert(views(parts@).take(k + 1) =~= views(parts@).take(k as int).push(parts@[k as int]@));
        k = k + 1;
    }
    assert(views(parts@).take(k as int) =~= views(parts@));
    Ok(r)
}

} // verus!
