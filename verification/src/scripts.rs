//! The shell scripts run on a device to back up and restore an app's data.

use vstd::prelude::*;
use vstd::string::*;
use crate::args::str_views;

verus! {

/// `pieces` joined with `value` between each two of them.
pub open spec fn filled(pieces: Seq<Seq<char>>, value: Seq<char>) -> Seq<char>
    decreases pieces.len(),
{
    if pieces.len() == 0 {
        Seq::<char>::empty()
    } else if pieces.len() == 1 {
        pieces[0]
    } else {
        filled(pieces.drop_last(), value) + value + pieces.last()
    }
}

/// `pieces` joined with `value` between each two of them.
pub fn fill_template(pieces: &[&str], value: &str) -> (r: String)
    ensures
        r@ == filled(str_views(pieces@), value@),
{
    if pieces.len() == 0 {
        return String::new();
    }
    let mut acc = String::from_str(pieces[0]);
    assert(str_views(pieces@).take(1) =~= seq![pieces@[0]@]);
    let mut k: usize = 1;
    while k < pieces.len()
        invariant
            1 <= k <= pieces@.len(),
            acc@ == filled(str_views(pieces@).take(k as int), value@),
        decreases pieces@.len() - k,
    {
        assert(str_views(pieces@).take(k + 1).drop_last() =~= str_views(pieces@).take(k as int));
        acc.append(value);
        acc.append(pieces[k]);
        k = k + 1;
    }
    assert(str_views(pieces@).take(k as int) =~= str_views(pieces@));
    acc
}

/// The fixed text of the script that archives a package's data directories to `/sdcard/app_data_backup.tar.gz`, as root when `su` allows, and prints `BACKUP_SUCCESS` or `BACKUP_FAILED`, in the pieces between the places where the package name goes.
pub open spec fn backup_template() -> Seq<Seq<char>> {
    seq![
        "cd / && (su 0 tar -zcpf /sdcard/app_data_backup.tar.gz \\\n            /data/data/"@,
        " \\\n            /data/app/"@,
        " \\\n            /sdcard/Android/data/"@,
        " \\\n            2>/dev/null || \\\n            tar -zcpf /sdcard/app_data_backup.tar.gz \\\n            /data/data/"@,
        " \\\n            /data/app/"@,
        " \\\n            /sdcard/Android/data/"@,
        " \\\n            2>/dev/null) && echo \"BACKUP_SUCCESS\" || echo \"BACKUP_FAILED\""@,
    ]
}

/// The script that archives a package's data directories to `/sdcard/app_data_backup.tar.gz`, as root when `su` allows, and prints `BACKUP_SUCCESS` or `BACKUP_FAILED`.
pub fn backup_script(package_name: &str) -> (r: String)
    ensures
        r@ == filled(backup_template(), package_name@),
{
    let pieces = [
        "cd / && (su 0 tar -zcpf /sdcard/app_data_backup.tar.gz \\\n            /data/data/",
        " \\\n            /data/app/",
        " \\\n            /sdcard/Android/data/",
        " \\\n            2>/dev/null || \\\n            tar -zcpf /sdcard/app_data_backup.tar.gz \\\n            /data/data/",
        " \\\n            /data/app/",
        " \\\n            /sdcard/Android/data/",
        " \\\n            2>/dev/null) && echo \"BACKUP_SUCCESS\" || echo \"BACKUP_FAILED\"",
    ];
    assert(str_views(pieces@) =~= backup_template());
    fill_template(&pieces, package_name)
}

/// The text of the script that unpacks `/sdcard/app_data_restore.tar.gz` at
/// the root of the device, keeping permissions, as root when `su` allows.
pub open spec fn restore_extract_text() -> Seq<char> {
    "su 0 tar -zxvpf /sdcard/app_data_restore.tar.gz -C / 2>/dev/null || \\\n           tar -zxvpf /sdcard/app_data_restore.tar.gz -C / 2>/dev/null"@
}

/// The script that unpacks `/sdcard/app_data_restore.tar.gz` at the root of
/// the device, keeping permissions, as root when `su` allows.
pub fn restore_extract_script() -> (r: String)
    ensures
        r@ == restore_extract_text(),
{
    String::from_str("su 0 tar -zxvpf /sdcard/app_data_restore.tar.gz -C / 2>/dev/null || \\\n           tar -zxvpf /sdcard/app_data_restore.tar.gz -C / 2>/dev/null")
}

/// The fixed text of the script that restores the SELinux contexts of a package's data directories, in the pieces between the places where the package name goes.
pub open spec fn restore_selinux_template() -> Seq<Seq<char>> {
    seq![
        "su 0 restorecon -RF /data/data/"@,
        " 2>/dev/null; \\\n           su 0 restorecon -RF /data/app/"@,
        " 2>/dev/null; \\\n           su 0 restorecon -RF /sdcard/Android/data/"@,
        " 2>/dev/null; \\\n           true"@,
    ]
}

/// The script that restores the SELinux contexts of a package's data directories.
pub fn restore_selinux_script(package_name: &str) -> (r: String)
    ensures
        r@ == filled(restore_selinux_template(), package_name@),
{
    let pieces = [
        "su 0 restorecon -RF /data/data/",
        " 2>/dev/null; \\\n           su 0 restorecon -RF /data/app/",
        " 2>/dev/null; \\\n           su 0 restorecon -RF /sdcard/Android/data/",
        " 2>/dev/null; \\\n           true",
    ];
    assert(str_views(pieces@) =~= restore_selinux_template());
    fill_template(&pieces, package_name)
}

/// The fixed text of the script that gives a package's restored directories back to their owners and resets their modes, in the pieces between the places where the package name goes.
pub open spec fn restore_owner_template() -> Seq<Seq<char>> {
    seq![
        "su 0 chown -R $(ls -ld /data/data/"@,
        " 2>/dev/null | awk '{print $3\":\"$4}') /data/data/"@,
        " 2>/dev/null; \\\n           su 0 chmod -R 755 /data/data/"@,
        " 2>/dev/null; \\\n           su 0 chown -R $(ls -ld /data/app/"@,
        " 2>/dev/null | awk '{print $3\":\"$4}') /data/app/"@,
        " 2>/dev/null; \\\n           su 0 chmod -R 644 /data/app/"@,
        " 2>/dev/null; \\\n           su 0 chown -R $(ls -ld /sdcard/Android/data/"@,
        " 2>/dev/null | awk '{print $3\":\"$4}') /sdcard/Android/data/"@,
        " 2>/dev/null; \\\n           true"@,
    ]
}

/// The script that gives a package's restored directories back to their owners and resets their modes.
pub fn restore_owner_script(package_name: &str) -> (r: String)
    ensures
        r@ == filled(restore_owner_template(), package_name@),
{
    let pieces = [
        "su 0 chown -R $(ls -ld /data/data/",
        " 2>/dev/null | awk '{print $3\":\"$4}') /data/data/",
        " 2>/dev/null; \\\n           su 0 chmod -R 755 /data/data/",
        " 2>/dev/null; \\\n           su 0 chown -R $(ls -ld /data/app/",
        " 2>/dev/null | awk '{print $3\":\"$4}') /data/app/",
        " 2>/dev/null; \\\n           su 0 chmod -R 644 /data/app/",
        " 2>/dev/null; \\\n           su 0 chown -R $(ls -ld /sdcard/Android/data/",
        " 2>/dev/null | awk '{print $3\":\"$4}') /sdcard/Android/data/",
        " 2>/dev/null; \\\n           true",
    ];
    assert(str_views(pieces@) =~= restore_owner_template());
    fill_template(&pieces, package_name)
}

/// The fixed text of the script that resets the modes of the files and directories under a package's data, WebView and cache directories, in the pieces between the places where the package name goes.
pub open spec fn restore_cache_modes_template() -> Seq<Seq<char>> {
    seq![
        "su 0 find /data/data/"@,
        " -type d -exec chmod 755 {} \\; 2>/dev/null; \\\n           su 0 find /data/data/"@,
        " -type f -exec chmod 644 {} \\; 2>/dev/null; \\\n           su 0 find /data/data/"@,
        "/app_webview -type d -exec chmod 755 {} \\; 2>/dev/null; \\\n           su 0 find /data/data/"@,
        "/app_webview -type f -exec chmod 644 {} \\; 2>/dev/null; \\\n           su 0 find /data/data/"@,
        "/cache -type d -exec chmod 755 {} \\; 2>/dev/null; \\\n           su 0 find /data/data/"@,
        "/cache -type f -exec chmod 644 {} \\; 2>/dev/null; \\\n           true"@,
    ]
}

/// The script that resets the modes of the files and directories under a package's data, WebView and cache directories.
pub fn restore_cache_modes_script(package_name: &str) -> (r: String)
    ensures
        r@ == filled(restore_cache_modes_template(), package_name@),
{
    let pieces = [
        "su 0 find /data/data/",
        " -type d -exec chmod 755 {} \\; 2>/dev/null; \\\n           su 0 find /data/data/",
        " -type f -exec chmod 644 {} \\; 2>/dev/null; \\\n           su 0 find /data/data/",
        "/app_webview -type d -exec chmod 755 {} \\; 2>/dev/null; \\\n           su 0 find /data/data/",
        "/app_webview -type f -exec chmod 644 {} \\; 2>/dev/null; \\\n           su 0 find /data/data/",
        "/cache -type d -exec chmod 755 {} \\; 2>/dev/null; \\\n           su 0 find /data/data/",
        "/cache -type f -exec chmod 644 {} \\; 2>/dev/null; \\\n           true",
    ];
    assert(str_views(pieces@) =~= restore_cache_modes_template());
    fill_template(&pieces, package_name)
}

} // verus!
