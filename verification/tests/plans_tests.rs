use android_tools::backup::{backup_args, BackupPull};
use android_tools::command::CommandResult;
use android_tools::deletion::Deletion;
use android_tools::restore::Restore;
use android_tools::scripts::{
    backup_script, restore_cache_modes_script, restore_extract_script, restore_owner_script,
    restore_selinux_script,
};
use android_tools::step::Step;
use android_tools::uninstall::Uninstall;

fn v(parts: &[&str]) -> Vec<String> {
    parts.iter().map(|p| p.to_string()).collect()
}

fn res(success: bool, text: &str) -> CommandResult {
    CommandResult { success, output: text.to_string() }
}

fn run<T>(step: Step<T>) -> (T, Vec<String>) {
    match step {
        Step::Run(t, argv) => (t, argv),
        Step::Finish(_) => panic!("finished early"),
    }
}

fn finish<T>(step: Step<T>) -> CommandResult {
    match step {
        Step::Finish(r) => r,
        Step::Run(_, argv) => panic!("still running: {:?}", argv),
    }
}

#[test]
fn uninstall_first_try_succeeds() {
    let (u, argv) = Uninstall::start("d1", "com.x");
    assert_eq!(argv, v(&["-s", "d1", "uninstall", "--user", "0", "com.x"]));
    let r = finish(u.advance(res(true, "Success")));
    assert!(r.success);
    assert_eq!(r.output, "Success");
}

#[test]
fn uninstall_falls_back_for_all_users() {
    let (u, _) = Uninstall::start("d1", "com.x");
    let (u, argv) = run(u.advance(res(false, "Failure [DELETE_FAILED_USER_RESTRICTED]")));
    assert_eq!(argv, v(&["-s", "d1", "uninstall", "com.x"]));
    let r = finish(u.advance(res(false, "Failure")));
    assert!(!r.success);
    assert_eq!(r.output, "Failure");
}

#[test]
fn deletion_of_absent_path() {
    let (d, argv) = Deletion::start("d1", "/sdcard/x");
    assert_eq!(
        argv,
        v(&["-s", "d1", "shell", "test", "-e", "/sdcard/x", "&&", "echo", "EXISTS", "||", "echo", "NOT_EXISTS"])
    );
    let r = finish(d.advance(res(true, "NOT_EXISTS\n")));
    assert!(!r.success);
    assert_eq!(r.output, "文件或文件夹不存在");
}

#[test]
fn deletion_of_directory() {
    let (d, _) = Deletion::start("d1", "/sdcard/dir");
    let (d, argv) = run(d.advance(res(true, "EXISTS")));
    assert_eq!(
        argv,
        v(&["-s", "d1", "shell", "test", "-d", "/sdcard/dir", "&&", "echo", "IS_DIR", "||", "echo", "IS_FILE"])
    );
    let (d, argv) = run(d.advance(res(true, "IS_DIR")));
    assert_eq!(argv, v(&["-s", "d1", "shell", "rm", "-rf", "/sdcard/dir"]));
    let (d, argv) = run(d.advance(res(true, "")));
    assert_eq!(
        argv,
        v(&["-s", "d1", "shell", "test", "-e", "/sdcard/dir", "&&", "echo", "EXISTS", "||", "echo", "DELETED"])
    );
    let r = finish(d.advance(res(true, "DELETED")));
    assert!(r.success);
    assert_eq!(r.output, "文件夹删除成功");
}

#[test]
fn deletion_of_file_and_failures() {
    let (d, _) = Deletion::start("d1", "/f");
    let (d, _) = run(d.advance(res(false, "error: device offline")));
    let (d, argv) = run(d.advance(res(true, "IS_FILE")));
    assert_eq!(argv, v(&["-s", "d1", "shell", "rm", "-f", "/f"]));
    let (d, _) = run(d.advance(res(true, "")));
    let r = finish(d.advance(res(true, "DELETED")));
    assert_eq!(r.output, "文件删除成功");

    let (d, _) = Deletion::start("d1", "/f");
    let (d, _) = run(d.advance(res(true, "EXISTS")));
    let (d, _) = run(d.advance(res(true, "IS_FILE")));
    let (d, _) = run(d.advance(res(false, "rm: /f: Permission denied")));
    let r = finish(d.advance(res(true, "EXISTS")));
    assert!(!r.success);
    assert_eq!(r.output, "rm: /f: Permission denied");

    let (d, _) = Deletion::start("d1", "/f");
    let (d, _) = run(d.advance(res(true, "EXISTS")));
    let (d, _) = run(d.advance(res(true, "IS_FILE")));
    let (d, _) = run(d.advance(res(true, "")));
    let r = finish(d.advance(res(true, "EXISTS")));
    assert!(!r.success);
    assert_eq!(r.output, "删除失败");
}

#[test]
fn backup_script_text() {
    let package = "com.example.app";
    let expected = format!(
        r#"cd / && (su 0 tar -zcpf /sdcard/app_data_backup.tar.gz \
            /data/data/{package} \
            /data/app/{package} \
            /sdcard/Android/data/{package} \
            2>/dev/null || \
            tar -zcpf /sdcard/app_data_backup.tar.gz \
            /data/data/{package} \
            /data/app/{package} \
            /sdcard/Android/data/{package} \
            2>/dev/null) && echo "BACKUP_SUCCESS" || echo "BACKUP_FAILED""#,
        package = package
    );
    assert_eq!(backup_script(package), expected);
    assert_eq!(backup_args("d1", package), vec!["-s".to_string(), "d1".to_string(), "shell".to_string(), expected]);
}

#[test]
fn restore_script_texts() {
    let package = "com.example.app";
    let extract = format!(
        r#"su 0 tar -zxvpf /sdcard/app_data_restore.tar.gz -C / 2>/dev/null || \
           tar -zxvpf /sdcard/app_data_restore.tar.gz -C / 2>/dev/null"#,
    );
    let selinux = format!(
        r#"su 0 restorecon -RF /data/data/{package} 2>/dev/null; \
           su 0 restorecon -RF /data/app/{package} 2>/dev/null; \
           su 0 restorecon -RF /sdcard/Android/data/{package} 2>/dev/null; \
           true"#,
        package = package
    );
    let chown = format!(
        r#"su 0 chown -R $(ls -ld /data/data/{package} 2>/dev/null | awk '{{print $3":"$4}}') /data/data/{package} 2>/dev/null; \
           su 0 chmod -R 755 /data/data/{package} 2>/dev/null; \
           su 0 chown -R $(ls -ld /data/app/{package} 2>/dev/null | awk '{{print $3":"$4}}') /data/app/{package} 2>/dev/null; \
           su 0 chmod -R 644 /data/app/{package} 2>/dev/null; \
           su 0 chown -R $(ls -ld /sdcard/Android/data/{package} 2>/dev/null | awk '{{print $3":"$4}}') /sdcard/Android/data/{package} 2>/dev/null; \
           true"#,
        package = package
    );
    let fix_cache = format!(
        r#"su 0 find /data/data/{package} -type d -exec chmod 755 {{}} \; 2>/dev/null; \
           su 0 find /data/data/{package} -type f -exec chmod 644 {{}} \; 2>/dev/null; \
           su 0 find /data/data/{package}/app_webview -type d -exec chmod 755 {{}} \; 2>/dev/null; \
           su 0 find /data/data/{package}/app_webview -type f -exec chmod 644 {{}} \; 2>/dev/null; \
           su 0 find /data/data/{package}/cache -type d -exec chmod 755 {{}} \; 2>/dev/null; \
           su 0 find /data/data/{package}/cache -type f -exec chmod 644 {{}} \; 2>/dev/null; \
           true"#,
        package = package
    );
    assert_eq!(restore_extract_script(), extract);
    assert_eq!(restore_selinux_script(package), selinux);
    assert_eq!(restore_owner_script(package), chown);
    assert_eq!(restore_cache_modes_script(package), fix_cache);
}

#[test]
fn backup_pull_always_cleans_up() {
    let (p, argv) = BackupPull::start("d1", "C:/backup.tar.gz");
    assert_eq!(argv, v(&["-s", "d1", "pull", "/sdcard/app_data_backup.tar.gz", "C:/backup.tar.gz"]));
    let (p, argv) = run(p.advance(res(false, "remote object does not exist")));
    assert_eq!(argv, v(&["-s", "d1", "shell", "rm", "-f", "/sdcard/app_data_backup.tar.gz"]));
    let r = finish(p.advance(res(true, "")));
    assert!(!r.success);
    assert_eq!(r.output, "remote object does not exist");
}

#[test]
fn restore_stops_when_copy_fails() {
    let (s, argv) = Restore::start("d1", "C:/b.tar.gz", "com.x");
    assert_eq!(argv, v(&["-s", "d1", "push", "C:/b.tar.gz", "/sdcard/app_data_restore.tar.gz"]));
    let r = finish(s.advance(res(false, "no such file")));
    assert!(!r.success);
    assert_eq!(r.output, "no such file");
}

#[test]
fn restore_runs_every_step() {
    let (s, _) = Restore::start("d1", "b.tar.gz", "com.x");
    let (s, a1) = run(s.advance(res(true, "1 file pushed")));
    assert_eq!(a1, vec!["-s".to_string(), "d1".to_string(), "shell".to_string(), restore_extract_script()]);
    let (s, a2) = run(s.advance(res(false, "tar: error")));
    assert_eq!(a2[3], restore_selinux_script("com.x"));
    let (s, a3) = run(s.advance(res(true, "")));
    assert_eq!(a3[3], restore_owner_script("com.x"));
    let (s, a4) = run(s.advance(res(true, "")));
    assert_eq!(a4[3], restore_cache_modes_script("com.x"));
    let (s, a5) = run(s.advance(res(false, "")));
    assert_eq!(a5, v(&["-s", "d1", "shell", "rm", "-f", "/sdcard/app_data_restore.tar.gz"]));
    let r = finish(s.advance(res(false, "")));
    assert!(r.success);
    assert_eq!(r.output, "恢复完成（包含 WebView 缓存）");
}
