use android_tools::tools::{cache_dir_failed, write_failed};
use android_tools::tools::{
    apk_missing, find_scrcpy_internal, local_file_missing, mirror_launch, mirror_started,
    shell_window_args, shell_window_opened, AdbSettings,
};

#[test]
fn scrcpy_only_when_present() {
    assert_eq!(find_scrcpy_internal(Some(("C:/t/scrcpy.exe".to_string(), true))), Some("C:/t/scrcpy.exe".to_string()));
    assert_eq!(find_scrcpy_internal(Some(("C:/t/scrcpy.exe".to_string(), false))), None);
    assert_eq!(find_scrcpy_internal(None), None);
}

#[test]
fn adb_settings() {
    let mut s = AdbSettings::new();
    assert_eq!(s.get_adb_path(), None);
    let e = s.adb_for_command().err().unwrap();
    assert_eq!(e.output, "ADB not found");
    assert!(!s.set_adb_path("C:/nowhere/adb.exe".to_string(), false));
    assert_eq!(s.get_adb_path(), None);
    assert!(s.set_adb_path("C:/adb.exe".to_string(), true));
    assert_eq!(s.get_adb_path(), Some("C:/adb.exe".to_string()));
    assert_eq!(s.adb_for_command().ok(), Some("C:/adb.exe".to_string()));
    assert_eq!(s.adopt_bundled_adb(Some(("C:/cache/adb.exe".to_string(), false))), None);
    assert_eq!(s.get_adb_path(), Some("C:/adb.exe".to_string()));
    assert_eq!(s.adopt_bundled_adb(Some(("C:/cache/adb.exe".to_string(), true))), Some("C:/cache/adb.exe".to_string()));
    assert_eq!(s.get_adb_path(), Some("C:/cache/adb.exe".to_string()));
}

#[test]
fn shell_window() {
    let argv = shell_window_args(&Some("C:/adb.exe".to_string()), "d1").ok().unwrap();
    assert_eq!(argv, ["/c", "start", "cmd", "/k", "C:/adb.exe", "-s", "d1", "shell"].map(String::from).to_vec());
    assert_eq!(shell_window_args(&None, "d1").err().unwrap().output, "ADB路径未设置");
    assert_eq!(shell_window_args(&Some(String::new()), "d1").err().unwrap().output, "ADB路径未设置");
    let r = shell_window_opened("d1");
    assert!(r.success);
    assert_eq!(r.output, "已打开 ADB Shell 到 d1");
}

#[test]
fn mirror() {
    let (program, argv) = mirror_launch(true, Some("C:/scrcpy.exe".to_string()), "d1").ok().unwrap();
    assert_eq!(program, "C:/scrcpy.exe");
    assert_eq!(argv, ["-s", "d1", "--window-title", "屏幕镜像 - d1"].map(String::from).to_vec());
    assert_eq!(mirror_launch(false, Some("x".to_string()), "d1").err().unwrap().output, "无法获取程序目录");
    assert_eq!(
        mirror_launch(true, None, "d1").err().unwrap().output,
        "未找到 scrcpy.exe，请确保 scrcpy 文件夹在程序目录下"
    );
    let ok = mirror_started(Ok(()));
    assert!(ok.success);
    assert_eq!(ok.output, "屏幕镜像已启动");
    let bad = mirror_started(Err("not found".to_string()));
    assert!(!bad.success);
    assert_eq!(bad.output, "启动失败: not found");
}

#[test]
fn missing_files() {
    assert_eq!(apk_missing("a.apk").output, "APK file not found: a.apk");
    assert_eq!(local_file_missing("x").output, "Local file not found: x");
    assert!(!apk_missing("a").success && !local_file_missing("a").success);
}

use android_tools::tools::AdbLookup;

#[test]
fn chosen_adb_needs_no_unpacking() {
    let mut s = AdbSettings::new();
    assert!(matches!(s.lookup_adb(), AdbLookup::UnpackBundled));
    s.set_adb_path("C:/adb.exe".to_string(), true);
    match s.lookup_adb() {
        AdbLookup::Chosen(p) => assert_eq!(p, "C:/adb.exe"),
        AdbLookup::UnpackBundled => panic!("an adb was chosen"),
    }
}

#[test]
fn unpacking_failure_messages() {
    assert_eq!(cache_dir_failed("denied"), "创建缓存目录失败: denied");
    assert_eq!(write_failed("adb.exe", "disk full"), "写入adb.exe失败: disk full");
}

#[test]
fn mirror_succeeds_only_after_a_start() {
    assert!(mirror_launch(false, None, "d").is_err());
    assert!(!mirror_started(Err("x".to_string())).success);
    assert!(mirror_started(Ok(())).success);
}
