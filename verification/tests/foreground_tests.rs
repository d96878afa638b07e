use android_tools::command::CommandResult;
use android_tools::foreground::{foreground_app, parse_focused_package};

#[test]
fn package_from_focus_report() {
    let report = "  mCurrentFocus=Window{5e4a1b2 u0 com.android.launcher3/com.android.launcher3.uioverrides.QuickstepLauncher}";
    assert_eq!(parse_focused_package(report).unwrap(), "com.android.launcher3");
}

#[test]
fn reports_without_the_marks() {
    assert!(parse_focused_package("nothing here").is_none());
    assert!(parse_focused_package("mCurrentFocus=null").is_none());
    assert!(parse_focused_package("mCurrentFocus=Window/x").is_none());
    assert_eq!(parse_focused_package("a/b mCurrentFocus x y/z").unwrap(), "y");
}

#[test]
fn foreground_outcomes() {
    let r = foreground_app(CommandResult {
        success: true,
        output: "mCurrentFocus=Window{1 u0 com.tencent.mm/.ui.LauncherUI}".to_string(),
    });
    assert!(r.success);
    assert_eq!(r.output, "com.tencent.mm");
    let r = foreground_app(CommandResult { success: true, output: "mCurrentFocus=null".to_string() });
    assert!(!r.success);
    assert_eq!(r.output, "无法解析前台应用包名");
    let r = foreground_app(CommandResult { success: false, output: "device offline".to_string() });
    assert!(!r.success);
    assert_eq!(r.output, "device offline");
}

#[test]
fn package_holds_no_space_or_slash() {
    for report in ["mCurrentFocus=W{a b c/d}", "x mCurrentFocus y  zz/", "mCurrentFocus q r/s/t"] {
        if let Some(p) = parse_focused_package(report) {
            assert!(!p.contains(' ') && !p.contains('/'));
        }
    }
}
