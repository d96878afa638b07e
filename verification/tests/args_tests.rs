use android_tools::args::{
    bar_status_args, connect_args, decimal_string, device_address, devices_args,
    disconnect_args, focus_query_args, install_args, list_directory_args, model_query_args,
    overscan_args, pull_args, push_args, reboot_args, shell_args, uninstall_args,
    user_command_args, BarCommand,
};

fn v(parts: &[&str]) -> Vec<String> {
    parts.iter().map(|p| p.to_string()).collect()
}

#[test]
fn decimal_numerals() {
    for n in [0u16, 7, 10, 99, 100, 5555, 65535] {
        assert_eq!(decimal_string(n), n.to_string());
    }
}

#[test]
fn connect_and_disconnect() {
    assert_eq!(device_address("192.168.1.2", 5555), "192.168.1.2:5555");
    assert_eq!(connect_args("10.0.0.1", 40001), v(&["connect", "10.0.0.1:40001"]));
    assert_eq!(disconnect_args(Some("10.0.0.1"), None), v(&["disconnect", "10.0.0.1:5555"]));
    assert_eq!(disconnect_args(Some("10.0.0.1"), Some(6000)), v(&["disconnect", "10.0.0.1:6000"]));
    assert_eq!(disconnect_args(None, Some(6000)), v(&["disconnect"]));
}

#[test]
fn device_commands() {
    assert_eq!(devices_args(), v(&["devices", "-l"]));
    assert_eq!(model_query_args("d1"), v(&["-s", "d1", "shell", "getprop", "ro.product.model"]));
    assert_eq!(install_args("d1", "a.apk"), v(&["-s", "d1", "install", "-r", "a.apk"]));
    assert_eq!(
        uninstall_args("d1", "com.x", true),
        v(&["-s", "d1", "uninstall", "--user", "0", "com.x"])
    );
    assert_eq!(uninstall_args("d1", "com.x", false), v(&["-s", "d1", "uninstall", "com.x"]));
    assert_eq!(push_args("d1", "l", "r"), v(&["-s", "d1", "push", "l", "r"]));
    assert_eq!(pull_args("d1", "r", "l"), v(&["-s", "d1", "pull", "r", "l"]));
    assert_eq!(list_directory_args("d1", "/sdcard"), v(&["-s", "d1", "shell", "ls", "-la", "/sdcard"]));
    assert_eq!(reboot_args("d1"), v(&["-s", "d1", "shell", "reboot"]));
    assert_eq!(shell_args("d1", "echo hi"), v(&["-s", "d1", "shell", "echo hi"]));
    assert_eq!(
        focus_query_args("d1"),
        v(&["-s", "d1", "shell", "dumpsys", "window", "|", "grep", "mCurrentFocus"])
    );
}

#[test]
fn overscan_commands() {
    let cases = [
        (BarCommand::HideStatusBar, "0,-50,0,0"),
        (BarCommand::ShowStatusBar, "0,0,0,0"),
        (BarCommand::HideNavigationBar, "0,0,0,-100"),
        (BarCommand::ShowNavigationBar, "0,0,0,0"),
        (BarCommand::HideBothBars, "0,-50,0,-100"),
        (BarCommand::ShowBothBars, "0,0,0,0"),
    ];
    for (cmd, setting) in cases {
        assert_eq!(overscan_args("d1", cmd), v(&["-s", "d1", "shell", "wm", "overscan", setting]));
    }
    assert_eq!(bar_status_args("d1"), v(&["-s", "d1", "shell", "wm", "overscan"]));
}

#[test]
fn show_after_hide_restores_zero_overscan() {
    let hide = overscan_args("d", BarCommand::HideBothBars);
    let show = overscan_args("d", BarCommand::ShowStatusBar);
    assert_ne!(hide[5], show[5]);
    assert_eq!(show[5], "0,0,0,0");
}

#[test]
fn user_commands_are_split_into_words() {
    let args = user_command_args("emulator-5554", "  shell pm   list packages ").ok().unwrap();
    assert_eq!(args, v(&["-s", "emulator-5554", "shell", "pm", "list", "packages"]));
    let err = user_command_args("d1", " \t ").err().unwrap();
    assert!(!err.success);
    assert_eq!(err.output, "命令不能为空");
}
