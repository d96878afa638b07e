use android_tools::unpack::{tool_file_names, unpack_next, unpack_start, UnpackAction, UnpackStep, Unpacking};

const FILES: [&str; 11] = [
    "adb.exe",
    "AdbWinApi.dll",
    "AdbWinUsbApi.dll",
    "scrcpy.exe",
    "scrcpy-server",
    "SDL2.dll",
    "avcodec-61.dll",
    "avformat-61.dll",
    "avutil-59.dll",
    "swresample-5.dll",
    "libusb-1.0.dll",
];

/// Runs the plan, failing the action with the given index (0 is the
/// directory), and returns the files written and the end.
fn drive(adb_present: bool, fail_at: Option<usize>) -> (Vec<String>, Result<(), String>) {
    let mut written = Vec::new();
    let mut step = unpack_start(adb_present);
    let mut i = 0;
    loop {
        match step {
            UnpackStep::Run(state, action) => {
                if let UnpackAction::WriteFile(name) = action {
                    written.push(name);
                }
                let outcome = if fail_at == Some(i) { Err("denied".to_string()) } else { Ok(()) };
                step = unpack_next(state, outcome);
                i += 1;
            }
            UnpackStep::Done(r) => return (written, r),
        }
    }
}

#[test]
fn names_in_order() {
    assert_eq!(tool_file_names(), FILES.map(String::from).to_vec());
}

#[test]
fn nothing_when_adb_present() {
    let (written, r) = drive(true, None);
    assert!(written.is_empty());
    assert_eq!(r, Ok(()));
    assert!(matches!(unpack_start(false), UnpackStep::Run(Unpacking::CreateDir, UnpackAction::CreateCacheDir)));
}

#[test]
fn all_files_in_order_on_success() {
    let (written, r) = drive(false, None);
    assert_eq!(written, FILES.map(String::from).to_vec());
    assert_eq!(r, Ok(()));
}

#[test]
fn stops_at_first_failure() {
    let (written, r) = drive(false, Some(0));
    assert!(written.is_empty());
    assert_eq!(r, Err("创建缓存目录失败: denied".to_string()));
    let (written, r) = drive(false, Some(4));
    assert_eq!(written, FILES[..4].iter().map(|s| s.to_string()).collect::<Vec<_>>());
    assert_eq!(r, Err("写入scrcpy.exe失败: denied".to_string()));
}
