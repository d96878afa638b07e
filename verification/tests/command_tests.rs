use android_tools::command::{
    adb_not_found, combine_output, command_result_from_output, launch_failed, CommandResult,
};

#[test]
fn output_joins_streams_and_trims() {
    let r = combine_output("  out\n", "err\n", true);
    assert!(r.success);
    assert_eq!(r.output, "out\n\nerr");
    let r = combine_output(" only out \n", "", false);
    assert!(!r.success);
    assert_eq!(r.output, "only out");
}

#[test]
fn raw_bytes_are_decoded_lossily() {
    let r = command_result_from_output(b"ok\r\n", b"", true);
    assert_eq!(r.output, "ok");
    let r = command_result_from_output(&[0x66, 0xff, 0x6f], b"e", false);
    assert_eq!(r.output, "f\u{fffd}o\ne");
    assert!(!r.success);
}

#[test]
fn fixed_failures() {
    let r = adb_not_found();
    assert!(!r.success);
    assert_eq!(r.output, "ADB not found");
    let r = launch_failed("no such file");
    assert_eq!(r.output, "Error: no such file");
    assert!(!r.success);
    let r = CommandResult::succeeded("done");
    assert!(r.success);
    assert_eq!(r.output, "done");
}

#[test]
fn valid_utf8_output_is_kept_exactly() {
    let r = command_result_from_output("设备 ok\n".as_bytes(), b"", true);
    assert_eq!(r.output, "设备 ok");
    let r = command_result_from_output(b"ok", b"", true);
    assert_eq!(r.output, "ok");
}

#[test]
fn invalid_stderr_still_gets_its_line() {
    let r = command_result_from_output(b"out", &[0xc3], false);
    assert_eq!(r.output, "out\n\u{fffd}");
}
