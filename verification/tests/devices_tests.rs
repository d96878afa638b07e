use android_tools::command::CommandResult;
use android_tools::devices::{
    devices_from_listing, needs_model_query, parse_device_line, parse_devices,
    with_queried_model, Device,
};

fn ok(text: &str) -> CommandResult {
    CommandResult { success: true, output: text.to_string() }
}

fn fail(text: &str) -> CommandResult {
    CommandResult { success: false, output: text.to_string() }
}

fn triple(d: &Device) -> (&str, &str, &str) {
    (d.device_id.as_str(), d.status.as_str(), d.model.as_str())
}

#[test]
fn listing_with_models() {
    let listing = "List of devices attached\n\
        emulator-5554          device product:sdk_gphone64 model:sdk_gphone64_x86_64 device:emu64x transport_id:1\n\
        192.168.1.5:5555       offline transport_id:2\n\
        \n\
        R58M12ABCDE   unauthorized usb:1-1 model:SM_G973F model:second\n";
    let ds = parse_devices(listing);
    assert_eq!(ds.len(), 3);
    assert_eq!(triple(&ds[0]), ("emulator-5554", "device", "sdk_gphone64_x86_64"));
    assert_eq!(triple(&ds[1]), ("192.168.1.5:5555", "offline", ""));
    assert_eq!(triple(&ds[2]), ("R58M12ABCDE", "unauthorized", "SM_G973F"));
}

#[test]
fn heading_and_short_lines_are_skipped() {
    let ds = parse_devices("emulator-5554 device model:x\nlonely\r\n  \r\nabc device\r\n");
    assert_eq!(ds.len(), 1);
    assert_eq!(triple(&ds[0]), ("abc", "device", ""));
    assert_eq!(parse_devices("").len(), 0);
}

#[test]
fn one_line() {
    let d = parse_device_line("  serial  device  model:Pixel_7  ").unwrap();
    assert_eq!(triple(&d), ("serial", "device", "Pixel_7"));
    assert!(parse_device_line("serial").is_none());
    let d = parse_device_line("s d model:").unwrap();
    assert_eq!(d.model, "");
}

#[test]
fn failed_listing_gives_no_devices() {
    assert_eq!(devices_from_listing(&fail("List\nx device\n")).len(), 0);
    assert_eq!(devices_from_listing(&ok("List\nx device\n")).len(), 1);
}

#[test]
fn models_from_queries() {
    let d = parse_device_line("x device").unwrap();
    assert!(needs_model_query(&d));
    let d2 = with_queried_model(d, &ok("  Pixel 7 \n"));
    assert_eq!(triple(&d2), ("x", "device", "Pixel 7"));
    assert!(!needs_model_query(&d2));
    let d3 = with_queried_model(parse_device_line("y device").unwrap(), &fail("error"));
    assert_eq!(d3.model, "Unknown");
}

#[test]
fn listed_names_hold_no_whitespace() {
    for d in parse_devices("h\na\u{3000}b device\nc\td\te\n") {
        assert!(!d.device_id.is_empty() && !d.device_id.contains(char::is_whitespace));
        assert!(!d.status.is_empty() && !d.status.contains(char::is_whitespace));
    }
}

use android_tools::devices::{DeviceScan, ScanStep};

fn run_scan(listing: CommandResult, answers: &[CommandResult]) -> (Vec<Vec<String>>, Vec<Device>) {
    let mut asked = Vec::new();
    let mut step = DeviceScan::start(&listing);
    let mut i = 0;
    loop {
        match step {
            ScanStep::Query(scan, argv) => {
                asked.push(argv);
                step = scan.advance(&answers[i]);
                i += 1;
            }
            ScanStep::Done(ds) => return (asked, ds),
        }
    }
}

#[test]
fn scan_asks_only_unnamed_devices_in_order() {
    let listing = ok("List of devices attached\na device model:A1\nb device\nc offline model:C3\nd device\n");
    let (asked, ds) = run_scan(listing, &[ok(" Pixel 7\n"), fail("error: closed")]);
    assert_eq!(asked.len(), 2);
    assert_eq!(asked[0], ["-s", "b", "shell", "getprop", "ro.product.model"].map(String::from).to_vec());
    assert_eq!(asked[1], ["-s", "d", "shell", "getprop", "ro.product.model"].map(String::from).to_vec());
    let got: Vec<(&str, &str, &str)> = ds.iter().map(triple).collect();
    assert_eq!(
        got,
        vec![("a", "device", "A1"), ("b", "device", "Pixel 7"), ("c", "offline", "C3"), ("d", "device", "Unknown")]
    );
}

#[test]
fn scan_without_questions() {
    let (asked, ds) = run_scan(ok("List\nx device model:X\n"), &[]);
    assert!(asked.is_empty());
    assert_eq!(ds.len(), 1);
    let (asked, ds) = run_scan(fail("adb: no server"), &[]);
    assert!(asked.is_empty() && ds.is_empty());
}
