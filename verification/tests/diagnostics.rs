//! Exact wording of the diagnostics, including the rendering of numbers.

use rust_minidump_writer_linux::digits::usize_to_decimal;
use rust_minidump_writer_linux::messages::context_size_text;
use rust_minidump_writer_linux::messages::open_error_text;
use rust_minidump_writer_linux::messages::path_error_text;
use rust_minidump_writer_linux::path_encoding::scan_utf8;

#[test]
fn renders_decimals() {
    assert_eq!(usize_to_decimal(0), "0");
    assert_eq!(usize_to_decimal(7), "7");
    assert_eq!(usize_to_decimal(10), "10");
    assert_eq!(usize_to_decimal(42), "42");
    assert_eq!(usize_to_decimal(90210), "90210");
    assert_eq!(usize_to_decimal(usize::MAX), usize::MAX.to_string());
}

#[test]
fn path_diagnostic_matches_std_wording() {
    // The diagnostic embeds the same wording std's Utf8Error displays.
    let bytes: Vec<u8> = vec![0x2f, 0x74, 0x6d, 0x70, 0xff, 0x2e];
    let fault = scan_utf8(&bytes).unwrap();
    let expected = format!(
        "Wrapper error. Path not convertable: {}",
        std::str::from_utf8(&bytes).unwrap_err()
    );
    assert_eq!(path_error_text(&fault), expected);
}

#[test]
fn path_diagnostic_exact_text() {
    let bytes: Vec<u8> = vec![b'a', b'b', b'c', 0xff];
    let fault = scan_utf8(&bytes).unwrap();
    assert_eq!(
        path_error_text(&fault),
        "Wrapper error. Path not convertable: invalid utf-8 sequence of 1 bytes from index 3"
    );
}

#[test]
fn path_diagnostic_incomplete_text() {
    let bytes: Vec<u8> = vec![b'x', 0xe2, 0x82];
    let fault = scan_utf8(&bytes).unwrap();
    assert_eq!(
        path_error_text(&fault),
        "Wrapper error. Path not convertable: incomplete utf-8 byte sequence from index 1"
    );
}

#[test]
fn open_diagnostic_names_path_and_cause() {
    assert_eq!(
        open_error_text("/nowhere/dump.dmp", "No such file or directory (os error 2)"),
        "Wrapper error when opening minidump destination at \"/nowhere/dump.dmp\": No such file or directory (os error 2)"
    );
}

#[test]
fn context_size_diagnostic_text() {
    assert_eq!(context_size_text(), "Wrapper error. Crash context has the wrong size");
}
