//! The capture entry points, run against the real dump-generation engine.
//!
//! A successful dump needs a traceable stopped target process, which a test
//! harness has no business creating; these tests exercise the refusal paths,
//! whose outcomes the bridge's contracts pin down.

use rust_minidump_writer_linux::capture::write_minidump_linux;
use rust_minidump_writer_linux::capture::write_minidump_linux_with_context;
use rust_minidump_writer_linux::engine::crash_context_size;

/// A process id above Linux's default pid ceiling: no such process exists.
const NO_SUCH_PID: i32 = 0x7ead_beef;

#[test]
fn invalid_path_is_refused_with_exact_diagnostic() {
    let path: Vec<u8> = vec![b'/', b't', b'm', b'p', 0xc0, 0x80];
    let mut msg = String::new();
    let dump = write_minidump_linux(&path, NO_SUCH_PID, NO_SUCH_PID, &mut msg);
    assert!(dump.is_none());
    assert_eq!(
        msg,
        "Wrapper error. Path not convertable: invalid utf-8 sequence of 1 bytes from index 4"
    );
}

#[test]
fn missing_process_reports_nonempty_diagnostic() {
    let path: Vec<u8> = b"/tmp/capture_missing_process.dmp".to_vec();
    let mut msg = String::new();
    let dump = write_minidump_linux(&path, NO_SUCH_PID, NO_SUCH_PID, &mut msg);
    assert!(dump.is_none());
    assert!(!msg.is_empty());
}

#[test]
fn success_leaves_error_message_untouched_on_failure_paths_only() {
    // On a refused path the previous message is replaced, not appended to.
    let path: Vec<u8> = vec![0xff];
    let mut msg = String::from("stale");
    let dump = write_minidump_linux(&path, NO_SUCH_PID, NO_SUCH_PID, &mut msg);
    assert!(dump.is_none());
    assert_eq!(
        msg,
        "Wrapper error. Path not convertable: invalid utf-8 sequence of 1 bytes from index 0"
    );
}

#[test]
fn with_context_checks_path_first() {
    let path: Vec<u8> = vec![0xff];
    let context_bytes: Vec<u8> = Vec::new();
    let mut msg = String::new();
    let dump = write_minidump_linux_with_context(&path, NO_SUCH_PID, &context_bytes, &mut msg);
    assert!(dump.is_none());
    assert_eq!(
        msg,
        "Wrapper error. Path not convertable: invalid utf-8 sequence of 1 bytes from index 0"
    );
}

#[test]
fn with_context_rejects_wrong_size_image() {
    let path: Vec<u8> = b"/tmp/capture_wrong_size.dmp".to_vec();
    let context_bytes: Vec<u8> = vec![0u8; 3];
    let mut msg = String::new();
    let dump = write_minidump_linux_with_context(&path, NO_SUCH_PID, &context_bytes, &mut msg);
    assert!(dump.is_none());
    assert_eq!(msg, "Wrapper error. Crash context has the wrong size");
}

#[test]
fn with_context_accepts_right_size_image_and_reaches_engine() {
    // A zeroed image of exactly the engine's context size passes the size
    // check; the capture then fails in the engine, since the target process
    // does not exist, with the engine's own diagnostic.
    let path: Vec<u8> = b"/tmp/capture_zero_context.dmp".to_vec();
    let context_bytes: Vec<u8> = vec![0u8; crash_context_size()];
    let mut msg = String::new();
    let dump = write_minidump_linux_with_context(&path, NO_SUCH_PID, &context_bytes, &mut msg);
    assert!(dump.is_none());
    assert!(!msg.is_empty());
    assert_ne!(msg, "Wrapper error. Crash context has the wrong size");
}

#[test]
fn context_size_matches_engine_type() {
    assert_eq!(
        crash_context_size(),
        std::mem::size_of::<crash_context::CrashContext>()
    );
}
