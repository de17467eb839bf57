//! The crash-context wire image: layout, length, and the round trip.

use rust_minidump_writer_linux::context::CONTEXT_IMAGE_BYTES;
use rust_minidump_writer_linux::context::FLOAT_REGISTER_WORDS;
use rust_minidump_writer_linux::context::GENERAL_REGISTER_WORDS;
use rust_minidump_writer_linux::context::InternalCrashContext;
use rust_minidump_writer_linux::context::OFF_FAULT_ADDRESS;
use rust_minidump_writer_linux::context::OFF_PID;
use rust_minidump_writer_linux::context::OFF_SIGNO;
use rust_minidump_writer_linux::context::OFF_TID;
use rust_minidump_writer_linux::context::SignalInfo;
use rust_minidump_writer_linux::context::decode_context;
use rust_minidump_writer_linux::context::encode_context;

fn sample() -> InternalCrashContext {
    let mut context: Vec<u64> = Vec::new();
    for k in 0..GENERAL_REGISTER_WORDS {
        context.push(0x1111_0000 + k as u64);
    }
    let mut float_state: Vec<u64> = Vec::new();
    for k in 0..FLOAT_REGISTER_WORDS {
        float_state.push(0xf10a_0000_0000 + k as u64);
    }
    InternalCrashContext {
        context,
        float_state,
        siginfo: SignalInfo {
            signo: 11,
            errno: 0,
            code: 1,
            fault_address: 0xdead_beef_cafe_f00d,
        },
        pid: 1234,
        tid: -5678,
    }
}

#[test]
fn image_has_fixed_length() {
    assert_eq!(encode_context(&sample()).len(), CONTEXT_IMAGE_BYTES);
    assert_eq!(CONTEXT_IMAGE_BYTES, 724);
}

#[test]
fn image_round_trips() {
    let c = sample();
    let bytes = encode_context(&c);
    let d = decode_context(&bytes).unwrap();
    assert_eq!(d.context, c.context);
    assert_eq!(d.float_state, c.float_state);
    assert_eq!(d.siginfo, c.siginfo);
    assert_eq!(d.pid, c.pid);
    assert_eq!(d.tid, c.tid);
}

#[test]
fn fields_sit_at_their_offsets_little_endian() {
    let c = sample();
    let bytes = encode_context(&c);
    // First general-purpose register word, little-endian, at offset 0.
    assert_eq!(&bytes[0..8], &[0x00, 0x00, 0x11, 0x11, 0, 0, 0, 0]);
    // Signal number 11 at its offset.
    assert_eq!(&bytes[OFF_SIGNO..OFF_SIGNO + 4], &[11, 0, 0, 0]);
    // Fault address at its offset.
    assert_eq!(
        &bytes[OFF_FAULT_ADDRESS..OFF_FAULT_ADDRESS + 8],
        &[0x0d, 0xf0, 0xfe, 0xca, 0xef, 0xbe, 0xad, 0xde]
    );
    // pid 1234 = 0x4d2 at its offset.
    assert_eq!(&bytes[OFF_PID..OFF_PID + 4], &[0xd2, 0x04, 0x00, 0x00]);
    // tid -5678 in two's complement at its offset.
    assert_eq!(&bytes[OFF_TID..OFF_TID + 4], &(-5678i32).to_le_bytes());
}

#[test]
fn decode_rejects_wrong_length() {
    assert!(decode_context(&Vec::new()).is_none());
    assert!(decode_context(&vec![0u8; CONTEXT_IMAGE_BYTES - 1]).is_none());
    assert!(decode_context(&vec![0u8; CONTEXT_IMAGE_BYTES + 1]).is_none());
    assert!(decode_context(&vec![0u8; CONTEXT_IMAGE_BYTES]).is_some());
}
