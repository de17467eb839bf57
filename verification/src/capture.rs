//! The capture entry points: validate the destination path's encoding, drive
//! the dump-generation engine, and report the outcome.
//!
//! The caller owns the file system: it opens (creating or truncating) the
//! destination once the path is accepted, and writes the returned artifact
//! bytes to it. An invocation either returns the complete artifact or returns
//! nothing and places a non-empty diagnostic in `error_msg`.

use vstd::prelude::*;
use vstd::utf8::valid_utf8;

use crate::engine::engine_dump;
use crate::engine::engine_dump_with_context;
use crate::messages::context_size_message;
use crate::messages::context_size_text;
use crate::messages::fault_tuple;
use crate::messages::invalid_path_message;
use crate::messages::lemma_context_size_message_nonempty;
use crate::messages::lemma_invalid_path_message_nonempty;
use crate::messages::path_error_text;
use crate::path_encoding::scan_utf8;
use crate::path_encoding::utf8_fault_from;

verus! {

/// Turns the engine's outcome into the caller-visible protocol: the artifact
/// bytes on success, or no artifact and the diagnostic in `error_msg`, which
/// is left untouched on success.
pub fn finish_capture(outcome: Result<Vec<u8>, String>, error_msg: &mut String) -> (dump: Option<
    Vec<u8>,
>)
    ensures
        match outcome {
            Ok(bytes) => dump matches Some(d) && d@ == bytes@ && final (error_msg)@ == old(
                error_msg,
            )@,
            Err(msg) => dump is None && final (error_msg)@ == msg@,
        },
{
    match outcome {
        Ok(bytes) => Some(bytes),
        Err(msg) => {
            *error_msg = msg;
            None
        },
    }
}

/// Captures a minidump of the live process `child`, centering the report on
/// thread `child_blamed_thread`. `dump_path` holds the destination path's
/// bytes; when they are not valid UTF-8 the capture is refused before the
/// engine — or anything else — runs, with the exact diagnostic fixed by
/// `invalid_path_message`. On engine failure the engine's diagnostic lands in
/// `error_msg`; on success `error_msg` is untouched and the artifact bytes
/// are returned for the caller to write to the destination.
pub fn write_minidump_linux(
    dump_path: &Vec<u8>,
    child: i32,
    child_blamed_thread: i32,
    error_msg: &mut String,
) -> (dump: Option<Vec<u8>>)
    ensures
        !valid_utf8(dump_path@) ==> dump is None && final (error_msg)@ == invalid_path_message(
            dump_path@,
        ),
        dump is Some ==> valid_utf8(dump_path@) && final (error_msg)@ == old(error_msg)@,
        dump matches Some(d) ==> d@.len() > 0,
        dump is None ==> final (error_msg)@.len() > 0,
{
    match scan_utf8(dump_path) {
        Some(fault) => {
            proof {
                lemma_invalid_path_message_nonempty(dump_path@);
                let g = utf8_fault_from(dump_path@, 0)->Some_0;
                assert(fault_tuple(fault) == g);
            }
            *error_msg = path_error_text(&fault);
            None
        },
        None => finish_capture(engine_dump(child, child_blamed_thread), error_msg),
    }
}

/// Captures a minidump of `child` from a pre-captured crash context, supplied
/// as the raw bytes of the engine's context image. The thread the report
/// centers on is the thread id embedded in the context; this entry point has
/// no blamed-thread parameter at all. The path is validated first, exactly as
/// in `write_minidump_linux`; then context bytes whose length does not match
/// the engine's context layout are refused, before the engine runs.
pub fn write_minidump_linux_with_context(
    dump_path: &Vec<u8>,
    child: i32,
    context_bytes: &Vec<u8>,
    error_msg: &mut String,
) -> (dump: Option<Vec<u8>>)
    ensures
        !valid_utf8(dump_path@) ==> dump is None && final (error_msg)@ == invalid_path_message(
            dump_path@,
        ),
        valid_utf8(dump_path@) && context_bytes@.len() != vstd::layout::size_of::<
            crash_context::CrashContext,
        >() ==> dump is None && final (error_msg)@ == context_size_message(),
        dump is Some ==> valid_utf8(dump_path@) && context_bytes@.len()
            == vstd::layout::size_of::<crash_context::CrashContext>() && final (error_msg)@ == old(
            error_msg,
        )@,
        dump matches Some(d) ==> d@.len() > 0,
        dump is None ==> final (error_msg)@.len() > 0,
{
    match scan_utf8(dump_path) {
        Some(fault) => {
            proof {
                lemma_invalid_path_message_nonempty(dump_path@);
                let g = utf8_fault_from(dump_path@, 0)->Some_0;
                assert(fault_tuple(fault) == g);
            }
            *error_msg = path_error_text(&fault);
            None
        },
        None => {
            match crash_context::CrashContext::from_bytes(context_bytes.as_slice()) {
                None => {
                    proof {
                        lemma_context_size_message_nonempty();
                    }
                    *error_msg = context_size_text();
                    None
                },
                Some(context) => finish_capture(engine_dump_with_context(child, context), error_msg),
            }
        },
    }
}

} // verus!
