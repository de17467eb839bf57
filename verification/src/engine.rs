//! The boundary to the dump-generation engine (the `minidump-writer` crate)
//! and to its crash-context type (the `crash-context` crate).
//!
//! Everything here is trusted: the contracts state only what the engine
//! crates' sources show, and the engine's own success or failure — which
//! depends on the state of the target process — is never promised.

use vstd::prelude::*;

verus! {

/// The engine's crash-context type: the register, signal and identity
/// snapshot of a crashed thread, captured signal-handler-side. Opaque here;
/// the bridge only carries it through to the engine.
#[verifier::external_type_specification]
#[verifier::external_body]
pub struct ExCrashContext(crash_context::CrashContext);

/// Relies on crash_context::CrashContext::from_bytes: reinterprets a raw byte
/// image as the engine's context. Its source returns Some exactly when the
/// byte count equals the size of the context type, and None otherwise.
pub assume_specification[ crash_context::CrashContext::from_bytes ](bytes: &[u8]) -> (r: Option<
    crash_context::CrashContext,
>)
    ensures
        r is Some <==> bytes@.len() == vstd::layout::size_of::<crash_context::CrashContext>(),
;

/// The byte count of the engine's crash-context layout: the length a raw
/// context image must have to be accepted.
pub fn crash_context_size() -> (n: usize)
    ensures
        n as nat == vstd::layout::size_of::<crash_context::CrashContext>(),
{
    core::mem::size_of::<crash_context::CrashContext>()
}

/// Relies on minidump_writer::minidump_writer::MinidumpWriterConfig::new and
/// MinidumpWriterConfig::write: drives the dump-generation engine against the
/// live target process and collects the artifact in an in-memory sink.
/// Whether the engine succeeds depends on the target process, so success is
/// not promised; its source writes the minidump header into the buffer before
/// anything else, so a successful dump is never empty, and every engine error
/// renders to a non-empty diagnostic.
#[verifier::external_body]
pub(crate) fn engine_dump(child: i32, child_blamed_thread: i32) -> (r: Result<Vec<u8>, String>)
    ensures
        r matches Ok(dump) ==> dump@.len() > 0,
        r matches Err(msg) ==> msg@.len() > 0,
{
    let config = minidump_writer::minidump_writer::MinidumpWriterConfig::new(
        child,
        child_blamed_thread,
    );
    let mut sink = std::io::Cursor::new(Vec::new());
    match config.write(&mut sink) {
        Ok(dump) => Ok(dump),
        Err(e) => Err(format!("{:#}", anyhow::Error::new(e))),
    }
}

/// Relies on minidump_writer::minidump_writer::MinidumpWriterConfig::new,
/// MinidumpWriterConfig::set_crash_context and MinidumpWriterConfig::write:
/// drives the engine with the supplied pre-captured context. The blamed
/// thread handed to the engine is the thread id embedded in the context;
/// there is no separate blamed-thread argument. Outcome bounds are as in
/// `engine_dump`.
#[verifier::external_body]
pub(crate) fn engine_dump_with_context(child: i32, context: crash_context::CrashContext) -> (r:
    Result<Vec<u8>, String>)
    ensures
        r matches Ok(dump) ==> dump@.len() > 0,
        r matches Err(msg) ==> msg@.len() > 0,
{
    let tid = context.tid;
    let mut config = minidump_writer::minidump_writer::MinidumpWriterConfig::new(child, tid);
    config.set_crash_context(minidump_writer::CrashContextExt { inner: context });
    let mut sink = std::io::Cursor::new(Vec::new());
    match config.write(&mut sink) {
        Ok(dump) => Ok(dump),
        Err(e) => Err(format!("{:#}", anyhow::Error::new(e))),
    }
}

} // verus!
