//! The bridge's fixed-layout crash-context snapshot and its wire image.
//!
//! A crash context is populated by signal-handler-safe code on the faulting
//! thread and consumed later, across the boundary, by a single capture. The
//! consumer must see exactly the field values the producer stored: the wire
//! image below has a fixed field order and fixed little-endian field widths,
//! and decoding is proved to invert encoding byte for byte, with no
//! reordering of any field.

use vstd::bytes::lemma_auto_spec_u32_to_from_le_bytes;
use vstd::bytes::lemma_auto_spec_u64_to_from_le_bytes;
use vstd::bytes::spec_u32_from_le_bytes;
use vstd::bytes::spec_u32_to_le_bytes;
use vstd::bytes::spec_u64_from_le_bytes;
use vstd::bytes::spec_u64_to_le_bytes;
use vstd::bytes::u32_from_le_bytes;
use vstd::bytes::u32_to_le_bytes;
use vstd::bytes::u64_from_le_bytes;
use vstd::bytes::u64_to_le_bytes;
use vstd::prelude::*;
use vstd::slice::slice_subrange;

verus! {

/// 64-bit words of general-purpose register state in the image.
pub const GENERAL_REGISTER_WORDS: usize = 23;

/// 64-bit words of floating-point register state in the image.
pub const FLOAT_REGISTER_WORDS: usize = 64;

/// Byte offset of the floating-point register words.
pub const OFF_FLOAT: usize = 184;

/// Byte offset of the signal number.
pub const OFF_SIGNO: usize = 696;

/// Byte offset of the signal errno value.
pub const OFF_ERRNO: usize = 700;

/// Byte offset of the signal code.
pub const OFF_CODE: usize = 704;

/// Byte offset of the fault address.
pub const OFF_FAULT_ADDRESS: usize = 708;

/// Byte offset of the process id.
pub const OFF_PID: usize = 716;

/// Byte offset of the thread id.
pub const OFF_TID: usize = 720;

/// Total byte length of the wire image.
pub const CONTEXT_IMAGE_BYTES: usize = 724;

/// Signal delivery metadata captured at the moment of the fault.
#[derive(Clone, Copy, PartialEq, Eq, Structural, Debug)]
pub struct SignalInfo {
    /// The delivered signal's number.
    pub signo: u32,
    /// The errno value accompanying the signal.
    pub errno: i32,
    /// The signal code describing the fault's origin.
    pub code: i32,
    /// The address whose access faulted, when the signal carries one.
    pub fault_address: u64,
}

/// The bridge's snapshot of a crashed thread: register state, signal
/// metadata, and the faulting process and thread identifiers.
pub struct InternalCrashContext {
    /// General-purpose register and execution state of the crashing thread.
    pub context: Vec<u64>,
    /// Floating-point register state of the crashing thread.
    pub float_state: Vec<u64>,
    /// Signal delivery metadata.
    pub siginfo: SignalInfo,
    /// Id of the crashing process.
    pub pid: i32,
    /// Id of the crashing thread.
    pub tid: i32,
}

impl InternalCrashContext {
    /// Well-formed: both register images have their fixed widths.
    pub open spec fn wf(&self) -> bool {
        &&& self.context@.len() == GENERAL_REGISTER_WORDS
        &&& self.float_state@.len() == FLOAT_REGISTER_WORDS
    }
}

/// Little-endian image of a sequence of 64-bit words, in order.
pub open spec fn spec_encode_words(ws: Seq<u64>) -> Seq<u8>
    decreases ws.len(),
{
    if ws.len() == 0 {
        Seq::empty()
    } else {
        spec_u64_to_le_bytes(ws[0]) + spec_encode_words(ws.drop_first())
    }
}

/// Little-endian image of a 32-bit signed field.
pub open spec fn spec_encode_i32(x: i32) -> Seq<u8> {
    spec_u32_to_le_bytes(x as u32)
}

/// The wire image of a context: every field in declaration order, each with
/// its fixed little-endian width.
pub open spec fn spec_encode(c: InternalCrashContext) -> Seq<u8> {
    spec_encode_words(c.context@) + spec_encode_words(c.float_state@) + spec_u32_to_le_bytes(
        c.siginfo.signo,
    ) + spec_encode_i32(c.siginfo.errno) + spec_encode_i32(c.siginfo.code) + spec_u64_to_le_bytes(
        c.siginfo.fault_address,
    ) + spec_encode_i32(c.pid) + spec_encode_i32(c.tid)
}

/// The words read back from a little-endian image.
pub open spec fn spec_decode_words(b: Seq<u8>) -> Seq<u64> {
    Seq::new(b.len() / 8, |k: int| spec_u64_from_le_bytes(b.subrange(8 * k, 8 * k + 8)))
}

/// The field values read back from a wire image of the right length.
pub open spec fn spec_decode(b: Seq<u8>) -> Option<(Seq<u64>, Seq<u64>, SignalInfo, i32, i32)> {
    if b.len() != CONTEXT_IMAGE_BYTES {
        None
    } else {
        Some(
            (
                spec_decode_words(b.subrange(0, OFF_FLOAT as int)),
                spec_decode_words(b.subrange(OFF_FLOAT as int, OFF_SIGNO as int)),
                SignalInfo {
                    signo: spec_u32_from_le_bytes(b.subrange(OFF_SIGNO as int, OFF_ERRNO as int)),
                    errno: spec_u32_from_le_bytes(
                        b.subrange(OFF_ERRNO as int, OFF_CODE as int),
                    ) as i32,
                    code: spec_u32_from_le_bytes(
                        b.subrange(OFF_CODE as int, OFF_FAULT_ADDRESS as int),
                    ) as i32,
                    fault_address: spec_u64_from_le_bytes(
                        b.subrange(OFF_FAULT_ADDRESS as int, OFF_PID as int),
                    ),
                },
                spec_u32_from_le_bytes(b.subrange(OFF_PID as int, OFF_TID as int)) as i32,
                spec_u32_from_le_bytes(
                    b.subrange(OFF_TID as int, CONTEXT_IMAGE_BYTES as int),
                ) as i32,
            ),
        )
    }
}

/// Casting a 32-bit signed value to unsigned and back restores it.
proof fn lemma_i32_u32_round_trip(x: i32)
    ensures
        ((x as u32) as i32) == x,
{
    assert(((x as u32) as i32) == x) by (bit_vector);
}

/// A word image is eight bytes per word.
pub proof fn lemma_encode_words_len(ws: Seq<u64>)
    ensures
        spec_encode_words(ws).len() == 8 * ws.len(),
    decreases ws.len(),
{
    lemma_auto_spec_u64_to_from_le_bytes();
    if ws.len() == 0 {
    } else {
        lemma_encode_words_len(ws.drop_first());
    }
}

/// Appending a word to the sequence appends its eight bytes to the image.
proof fn lemma_encode_words_push(ws: Seq<u64>, x: u64)
    ensures
        spec_encode_words(ws.push(x)) == spec_encode_words(ws) + spec_u64_to_le_bytes(x),
    decreases ws.len(),
{
    if ws.len() == 0 {
        assert(ws.push(x)[0] == x);
        assert(ws.push(x).drop_first() =~= Seq::<u64>::empty());
        assert(spec_encode_words(Seq::<u64>::empty()) == Seq::<u8>::empty());
        assert(spec_encode_words(ws.push(x)) == spec_u64_to_le_bytes(x) + Seq::<u8>::empty());
        assert(spec_u64_to_le_bytes(x) + Seq::<u8>::empty() =~= spec_u64_to_le_bytes(x));
        assert(spec_encode_words(ws) + spec_u64_to_le_bytes(x) =~= spec_u64_to_le_bytes(x));
    } else {
        assert(ws.push(x).drop_first() =~= ws.drop_first().push(x));
        lemma_encode_words_push(ws.drop_first(), x);
        assert(ws.push(x)[0] == ws[0]);
        assert(spec_encode_words(ws.push(x)) =~= spec_encode_words(ws) + spec_u64_to_le_bytes(x));
    }
}

/// Each word's eight bytes sit at their slot of the image.
proof fn lemma_encode_words_slot(ws: Seq<u64>, k: int)
    requires
        0 <= k < ws.len(),
    ensures
        spec_encode_words(ws).subrange(8 * k, 8 * k + 8) == spec_u64_to_le_bytes(ws[k]),
    decreases k,
{
    lemma_auto_spec_u64_to_from_le_bytes();
    lemma_encode_words_len(ws);
    lemma_encode_words_len(ws.drop_first());
    if k == 0 {
        assert(spec_encode_words(ws).subrange(0, 8) =~= spec_u64_to_le_bytes(ws[0]));
    } else {
        lemma_encode_words_slot(ws.drop_first(), k - 1);
        assert(spec_encode_words(ws).subrange(8 * k, 8 * k + 8) =~= spec_encode_words(
            ws.drop_first(),
        ).subrange(8 * (k - 1), 8 * (k - 1) + 8));
        assert(ws.drop_first()[k - 1] == ws[k]);
    }
}

/// Reading a word image back yields the words that were written.
pub proof fn lemma_decode_encode_words(ws: Seq<u64>)
    ensures
        spec_decode_words(spec_encode_words(ws)) == ws,
{
    lemma_auto_spec_u64_to_from_le_bytes();
    lemma_encode_words_len(ws);
    let img = spec_encode_words(ws);
    assert forall|k: int| 0 <= k < ws.len() implies spec_decode_words(img)[k] == ws[k] by {
        lemma_encode_words_slot(ws, k);
    }
    assert(spec_decode_words(img) =~= ws);
}

/// The wire image round-trips: decoding the image of any well-formed context
/// yields exactly the context's field values — process id, thread id, signal
/// metadata and both register images — with no byte reordering.
pub proof fn lemma_context_image_round_trips(c: InternalCrashContext)
    requires
        c.wf(),
    ensures
        spec_decode(spec_encode(c)) == Some(
            (c.context@, c.float_state@, c.siginfo, c.pid, c.tid),
        ),
{
    lemma_auto_spec_u64_to_from_le_bytes();
    lemma_auto_spec_u32_to_from_le_bytes();
    lemma_encode_words_len(c.context@);
    lemma_encode_words_len(c.float_state@);
    let b = spec_encode(c);
    assert(b.len() == CONTEXT_IMAGE_BYTES);
    assert(b.subrange(0, OFF_FLOAT as int) =~= spec_encode_words(c.context@));
    assert(b.subrange(OFF_FLOAT as int, OFF_SIGNO as int) =~= spec_encode_words(c.float_state@));
    assert(b.subrange(OFF_SIGNO as int, OFF_ERRNO as int) =~= spec_u32_to_le_bytes(
        c.siginfo.signo,
    ));
    assert(b.subrange(OFF_ERRNO as int, OFF_CODE as int) =~= spec_encode_i32(c.siginfo.errno));
    assert(b.subrange(OFF_CODE as int, OFF_FAULT_ADDRESS as int) =~= spec_encode_i32(
        c.siginfo.code,
    ));
    assert(b.subrange(OFF_FAULT_ADDRESS as int, OFF_PID as int) =~= spec_u64_to_le_bytes(
        c.siginfo.fault_address,
    ));
    assert(b.subrange(OFF_PID as int, OFF_TID as int) =~= spec_encode_i32(c.pid));
    assert(b.subrange(OFF_TID as int, CONTEXT_IMAGE_BYTES as int) =~= spec_encode_i32(c.tid));
    lemma_decode_encode_words(c.context@);
    lemma_decode_encode_words(c.float_state@);
    lemma_i32_u32_round_trip(c.siginfo.errno);
    lemma_i32_u32_round_trip(c.siginfo.code);
    lemma_i32_u32_round_trip(c.pid);
    lemma_i32_u32_round_trip(c.tid);
}

/// Appends the eight little-endian bytes of `x`.
fn push_u64(out: &mut Vec<u8>, x: u64)
    ensures
        final (out)@ == old(out)@ + spec_u64_to_le_bytes(x),
{
    let mut bs = u64_to_le_bytes(x);
    out.append(&mut bs);
}

/// Appends the four little-endian bytes of `x`.
fn push_u32(out: &mut Vec<u8>, x: u32)
    ensures
        final (out)@ == old(out)@ + spec_u32_to_le_bytes(x),
{
    let mut bs = u32_to_le_bytes(x);
    out.append(&mut bs);
}

/// Appends the image of a word sequence.
fn push_words(out: &mut Vec<u8>, ws: &Vec<u64>)
    ensures
        final (out)@ == old(out)@ + spec_encode_words(ws@),
{
    let mut i: usize = 0;
    while i < ws.len()
        invariant
            0 <= i <= ws@.len(),
            out@ == old(out)@ + spec_encode_words(ws@.take(i as int)),
        decreases ws@.len() - i,
    {
        push_u64(out, ws[i]);
        proof {
            lemma_encode_words_push(ws@.take(i as int), ws@[i as int]);
            assert(ws@.take(i as int).push(ws@[i as int]) =~= ws@.take(i as int + 1));
        }
        i = i + 1;
    }
    proof {
        assert(ws@.take(ws@.len() as int) =~= ws@);
    }
}

/// Produces the wire image of a context: every field in declaration order,
/// little-endian, `CONTEXT_IMAGE_BYTES` bytes in all.
pub fn encode_context(c: &InternalCrashContext) -> (bytes: Vec<u8>)
    requires
        c.wf(),
    ensures
        bytes@ == spec_encode(*c),
        bytes@.len() == CONTEXT_IMAGE_BYTES,
{
    proof {
        lemma_encode_words_len(c.context@);
        lemma_encode_words_len(c.float_state@);
        lemma_auto_spec_u32_to_from_le_bytes();
        lemma_auto_spec_u64_to_from_le_bytes();
    }
    let mut out: Vec<u8> = Vec::new();
    push_words(&mut out, &c.context);
    push_words(&mut out, &c.float_state);
    push_u32(&mut out, c.siginfo.signo);
    push_u32(&mut out, c.siginfo.errno as u32);
    push_u32(&mut out, c.siginfo.code as u32);
    push_u64(&mut out, c.siginfo.fault_address);
    push_u32(&mut out, c.pid as u32);
    push_u32(&mut out, c.tid as u32);
    out
}

/// Reads the four little-endian bytes at `off`.
fn read_u32_at(bytes: &Vec<u8>, off: usize) -> (x: u32)
    requires
        off + 4 <= bytes.len(),
    ensures
        x == spec_u32_from_le_bytes(bytes@.subrange(off as int, off as int + 4)),
{
    let s = slice_subrange(bytes.as_slice(), off, off + 4);
    u32_from_le_bytes(s)
}

/// Reads the eight little-endian bytes at `off`.
fn read_u64_at(bytes: &Vec<u8>, off: usize) -> (x: u64)
    requires
        off + 8 <= bytes.len(),
    ensures
        x == spec_u64_from_le_bytes(bytes@.subrange(off as int, off as int + 8)),
{
    let s = slice_subrange(bytes.as_slice(), off, off + 8);
    u64_from_le_bytes(s)
}

/// Reads `count` words starting at `off`.
fn read_words(bytes: &Vec<u8>, off: usize, count: usize) -> (ws: Vec<u64>)
    requires
        off + 8 * count <= bytes.len(),
    ensures
        ws@ == spec_decode_words(
            bytes@.subrange(off as int, off as int + 8 * count as int),
        ),
        ws@.len() == count,
{
    let sub = Ghost(bytes@.subrange(off as int, off as int + 8 * count as int));
    let mut ws: Vec<u64> = Vec::new();
    let mut i: usize = 0;
    while i < count
        invariant
            0 <= i <= count,
            off + 8 * count <= bytes.len(),
            sub@ == bytes@.subrange(off as int, off as int + 8 * count as int),
            ws@.len() == i,
            forall|j: int|
                0 <= j < i ==> ws@[j] == spec_u64_from_le_bytes(
                    sub@.subrange(8 * j, 8 * j + 8),
                ),
        decreases count - i,
    {
        let w = read_u64_at(bytes, off + 8 * i);
        proof {
            assert(bytes@.subrange(
                off as int + 8 * (i as int),
                off as int + 8 * (i as int) + 8,
            ) =~= sub@.subrange(8 * (i as int), 8 * (i as int) + 8));
        }
        ws.push(w);
        i = i + 1;
    }
    proof {
        assert(ws@ =~= spec_decode_words(sub@));
    }
    ws
}

/// Reads a context back from its wire image: rejects any byte string that is
/// not exactly `CONTEXT_IMAGE_BYTES` long, and otherwise yields the field
/// values the image describes.
pub fn decode_context(bytes: &Vec<u8>) -> (r: Option<InternalCrashContext>)
    ensures
        r is Some <==> bytes@.len() == CONTEXT_IMAGE_BYTES,
        r matches Some(c) ==> c.wf() && spec_decode(bytes@) == Some(
            (c.context@, c.float_state@, c.siginfo, c.pid, c.tid),
        ),
{
    if bytes.len() != CONTEXT_IMAGE_BYTES {
        return None;
    }
    let context = read_words(bytes, 0, GENERAL_REGISTER_WORDS);
    let float_state = read_words(bytes, OFF_FLOAT, FLOAT_REGISTER_WORDS);
    let signo = read_u32_at(bytes, OFF_SIGNO);
    let errno = read_u32_at(bytes, OFF_ERRNO) as i32;
    let code = read_u32_at(bytes, OFF_CODE) as i32;
    let fault_address = read_u64_at(bytes, OFF_FAULT_ADDRESS);
    let pid = read_u32_at(bytes, OFF_PID) as i32;
    let tid = read_u32_at(bytes, OFF_TID) as i32;
    Some(
        InternalCrashContext {
            context,
            float_state,
            siginfo: SignalInfo { signo, errno, code, fault_address },
            pid,
            tid,
        },
    )
}

} // verus!
