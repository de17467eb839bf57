//! Composition of the human-readable diagnostics that a failed capture
//! reports across the boundary.

use vstd::prelude::*;
use vstd::string::StringExecFns;

use crate::digits::dec_rep;
use crate::digits::usize_to_decimal;
use crate::path_encoding::Utf8Fault;
use crate::path_encoding::utf8_fault_from;

verus! {

/// The spec-level counterpart of a reported fault.
pub open spec fn fault_tuple(f: Utf8Fault) -> (int, Option<int>) {
    (
        f.valid_up_to as int,
        match f.error_len {
            Some(n) => Some(n as int),
            None => None,
        },
    )
}

/// Wording of a UTF-8 fault, as the standard library words it.
pub open spec fn spec_fault_text(g: (int, Option<int>)) -> Seq<char> {
    match g.1 {
        Some(n) => "invalid utf-8 sequence of "@ + dec_rep(n as nat) + " bytes from index "@
            + dec_rep(g.0 as nat),
        None => "incomplete utf-8 byte sequence from index "@ + dec_rep(g.0 as nat),
    }
}

/// The full diagnostic for a destination path that is not valid UTF-8.
pub open spec fn invalid_path_message(path: Seq<u8>) -> Seq<char>
    recommends
        utf8_fault_from(path, 0) is Some,
{
    "Wrapper error. Path not convertable: "@ + spec_fault_text(utf8_fault_from(path, 0)->Some_0)
}

/// The diagnostic for a destination that could not be opened, naming the
/// path and the underlying system error.
pub open spec fn open_error_message(path: Seq<char>, detail: Seq<char>) -> Seq<char> {
    "Wrapper error when opening minidump destination at \""@ + path + "\": "@ + detail
}

/// The diagnostic for supplied crash-context bytes whose length does not
/// match the engine's context layout.
pub open spec fn context_size_message() -> Seq<char> {
    "Wrapper error. Crash context has the wrong size"@
}

/// The path diagnostic is never the empty string.
pub proof fn lemma_invalid_path_message_nonempty(path: Seq<u8>)
    ensures
        invalid_path_message(path).len() > 0,
{
    reveal_strlit("Wrapper error. Path not convertable: ");
}

/// The size diagnostic is never the empty string.
pub proof fn lemma_context_size_message_nonempty()
    ensures
        context_size_message().len() > 0,
{
    reveal_strlit("Wrapper error. Crash context has the wrong size");
}

/// Renders the wording of a UTF-8 fault.
fn fault_text(f: &Utf8Fault) -> (r: String)
    ensures
        r@ == spec_fault_text(fault_tuple(*f)),
{
    match f.error_len {
        Some(n) => {
            let mut s = String::from_str("invalid utf-8 sequence of ");
            let len_digits = usize_to_decimal(n);
            s.append(len_digits.as_str());
            s.append(" bytes from index ");
            let idx_digits = usize_to_decimal(f.valid_up_to);
            s.append(idx_digits.as_str());
            s
        },
        None => {
            let mut s = String::from_str("incomplete utf-8 byte sequence from index ");
            let idx_digits = usize_to_decimal(f.valid_up_to);
            s.append(idx_digits.as_str());
            s
        },
    }
}

/// Renders the full diagnostic for a path whose bytes showed the given fault.
pub fn path_error_text(f: &Utf8Fault) -> (r: String)
    ensures
        r@ == "Wrapper error. Path not convertable: "@ + spec_fault_text(fault_tuple(*f)),
{
    let mut s = String::from_str("Wrapper error. Path not convertable: ");
    let tail = fault_text(f);
    s.append(tail.as_str());
    s
}

/// Renders the diagnostic for a destination that could not be opened.
pub fn open_error_text(path: &str, detail: &str) -> (r: String)
    ensures
        r@ == open_error_message(path@, detail@),
{
    let mut s = String::from_str("Wrapper error when opening minidump destination at \"");
    s.append(path);
    s.append("\": ");
    s.append(detail);
    s
}

/// Renders the diagnostic for context bytes of the wrong length.
pub fn context_size_text() -> (r: String)
    ensures
        r@ == context_size_message(),
{
    String::from_str("Wrapper error. Crash context has the wrong size")
}

} // verus!
