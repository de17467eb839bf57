//! Validation of the dump destination path's byte encoding.
//!
//! The destination path crosses the boundary as raw bytes. A capture may only
//! proceed when those bytes are valid UTF-8; otherwise the invocation fails
//! before any file or process is touched. The scanner below is proved
//! equivalent to `vstd::utf8::valid_utf8`, and on failure reports the byte
//! index of the first ill-formed sequence and how many bytes of it were
//! acceptable, in the same way the standard library's UTF-8 validation does.

use vstd::prelude::*;
use vstd::utf8::*;

verus! {

/// A description of the first ill-formed UTF-8 sequence in a byte string.
pub struct Utf8Fault {
    /// Length of the longest valid prefix; the offending sequence starts here.
    pub valid_up_to: usize,
    /// Number of bytes of the offending sequence that fit the expected
    /// pattern before the first unexpected byte; `None` when the input ended
    /// in the middle of an incomplete sequence.
    pub error_len: Option<usize>,
}

/// Second-byte range of a well-formed 3-byte sequence, given its first byte.
/// The narrowed ranges for 0xe0 and 0xed exclude overlong encodings and
/// surrogate codepoints respectively.
pub open spec fn valid_second_of_3(b0: u8, b1: u8) -> bool {
    if b0 == 0xe0 {
        0xa0 <= b1 <= 0xbf
    } else if b0 == 0xed {
        0x80 <= b1 <= 0x9f
    } else {
        0x80 <= b1 <= 0xbf
    }
}

/// Second-byte range of a well-formed 4-byte sequence, given its first byte.
/// The narrowed ranges for 0xf0 and 0xf4 exclude overlong encodings and
/// codepoints beyond 0x10ffff respectively.
pub open spec fn valid_second_of_4(b0: u8, b1: u8) -> bool {
    if b0 == 0xf0 {
        0x90 <= b1 <= 0xbf
    } else if b0 == 0xf4 {
        0x80 <= b1 <= 0x8f
    } else {
        0x80 <= b1 <= 0xbf
    }
}

/// Scans `s` from position `i`: `None` when the rest is well-formed UTF-8,
/// otherwise the start of the first ill-formed sequence paired with the
/// number of acceptable bytes at that start (`None` for an input that ends
/// mid-sequence).
pub open spec fn utf8_fault_from(s: Seq<u8>, i: int) -> Option<(int, Option<int>)>
    recommends
        0 <= i <= s.len(),
    decreases s.len() - i,
{
    if i < 0 || i >= s.len() {
        None
    } else {
        let b0 = s[i];
        if b0 < 0x80 {
            utf8_fault_from(s, i + 1)
        } else if b0 < 0xc2 {
            Some((i, Some(1int)))
        } else if b0 < 0xe0 {
            if i + 1 >= s.len() {
                Some((i, None))
            } else if !is_continuation_byte(s[i + 1]) {
                Some((i, Some(1int)))
            } else {
                utf8_fault_from(s, i + 2)
            }
        } else if b0 < 0xf0 {
            if i + 1 >= s.len() {
                Some((i, None))
            } else if !valid_second_of_3(b0, s[i + 1]) {
                Some((i, Some(1int)))
            } else if i + 2 >= s.len() {
                Some((i, None))
            } else if !is_continuation_byte(s[i + 2]) {
                Some((i, Some(2int)))
            } else {
                utf8_fault_from(s, i + 3)
            }
        } else if b0 < 0xf5 {
            if i + 1 >= s.len() {
                Some((i, None))
            } else if !valid_second_of_4(b0, s[i + 1]) {
                Some((i, Some(1int)))
            } else if i + 2 >= s.len() {
                Some((i, None))
            } else if !is_continuation_byte(s[i + 2]) {
                Some((i, Some(2int)))
            } else if i + 3 >= s.len() {
                Some((i, None))
            } else if !is_continuation_byte(s[i + 3]) {
                Some((i, Some(3int)))
            } else {
                utf8_fault_from(s, i + 4)
            }
        } else {
            Some((i, Some(1int)))
        }
    }
}

/// The fault reported by the scanner agrees with the spec-level description.
pub open spec fn fault_matches(f: Utf8Fault, g: (int, Option<int>)) -> bool {
    &&& f.valid_up_to as int == g.0
    &&& match (f.error_len, g.1) {
        (Some(a), Some(b)) => a as int == b,
        (None, None) => true,
        _ => false,
    }
}

/// A byte sequence whose first scalar is ill-formed is not valid UTF-8.
proof fn lemma_invalid_head(t: Seq<u8>)
    requires
        t.len() > 0,
        !valid_first_scalar(t),
    ensures
        !valid_utf8(t),
{
}

/// The scanner finds no fault from `i` exactly when the suffix of `s`
/// starting at `i` is valid UTF-8.
pub proof fn lemma_fault_none_iff_valid(s: Seq<u8>, i: int)
    requires
        0 <= i <= s.len(),
    ensures
        utf8_fault_from(s, i) is None <==> valid_utf8(s.subrange(i, s.len() as int)),
    decreases s.len() - i,
{
    let t = s.subrange(i, s.len() as int);
    if i == s.len() {
    } else {
        let b0 = s[i];
        assert(t[0] == b0);
        if b0 < 0x80 {
            assert(((b0 & 0x7f) as u32) < 0x80) by (bit_vector)
                requires
                    b0 < 0x80,
            ;
            assert(valid_first_scalar(t));
            assert(length_of_first_scalar(t) == 1);
            assert(pop_first_scalar(t) =~= s.subrange(i + 1, s.len() as int));
            lemma_fault_none_iff_valid(s, i + 1);
        } else if b0 < 0xc2 {
            if t.len() >= 2 && is_leading_byte_width_2(b0) && is_continuation_byte(t[1]) {
                let b1 = t[1];
                assert((((b0 & 0x1f) as u32) << 6 | ((b1 & 0x3f) as u32)) < 0x80) by (bit_vector)
                    requires
                        0xc0 <= b0 < 0xc2,
                        0x80 <= b1 <= 0xbf,
                ;
                assert(!valid_first_scalar(t));
            } else {
                assert(!valid_first_scalar(t));
            }
            lemma_invalid_head(t);
        } else if b0 < 0xe0 {
            if i + 1 >= s.len() || !is_continuation_byte(s[i + 1]) {
                assert(!valid_first_scalar(t));
                lemma_invalid_head(t);
            } else {
                let b1 = s[i + 1];
                assert(t[1] == b1);
                assert((((b0 & 0x1f) as u32) << 6 | ((b1 & 0x3f) as u32)) >= 0x80
                    && (((b0 & 0x1f) as u32) << 6 | ((b1 & 0x3f) as u32)) < 0xd800) by (bit_vector)
                    requires
                        0xc2 <= b0 < 0xe0,
                        0x80 <= b1 <= 0xbf,
                ;
                assert(valid_first_scalar(t));
                assert(length_of_first_scalar(t) == 2);
                assert(pop_first_scalar(t) =~= s.subrange(i + 2, s.len() as int));
                lemma_fault_none_iff_valid(s, i + 2);
            }
        } else if b0 < 0xf0 {
            if i + 1 >= s.len() {
                assert(!valid_first_scalar(t));
                lemma_invalid_head(t);
            } else {
                let b1 = s[i + 1];
                assert(t[1] == b1);
                if !valid_second_of_3(b0, b1) {
                    if t.len() >= 3 && is_continuation_byte(b1) && is_continuation_byte(t[2]) {
                        let b2 = t[2];
                        if b0 == 0xe0 {
                            assert((((b0 & 0x0f) as u32) << 12 | ((b1 & 0x3f) as u32) << 6 | (
                            (b2 & 0x3f) as u32)) < 0x800) by (bit_vector)
                                requires
                                    b0 == 0xe0,
                                    0x80 <= b1 <= 0x9f,
                                    0x80 <= b2 <= 0xbf,
                            ;
                        } else {
                            assert(b0 == 0xed && 0xa0 <= b1 <= 0xbf);
                            assert(0xd800 <= (((b0 & 0x0f) as u32) << 12 | ((b1 & 0x3f) as u32)
                                << 6 | ((b2 & 0x3f) as u32)) <= 0xdfff) by (bit_vector)
                                requires
                                    b0 == 0xed,
                                    0xa0 <= b1 <= 0xbf,
                                    0x80 <= b2 <= 0xbf,
                            ;
                        }
                        assert(!valid_first_scalar(t));
                    } else {
                        assert(!valid_first_scalar(t));
                    }
                    lemma_invalid_head(t);
                } else if i + 2 >= s.len() || !is_continuation_byte(s[i + 2]) {
                    assert(!valid_first_scalar(t));
                    lemma_invalid_head(t);
                } else {
                    let b2 = s[i + 2];
                    assert(t[2] == b2);
                    assert(is_continuation_byte(b1));
                    assert(0x800 <= (((b0 & 0x0f) as u32) << 12 | ((b1 & 0x3f) as u32) << 6 | ((b2
                        & 0x3f) as u32)) <= 0xffff && !(0xd800 <= (((b0 & 0x0f) as u32) << 12 | ((
                    b1 & 0x3f) as u32) << 6 | ((b2 & 0x3f) as u32)) <= 0xdfff)) by (bit_vector)
                        requires
                            0xe0 <= b0 < 0xf0,
                            b0 == 0xe0 ==> 0xa0 <= b1,
                            b0 == 0xed ==> b1 <= 0x9f,
                            0x80 <= b1 <= 0xbf,
                            0x80 <= b2 <= 0xbf,
                    ;
                    assert(valid_first_scalar(t));
                    assert(length_of_first_scalar(t) == 3);
                    assert(pop_first_scalar(t) =~= s.subrange(i + 3, s.len() as int));
                    lemma_fault_none_iff_valid(s, i + 3);
                }
            }
        } else if b0 < 0xf5 {
            if i + 1 >= s.len() {
                assert(!valid_first_scalar(t));
                lemma_invalid_head(t);
            } else {
                let b1 = s[i + 1];
                assert(t[1] == b1);
                if !valid_second_of_4(b0, b1) {
                    if t.len() >= 4 && is_continuation_byte(b1) && is_continuation_byte(t[2])
                        && is_continuation_byte(t[3]) {
                        let b2 = t[2];
                        let b3 = t[3];
                        if b0 == 0xf0 {
                            assert((((b0 & 0x07) as u32) << 18 | ((b1 & 0x3f) as u32) << 12 | ((b2
                                & 0x3f) as u32) << 6 | ((b3 & 0x3f) as u32)) < 0x10000) by (bit_vector)
                                requires
                                    b0 == 0xf0,
                                    0x80 <= b1 <= 0x8f,
                                    0x80 <= b2 <= 0xbf,
                                    0x80 <= b3 <= 0xbf,
                            ;
                        } else {
                            assert(b0 == 0xf4 && 0x90 <= b1 <= 0xbf);
                            assert((((b0 & 0x07) as u32) << 18 | ((b1 & 0x3f) as u32) << 12 | ((b2
                                & 0x3f) as u32) << 6 | ((b3 & 0x3f) as u32)) > 0x10ffff) by (bit_vector)
                                requires
                                    b0 == 0xf4,
                                    0x90 <= b1 <= 0xbf,
                                    0x80 <= b2 <= 0xbf,
                                    0x80 <= b3 <= 0xbf,
                            ;
                        }
                        assert(!valid_first_scalar(t));
                    } else {
                        assert(!valid_first_scalar(t));
                    }
                    lemma_invalid_head(t);
                } else if i + 2 >= s.len() || !is_continuation_byte(s[i + 2]) {
                    assert(!valid_first_scalar(t));
                    lemma_invalid_head(t);
                } else if i + 3 >= s.len() || !is_continuation_byte(s[i + 3]) {
                    assert(!valid_first_scalar(t));
                    lemma_invalid_head(t);
                } else {
                    let b2 = s[i + 2];
                    let b3 = s[i + 3];
                    assert(t[2] == b2 && t[3] == b3);
                    assert(is_continuation_byte(b1));
                    assert(0x10000 <= (((b0 & 0x07) as u32) << 18 | ((b1 & 0x3f) as u32) << 12 | (
                    (b2 & 0x3f) as u32) << 6 | ((b3 & 0x3f) as u32)) <= 0x10ffff) by (bit_vector)
                        requires
                            0xf0 <= b0 < 0xf5,
                            b0 == 0xf0 ==> 0x90 <= b1 <= 0xbf,
                            b0 == 0xf4 ==> 0x80 <= b1 <= 0x8f,
                            0x80 <= b1 <= 0xbf,
                            0x80 <= b2 <= 0xbf,
                            0x80 <= b3 <= 0xbf,
                    ;
                    assert(valid_first_scalar(t));
                    assert(length_of_first_scalar(t) == 4);
                    assert(pop_first_scalar(t) =~= s.subrange(i + 4, s.len() as int));
                    lemma_fault_none_iff_valid(s, i + 4);
                }
            }
        } else {
            if t.len() >= 4 && is_leading_byte_width_4(b0) && is_continuation_byte(t[1])
                && is_continuation_byte(t[2]) && is_continuation_byte(t[3]) {
                let b1 = t[1];
                let b2 = t[2];
                let b3 = t[3];
                assert((((b0 & 0x07) as u32) << 18 | ((b1 & 0x3f) as u32) << 12 | ((b2
                    & 0x3f) as u32) << 6 | ((b3 & 0x3f) as u32)) > 0x10ffff) by (bit_vector)
                    requires
                        0xf5 <= b0 <= 0xf7,
                        0x80 <= b1 <= 0xbf,
                        0x80 <= b2 <= 0xbf,
                        0x80 <= b3 <= 0xbf,
                ;
                assert(!valid_first_scalar(t));
            } else {
                assert(!valid_first_scalar(t));
            }
            lemma_invalid_head(t);
        }
    }
}

/// The scanner finds no fault in the whole byte string exactly when it is
/// valid UTF-8.
pub proof fn lemma_fault_none_iff_valid_utf8(s: Seq<u8>)
    ensures
        utf8_fault_from(s, 0) is None <==> valid_utf8(s),
{
    lemma_fault_none_iff_valid(s, 0);
    assert(s.subrange(0, s.len() as int) =~= s);
}

/// Truncating the bytes at the reported fault position leaves a string that
/// the scanner, resumed from `j`, finds no fault in: the scanner only crossed
/// whole well-formed scalars that end at or before the fault.
proof fn lemma_prefix_scan_clean(s: Seq<u8>, j: int, v: int, e: Option<int>)
    requires
        0 <= j <= s.len(),
        utf8_fault_from(s, j) == Some((v, e)),
    ensures
        j <= v < s.len(),
        utf8_fault_from(s.subrange(0, v), j) is None,
    decreases s.len() - j,
{
    let p = s.subrange(0, v);
    let b0 = s[j];
    if b0 < 0x80 {
        lemma_prefix_scan_clean(s, j + 1, v, e);
        assert(p[j] == b0);
        assert(utf8_fault_from(p, j) == utf8_fault_from(p, j + 1));
    } else if b0 < 0xc2 {
        assert(v == j);
    } else if b0 < 0xe0 {
        if j + 1 >= s.len() || !is_continuation_byte(s[j + 1]) {
            assert(v == j);
        } else {
            lemma_prefix_scan_clean(s, j + 2, v, e);
            assert(p[j] == b0 && p[j + 1] == s[j + 1]);
            assert(utf8_fault_from(p, j) == utf8_fault_from(p, j + 2));
        }
    } else if b0 < 0xf0 {
        if j + 1 >= s.len() || !valid_second_of_3(b0, s[j + 1]) || j + 2 >= s.len()
            || !is_continuation_byte(s[j + 2]) {
            assert(v == j);
        } else {
            lemma_prefix_scan_clean(s, j + 3, v, e);
            assert(p[j] == b0 && p[j + 1] == s[j + 1] && p[j + 2] == s[j + 2]);
            assert(utf8_fault_from(p, j) == utf8_fault_from(p, j + 3));
        }
    } else if b0 < 0xf5 {
        if j + 1 >= s.len() || !valid_second_of_4(b0, s[j + 1]) || j + 2 >= s.len()
            || !is_continuation_byte(s[j + 2]) || j + 3 >= s.len() || !is_continuation_byte(
            s[j + 3],
        ) {
            assert(v == j);
        } else {
            lemma_prefix_scan_clean(s, j + 4, v, e);
            assert(p[j] == b0 && p[j + 1] == s[j + 1] && p[j + 2] == s[j + 2] && p[j + 3] == s[j
                + 3]);
            assert(utf8_fault_from(p, j) == utf8_fault_from(p, j + 4));
        }
    } else {
        assert(v == j);
    }
}

/// The bytes before a reported fault position are themselves valid UTF-8:
/// `valid_up_to` names the longest valid prefix.
pub proof fn lemma_fault_prefix_valid(s: Seq<u8>)
    requires
        utf8_fault_from(s, 0) is Some,
    ensures
        0 <= utf8_fault_from(s, 0)->Some_0.0 < s.len(),
        valid_utf8(s.subrange(0, utf8_fault_from(s, 0)->Some_0.0)),
{
    let (v, e) = utf8_fault_from(s, 0)->Some_0;
    lemma_prefix_scan_clean(s, 0, v, e);
    let p = s.subrange(0, v);
    lemma_fault_none_iff_valid_utf8(p);
}

/// Scans the bytes of a path: `None` when they are valid UTF-8, otherwise the
/// position and shape of the first ill-formed sequence.
pub fn scan_utf8(bytes: &Vec<u8>) -> (r: Option<Utf8Fault>)
    ensures
        r is None <==> valid_utf8(bytes@),
        match r {
            None => utf8_fault_from(bytes@, 0) is None,
            Some(f) => utf8_fault_from(bytes@, 0) matches Some(g) && fault_matches(f, g),
        },
        r matches Some(f) ==> f.valid_up_to < bytes@.len() && valid_utf8(
            bytes@.subrange(0, f.valid_up_to as int),
        ),
{
    let n = bytes.len();
    let mut i: usize = 0;
    while i < n
        invariant
            n == bytes@.len(),
            0 <= i <= n,
            utf8_fault_from(bytes@, 0) == utf8_fault_from(bytes@, i as int),
        decreases n - i,
    {
        let b0 = bytes[i];
        if b0 < 0x80 {
            i = i + 1;
        } else if b0 < 0xc2 {
            proof {
                lemma_fault_none_iff_valid_utf8(bytes@);
                lemma_fault_prefix_valid(bytes@);
            }
            return Some(Utf8Fault { valid_up_to: i, error_len: Some(1) });
        } else if b0 < 0xe0 {
            if i + 1 >= n {
                proof {
                    lemma_fault_none_iff_valid_utf8(bytes@);
                    lemma_fault_prefix_valid(bytes@);
                }
                return Some(Utf8Fault { valid_up_to: i, error_len: None });
            }
            let b1 = bytes[i + 1];
            if !(0x80 <= b1 && b1 <= 0xbf) {
                proof {
                    lemma_fault_none_iff_valid_utf8(bytes@);
                    lemma_fault_prefix_valid(bytes@);
                }
                return Some(Utf8Fault { valid_up_to: i, error_len: Some(1) });
            }
            i = i + 2;
        } else if b0 < 0xf0 {
            if i + 1 >= n {
                proof {
                    lemma_fault_none_iff_valid_utf8(bytes@);
                    lemma_fault_prefix_valid(bytes@);
                }
                return Some(Utf8Fault { valid_up_to: i, error_len: None });
            }
            let b1 = bytes[i + 1];
            let second_ok: bool = if b0 == 0xe0 {
                0xa0 <= b1 && b1 <= 0xbf
            } else if b0 == 0xed {
                0x80 <= b1 && b1 <= 0x9f
            } else {
                0x80 <= b1 && b1 <= 0xbf
            };
            if !second_ok {
                proof {
                    lemma_fault_none_iff_valid_utf8(bytes@);
                    lemma_fault_prefix_valid(bytes@);
                }
                return Some(Utf8Fault { valid_up_to: i, error_len: Some(1) });
            }
            if i + 2 >= n {
                proof {
                    lemma_fault_none_iff_valid_utf8(bytes@);
                    lemma_fault_prefix_valid(bytes@);
                }
                return Some(Utf8Fault { valid_up_to: i, error_len: None });
            }
            let b2 = bytes[i + 2];
            if !(0x80 <= b2 && b2 <= 0xbf) {
                proof {
                    lemma_fault_none_iff_valid_utf8(bytes@);
                    lemma_fault_prefix_valid(bytes@);
                }
                return Some(Utf8Fault { valid_up_to: i, error_len: Some(2) });
            }
            i = i + 3;
        } else if b0 < 0xf5 {
            if i + 1 >= n {
                proof {
                    lemma_fault_none_iff_valid_utf8(bytes@);
                    lemma_fault_prefix_valid(bytes@);
                }
                return Some(Utf8Fault { valid_up_to: i, error_len: None });
            }
            let b1 = bytes[i + 1];
            let second_ok: bool = if b0 == 0xf0 {
                0x90 <= b1 && b1 <= 0xbf
            } else if b0 == 0xf4 {
                0x80 <= b1 && b1 <= 0x8f
            } else {
                0x80 <= b1 && b1 <= 0xbf
            };
            if !second_ok {
                proof {
                    lemma_fault_none_iff_valid_utf8(bytes@);
                    lemma_fault_prefix_valid(bytes@);
                }
                return Some(Utf8Fault { valid_up_to: i, error_len: Some(1) });
            }
            if i + 2 >= n {
                proof {
                    lemma_fault_none_iff_valid_utf8(bytes@);
                    lemma_fault_prefix_valid(bytes@);
                }
                return Some(Utf8Fault { valid_up_to: i, error_len: None });
            }
            let b2 = bytes[i + 2];
            if !(0x80 <= b2 && b2 <= 0xbf) {
                proof {
                    lemma_fault_none_iff_valid_utf8(bytes@);
                    lemma_fault_prefix_valid(bytes@);
                }
                return Some(Utf8Fault { valid_up_to: i, error_len: Some(2) });
            }
            if i + 3 >= n {
                proof {
                    lemma_fault_none_iff_valid_utf8(bytes@);
                    lemma_fault_prefix_valid(bytes@);
                }
                return Some(Utf8Fault { valid_up_to: i, error_len: None });
            }
            let b3 = bytes[i + 3];
            if !(0x80 <= b3 && b3 <= 0xbf) {
                proof {
                    lemma_fault_none_iff_valid_utf8(bytes@);
                    lemma_fault_prefix_valid(bytes@);
                }
                return Some(Utf8Fault { valid_up_to: i, error_len: Some(3) });
            }
            i = i + 4;
        } else {
            proof {
                lemma_fault_none_iff_valid_utf8(bytes@);
                lemma_fault_prefix_valid(bytes@);
            }
            return Some(Utf8Fault { valid_up_to: i, error_len: Some(1) });
        }
    }
    proof {
        lemma_fault_none_iff_valid_utf8(bytes@);
    }
    None
}

} // verus!
