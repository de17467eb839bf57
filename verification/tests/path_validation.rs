//! The path-encoding scanner against the standard library's UTF-8 validation.

use rust_minidump_writer_linux::path_encoding::scan_utf8;

fn agrees_with_std(bytes: &[u8]) {
    let v: Vec<u8> = bytes.to_vec();
    match (scan_utf8(&v), std::str::from_utf8(bytes)) {
        (None, Ok(_)) => {}
        (Some(f), Err(e)) => {
            assert_eq!(f.valid_up_to, e.valid_up_to(), "valid_up_to for {:?}", bytes);
            assert_eq!(f.error_len, e.error_len(), "error_len for {:?}", bytes);
        }
        (r, s) => panic!("scanner {:?} disagrees with std {:?} on {:?}", r.is_none(), s.is_ok(), bytes),
    }
}

#[test]
fn accepts_ascii_path() {
    assert!(scan_utf8(&b"/tmp/minidump.dmp".to_vec()).is_none());
}

#[test]
fn accepts_empty() {
    assert!(scan_utf8(&Vec::new()).is_none());
}

#[test]
fn accepts_multibyte_sequences() {
    for s in ["/tmp/\u{e9}", "\u{0416}", "\u{20ac}x", "\u{10348}", "\u{10ffff}", "a\u{7ff}\u{800}\u{ffff}\u{10000}"] {
        assert!(scan_utf8(&s.as_bytes().to_vec()).is_none(), "rejected {:?}", s);
    }
}

#[test]
fn rejects_stray_continuation_byte() {
    let f = scan_utf8(&vec![0x61, 0x62, 0x80]).unwrap();
    assert_eq!(f.valid_up_to, 2);
    assert_eq!(f.error_len, Some(1));
}

#[test]
fn rejects_overlong_two_byte() {
    let f = scan_utf8(&vec![0xc0, 0x80]).unwrap();
    assert_eq!(f.valid_up_to, 0);
    assert_eq!(f.error_len, Some(1));
}

#[test]
fn rejects_overlong_three_byte() {
    let f = scan_utf8(&vec![0xe0, 0x80, 0x80]).unwrap();
    assert_eq!(f.valid_up_to, 0);
    assert_eq!(f.error_len, Some(1));
}

#[test]
fn rejects_surrogate() {
    let f = scan_utf8(&vec![0xed, 0xa0, 0x80]).unwrap();
    assert_eq!(f.valid_up_to, 0);
    assert_eq!(f.error_len, Some(1));
}

#[test]
fn rejects_beyond_max_scalar() {
    assert!(scan_utf8(&vec![0xf4, 0x8f, 0xbf, 0xbf]).is_none());
    let f = scan_utf8(&vec![0xf4, 0x90, 0x80, 0x80]).unwrap();
    assert_eq!(f.valid_up_to, 0);
    assert_eq!(f.error_len, Some(1));
}

#[test]
fn reports_incomplete_tail() {
    let f = scan_utf8(&vec![0x61, 0xe2, 0x82]).unwrap();
    assert_eq!(f.valid_up_to, 1);
    assert_eq!(f.error_len, None);
}

#[test]
fn reports_bad_continuation_position() {
    // Second continuation byte of a three-byte sequence is wrong.
    let f = scan_utf8(&vec![0xe2, 0x82, 0x28]).unwrap();
    assert_eq!(f.valid_up_to, 0);
    assert_eq!(f.error_len, Some(2));
}

#[test]
fn matches_std_on_edge_cases() {
    let cases: Vec<Vec<u8>> = vec![
        b"plain ascii".to_vec(),
        vec![0xff],
        vec![0x61, 0xff, 0x62],
        vec![0xc2],
        vec![0xc2, 0x41],
        vec![0xc1, 0xbf],
        vec![0xe0, 0xa0, 0x80],
        vec![0xe0, 0x9f, 0xbf],
        vec![0xed, 0x9f, 0xbf],
        vec![0xed, 0xa0],
        vec![0xe2, 0x82],
        vec![0xe2, 0x82, 0xac],
        vec![0xf0, 0x90, 0x80, 0x80],
        vec![0xf0, 0x8f, 0xbf, 0xbf],
        vec![0xf1, 0x80, 0x80],
        vec![0xf1, 0x80, 0x80, 0x41],
        vec![0xf5, 0x80, 0x80, 0x80],
        vec![0xf8, 0x88],
        vec![0x61, 0x62, 0xf4, 0x90],
        vec![0x80],
        vec![0xbf, 0xbf],
    ];
    for c in cases {
        agrees_with_std(&c);
    }
}

#[test]
fn matches_std_on_all_two_byte_strings() {
    for a in 0..=255u8 {
        for b in [0x00u8, 0x41, 0x7f, 0x80, 0x9f, 0xa0, 0xbf, 0xc0, 0xc2, 0xdf, 0xe0, 0xed, 0xf0, 0xf4, 0xf5, 0xff] {
            agrees_with_std(&[a, b]);
        }
    }
}
