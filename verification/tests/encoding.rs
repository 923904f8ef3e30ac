//! Exact fingerprint values, the rejection rules, truncation at the byte
//! budget, and the shape of the two distance metrics.

use jpeudex::raw;

#[test]
fn test_rejection_empty() {
    assert!(jpeudex::Hash::new("").is_none());
}

#[test]
fn test_rejection_whitespace() {
    assert!(jpeudex::Hash::new("   ").is_none());
}

#[test]
fn test_rejection_mixed_script() {
    assert!(jpeudex::Hash::new("かtも").is_none());
    assert!(jpeudex::Hash::new("カも").is_none());
    assert!(jpeudex::Hash::new("kamo").is_none());
}

#[test]
fn test_rejection_single_mora() {
    // The completion check compares the tally of bytes emitted after the
    // first mora against the whole character count, so a one-character
    // word never reaches it.
    assert!(jpeudex::Hash::new("か").is_none());
}

#[test]
fn test_rejection_leading_gemination_marker() {
    // A leading small tsu is no mora of its own: the first mora yields no
    // feature bytes.
    assert!(jpeudex::Hash::new("っか").is_none());
}

#[test]
fn test_exact_fingerprint_values() {
    // ka = 0x88, a = 0xC1 fill the top bytes; mo = 0x02, o = 0x91 the
    // bottom.
    assert_eq!(jpeudex::Hash::new("かも").unwrap().raw(), 0x88C10000000000000000000000000291u128);
    // n alone is one byte, and ji takes the merged i-row consonant code.
    assert_eq!(jpeudex::Hash::new("かんじ").unwrap().raw(), 0x88C100000000000000000000001218A1u128);
}

#[test]
fn test_gemination_carry_value() {
    // su = [0x98, 0x11]; the small tsu re-emits the preceding byte 0x11;
    // pa = [0x48, 0xC1].
    assert_eq!(jpeudex::Hash::new("すっぱ").unwrap().raw(), 0x981100000000000000000000001148C1u128);
}

#[test]
fn test_determinism() {
    let a = jpeudex::Hash::new("かたづける").unwrap();
    let b = jpeudex::Hash::new("かたづける").unwrap();
    assert_eq!(a, b);
}

#[test]
fn test_truncation_cap() {
    // Eight two-byte moras fill the sixteen-byte budget exactly; appending
    // more of them changes nothing while the tally still covers the word.
    let capped = jpeudex::Hash::new(&"か".repeat(8)).unwrap();
    assert_eq!(capped.raw(), 0x88C188C188C188C188C188C188C188C1u128);
    for extra in 9..=14 {
        assert_eq!(jpeudex::Hash::new(&"か".repeat(extra)).unwrap(), capped);
    }
}

#[test]
fn test_truncation_overlong_rejected() {
    // Once the word outgrows even the truncated tally, it is rejected.
    assert!(jpeudex::Hash::new(&"か".repeat(15)).is_none());
}

#[test]
fn test_weighted_vs_flat() {
    // One mismatched bit in the most significant byte against one in the
    // least significant byte: flat distances agree, the weighted distance
    // is smaller for the late mismatch.
    let zero = jpeudex::Hash::from(0u128);
    let top = jpeudex::Hash::from(1u128 << 120);
    let bottom = jpeudex::Hash::from(1u128);
    let d_top = zero.difference(top);
    let d_bottom = zero.difference(bottom);
    assert_eq!(d_top.hamming(), 1);
    assert_eq!(d_bottom.hamming(), 1);
    assert_eq!(d_top.dist(), 14);
    assert_eq!(d_bottom.dist(), 1);
    assert!(d_bottom.dist() < d_top.dist());
}

#[test]
fn test_threshold_boundary() {
    // Two bits in the top byte weigh 28; one or two more in the bottom
    // byte land exactly on either side of the threshold of 30.
    let zero = jpeudex::Hash::from(0u128);
    let at_29 = zero.difference(jpeudex::Hash::from((0b11u128 << 120) | 0b1));
    assert_eq!(at_29.dist(), 29);
    assert!(at_29.similar());
    let at_30 = zero.difference(jpeudex::Hash::from((0b11u128 << 120) | 0b11));
    assert_eq!(at_30.dist(), 30);
    assert!(!at_30.similar());
}

#[test]
fn test_identity_distance() {
    let a = jpeudex::Hash::new("ともだち").unwrap();
    let d = a.difference(a);
    assert_eq!(d.xor(), 0);
    assert_eq!(d.hamming(), 0);
    assert_eq!(d.dist(), 0);
    assert!(d.similar());
}

#[test]
fn test_symmetry() {
    let a = jpeudex::Hash::new("ともだち").unwrap();
    let b = jpeudex::Hash::new("たまごやき").unwrap();
    assert_eq!(a.difference(b).hamming(), b.difference(a).hamming());
    assert_eq!(a.difference(b).dist(), b.difference(a).dist());
    assert_eq!(a.difference(b).xor(), b.difference(a).xor());
}

#[test]
fn test_raw_round_trip() {
    let a = jpeudex::Hash::new("へんこう").unwrap();
    assert_eq!(jpeudex::Hash::from(a.raw()), a);
    assert_eq!(jpeudex::Hash::from(0xDEAD_BEEFu128).raw(), 0xDEAD_BEEFu128);
}

#[test]
fn test_word_difference() {
    let d = jpeudex::word_difference("きづく", "きずく").unwrap();
    assert_eq!(d.hamming(), 0);
    assert!(jpeudex::word_difference("きづく", "").is_none());
    assert!(jpeudex::word_difference("", "きづく").is_none());
}

#[test]
fn test_get_phone_table() {
    // In-range letters map to their table codes, letters without a class
    // to the sentinel, and out-of-range bytes to nothing.
    assert_eq!(raw::get_phone(b'a'), Some(0b11000001));
    assert_eq!(raw::get_phone(b'z'), Some(0b10011000));
    assert_eq!(raw::get_phone(b'c'), Some(99));
    assert_eq!(raw::get_phone(b'A'), None);
    assert_eq!(raw::get_phone(b'{'), None);
    assert_eq!(raw::get_phone(0), None);
}

#[test]
fn test_map_phone_overrides() {
    // zu, du and tsu converge on one pair of codes; so do zi, di, ti; fu
    // takes the labial fricative; anything else is the plain lookup.
    let zu = raw::map_phone('z', Some('u'));
    assert_eq!(zu, raw::map_phone('d', Some('u')));
    assert_eq!(zu, raw::map_phone('t', Some('u')));
    assert_eq!(zu, (0b0011000, Some(0b00010001)));
    let zi = raw::map_phone('z', Some('i'));
    assert_eq!(zi, raw::map_phone('d', Some('i')));
    assert_eq!(zi, raw::map_phone('t', Some('i')));
    assert_eq!(zi, (0b00011000, Some(0b10100001)));
    assert_eq!(raw::map_phone('h', Some('u')), (0b00000100, Some(0b00010001)));
    assert_eq!(raw::map_phone('k', Some('a')), (0b10001000, Some(0b11000001)));
    assert_eq!(raw::map_phone('n', None), (0b00010010, None));
}
