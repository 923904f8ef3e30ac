//! The raw phone table: one 8-bit feature code per lowercase Latin letter,
//! plus the phonological overrides for spellings whose pronunciations
//! converge.

use vstd::prelude::*;

verus! {

/// Feature code of the close vowel `i`.
pub const I_PHONE: u8 = 0b10100001;

/// Feature code of the close vowel `u`.
pub const U_PHONE: u8 = 0b00010001;

/// The sound table, indexed by the letter's byte value (`97` is `a`).
///
/// Each bit flags a property of the phone: bit 1 is a discriminant for
/// tagging duplicates, and the following bits flag nasal, fricative,
/// plosive, dental, liquid, labial and "confident" (hard to misspell)
/// phones.  Letters with no defined phonetic class carry the sentinel 99,
/// distinct from every real code.  Vowels use codes chosen to maximize the
/// XOR distance between the open and close vowel classes.
pub open spec fn letter_code(x: u8) -> u8 {
    if x == 97 {
        0b11000001 // a
    } else if x == 98 {
        0b01001000 // b
    } else if x == 99 {
        99 // c
    } else if x == 100 {
        0b00011000 // d
    } else if x == 101 {
        0b10100001 // e
    } else if x == 102 {
        0b00000100 // f
    } else if x == 103 {
        0b10001000 // g
    } else if x == 104 {
        0b00100000 // h
    } else if x == 105 {
        0b10100001 // i
    } else if x == 106 {
        0b10011000 // j
    } else if x == 107 {
        0b10001000 // k
    } else if x == 108 {
        99 // l
    } else if x == 109 {
        0b00000010 // m
    } else if x == 110 {
        0b00010010 // n
    } else if x == 111 {
        0b10010001 // o
    } else if x == 112 {
        0b01001000 // p
    } else if x == 113 {
        99 // q
    } else if x == 114 {
        0b00010001 // r
    } else if x == 115 {
        0b10011000 // s
    } else if x == 116 {
        0b00011000 // t
    } else if x == 117 {
        0b00010001 // u
    } else if x == 118 {
        99 // v
    } else if x == 119 {
        0b01000100 // w
    } else if x == 120 {
        99 // x
    } else if x == 121 {
        0b00000000 // y
    } else {
        0b10011000 // z
    }
}

/// What `get_phone` returns: the table entry for a lowercase Latin letter
/// byte, absent for every byte outside `a`..=`z`.
pub open spec fn phone_lookup(x: u8) -> Option<u8> {
    if 97 <= x && x <= 122 {
        Some(letter_code(x))
    } else {
        None
    }
}

/// Filter a character's byte through the sound table.
///
/// `None` means "skip this character", whereas `Some(code)` means "push
/// `code`".  The fingerprint is built up from these codes and two
/// fingerprints are XORed to get their difference.
pub fn get_phone(x: u8) -> (r: Option<u8>)
    ensures
        r == phone_lookup(x),
{
    if 97 <= x && x <= 122 {
        let code: u8 = if x == 97 {
            0b11000001
        } else if x == 98 {
            0b01001000
        } else if x == 99 {
            99
        } else if x == 100 {
            0b00011000
        } else if x == 101 {
            0b10100001
        } else if x == 102 {
            0b00000100
        } else if x == 103 {
            0b10001000
        } else if x == 104 {
            0b00100000
        } else if x == 105 {
            0b10100001
        } else if x == 106 {
            0b10011000
        } else if x == 107 {
            0b10001000
        } else if x == 108 {
            99
        } else if x == 109 {
            0b00000010
        } else if x == 110 {
            0b00010010
        } else if x == 111 {
            0b10010001
        } else if x == 112 {
            0b01001000
        } else if x == 113 {
            99
        } else if x == 114 {
            0b00010001
        } else if x == 115 {
            0b10011000
        } else if x == 116 {
            0b00011000
        } else if x == 117 {
            0b00010001
        } else if x == 118 {
            99
        } else if x == 119 {
            0b01000100
        } else if x == 120 {
            99
        } else if x == 121 {
            0b00000000
        } else {
            0b10011000
        };
        Some(code)
    } else {
        None
    }
}

/// A lowercase Latin letter, the romanized form of a consonant or vowel.
pub open spec fn is_lower_letter(c: char) -> bool {
    97 <= (c as u32) && (c as u32) <= 122
}

/// The low byte of a character, as the table indexes it.
pub open spec fn char_byte(c: char) -> u8 {
    ((c as u32) as u8)
}

/// The code of an optional vowel letter: looked up plainly, skipped when
/// the letter is outside the table's range.
pub open spec fn vowel_code(b: Option<char>) -> Option<u8> {
    match b {
        None => None,
        Some(v) => phone_lookup(char_byte(v)),
    }
}

/// What `map_phone` returns: the override table first, the plain per-letter
/// lookup second.
///
/// The overrides model spellings whose pronunciations converge: the
/// voiced/devoiced alternations on the `u` row (the moras romanized as
/// `zu`, `du` and `tsu`) share one consonant code, those on the `i` row
/// (`zi`, `di`, `ti`) share another, and the mora romanized as `hu` or `fu`
/// is mapped to its irregular labial-fricative realization.
pub open spec fn map_phone_spec(a: char, b: Option<char>) -> (u8, Option<u8>) {
    if (a == 'z' || a == 'd' || a == 't') && b == Some('u') {
        (0b0011000, Some(U_PHONE))
    } else if (a == 'z' || a == 'd' || a == 't') && b == Some('i') {
        (0b00011000, Some(I_PHONE))
    } else if a == 'h' && b == Some('u') {
        (0b00000100, Some(U_PHONE))
    } else {
        (letter_code(char_byte(a)), vowel_code(b))
    }
}

/// The authoritative lookup for one mora's consonant letter and optional
/// vowel letter: applies the phonological overrides before falling back to
/// the plain per-letter mapping.
pub fn map_phone(a: char, b: Option<char>) -> (r: (u8, Option<u8>))
    requires
        is_lower_letter(a),
    ensures
        r == map_phone_spec(a, b),
{
    let is_u = match b {
        Some(v) => v == 'u',
        None => false,
    };
    let is_i = match b {
        Some(v) => v == 'i',
        None => false,
    };
    if (a == 'z' || a == 'd' || a == 't') && is_u {
        (0b0011000, Some(U_PHONE))
    } else if (a == 'z' || a == 'd' || a == 't') && is_i {
        (0b00011000, Some(I_PHONE))
    } else if a == 'h' && is_u {
        (0b00000100, Some(U_PHONE))
    } else {
        let ab: u8 = (a as u32) as u8;
        let cons = get_phone(ab);
        let vow = match b {
            Some(v) => get_phone(#[verifier::truncate] ((v as u32) as u8)),
            None => None,
        };
        (cons.unwrap(), vow)
    }
}

} // verus!
