//! Decomposition of one hiragana character into feature codes: the
//! external syllable classifier hands back romanized consonant and vowel
//! letters, and the phone table turns them into one or two feature bytes.

use crate::raw;
use vstd::prelude::*;

verus! {

/// The small "tsu" character, which doubles the following consonant and
/// contributes no mora of its own.
pub const SOKUON: char = '\u{3063}';

/// A character of the hiragana block.
pub open spec fn hira_char(c: char) -> bool {
    0x3040 <= (c as u32) && (c as u32) <= 0x309F
}

/// What the external syllable classifier returns for one character: the
/// romanized consonant and vowel letters of its mora, either of which may
/// be absent, or nothing for a character that is no valid mora.  The
/// decomposition is a fixed table over the character alone.
pub uninterp spec fn mora_split(c: char) -> Option<(Option<char>, Option<char>)>;

/// Relies on `jp_utils::hiragana::Syllable::get_splitted` and the
/// `to_romaji` conversions of its consonant and vowel parts: all are pure
/// functions of a fixed table, so the result depends on the character
/// alone.  A consonant the crate cannot romanize is reported as absent.
#[verifier::external_body]
fn classify_mora(c: char) -> (r: Option<(Option<char>, Option<char>)>)
    ensures
        r == mora_split(c),
{
    let split = jp_utils::hiragana::Syllable::from_char(c).get_splitted();
    match split {
        None => None,
        Some(sp) => {
            let vowel = match sp.vowel() {
                Some(v) => Some(v.to_romaji()),
                None => None,
            };
            let consonant = match sp.consonant() {
                Some(con) => con.to_romaji(),
                None => None,
            };
            Some((consonant, vowel))
        },
    }
}

/// The feature bytes of one classified mora: a vowel-only mora is looked up
/// through its vowel letter alone, every other mora through the consonant
/// letter and the optional vowel letter.  A mora whose primary letter falls
/// outside the table's range yields no bytes at all.
pub open spec fn feature_bytes_spec(cons: Option<char>, vowel: Option<char>) -> Seq<u8> {
    let (c, v) = if cons is None && vowel is Some {
        (vowel, None::<char>)
    } else {
        (cons, vowel)
    };
    match c {
        None => seq![],
        Some(a) => {
            if !raw::is_lower_letter(a) {
                seq![]
            } else {
                let (ch, vh) = raw::map_phone_spec(a, v);
                match vh {
                    None => seq![ch],
                    Some(x) => seq![ch, x],
                }
            }
        },
    }
}

/// Maps one classified mora through the phone table.
pub fn feature_bytes(cons: Option<char>, vowel: Option<char>) -> (r: Vec<u8>)
    ensures
        r@ == feature_bytes_spec(cons, vowel),
{
    let (c, v) = if cons.is_none() && vowel.is_some() {
        (vowel, None::<char>)
    } else {
        (cons, vowel)
    };
    match c {
        None => Vec::new(),
        Some(a) => {
            let code = a as u32;
            if !(97 <= code && code <= 122) {
                Vec::new()
            } else {
                let (ch, vh) = raw::map_phone(a, v);
                let mut r: Vec<u8> = Vec::new();
                r.push(ch);
                if let Some(x) = vh {
                    r.push(x);
                }
                proof {
                    assert(r@ =~= feature_bytes_spec(cons, vowel));
                }
                r
            }
        },
    }
}

/// The feature bytes one character contributes on its own: none when the
/// classifier does not know it as a mora.
pub open spec fn split_bytes(c: char) -> Seq<u8> {
    match mora_split(c) {
        None => seq![],
        Some(p) => feature_bytes_spec(p.0, p.1),
    }
}

/// Classifies one character and maps it through the phone table.
pub fn split_syllable(c: char) -> (r: Vec<u8>)
    ensures
        r@ == split_bytes(c),
{
    match classify_mora(c) {
        None => Vec::new(),
        Some((cons, vowel)) => feature_bytes(cons, vowel),
    }
}

} // verus!
