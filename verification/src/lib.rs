//! A Soundex-esque phonetic reduction for Japanese words written in
//! hiragana: each word is packed into a locality-sensitive 128-bit
//! fingerprint, and fingerprints are compared by Hamming-style distances
//! that correlate with perceived phonetic similarity.

use vstd::prelude::*;
use vstd::string::StrSliceExecFns;

pub mod encode;
pub mod laws;
pub mod mora;
pub mod raw;

verus! {

/// The fingerprint of a word, or `None` where the word is rejected: not
/// wholly hiragana, empty, or some mora of it decomposed to no feature
/// bytes.
pub open spec fn new_spec(s: Seq<char>) -> Option<Hash> {
    match encode::encode_chars(s) {
        None => None,
        Some(h) => Some(Hash::from_raw_spec(h)),
    }
}

/// A phonetic hash: up to sixteen 8-bit feature codes packed into one
/// 128-bit value, most significant byte first.
#[derive(Copy, Clone, Hash, PartialEq, Eq, PartialOrd, Ord, Structural, Debug)]
pub struct Hash {
    hash: u128,
}

impl Hash {
    /// The packed 128-bit value.
    pub closed spec fn value(self) -> u128 {
        self.hash
    }

    /// The hash with exactly this packed value.
    pub closed spec fn from_raw_spec(hash: u128) -> Hash {
        Hash { hash }
    }

    /// The raw 128-bit form, for storage or transport.
    pub fn raw(self) -> (r: u128)
        ensures
            r == self.value(),
    {
        self.hash
    }

    /// Encodes a word that is already known to be encodable; the optional
    /// form `new` is preferred when validity is not guaranteed upstream.
    pub fn new_unchecked(string: &str) -> (r: Hash)
        requires
            new_spec(string@) is Some,
        ensures
            Some(r) == new_spec(string@),
    {
        let hash = Self::new(string);
        hash.unwrap()
    }

    /// Encodes a word written in hiragana into its phonetic fingerprint.
    ///
    /// Returns `None` for a word that is not wholly hiragana, is empty, or
    /// has a mora that decomposes to no feature bytes; a word merely longer
    /// than the byte budget is truncated, not rejected.
    pub fn new(string: &str) -> (r: Option<Hash>)
        ensures
            r == new_spec(string@),
    {
        let n = string.unicode_len();
        let mut chars: Vec<char> = Vec::new();
        let mut i: usize = 0;
        while i < n
            invariant
                i <= n,
                n == string@.len(),
                chars@ == string@.subrange(0, i as int),
                forall|j: int| 0 <= j < i ==> mora::hira_char(string@[j]),
            decreases n - i,
        {
            let c = string.get_char(i);
            let cu = c as u32;
            if !(0x3040 <= cu && cu <= 0x309F) {
                proof {
                    assert(!mora::hira_char(string@[i as int]));
                }
                return None;
            }
            proof {
                assert(string@.subrange(0, i + 1 as int) =~= string@.subrange(0, i as int).push(
                    string@[i as int],
                ));
            }
            chars.push(c);
            i += 1;
        }
        proof {
            assert(chars@ =~= string@);
        }
        if n == 0 {
            return None;
        }
        let fb = mora::split_syllable(chars[0]);
        let flen = fb.len();
        if flen == 0 {
            return None;
        }
        let first: u128 = if flen == 1 {
            (fb[0] as u128) << 120
        } else {
            ((fb[0] as u128) << 120) | ((fb[1] as u128) << 112)
        };
        let mut last: u8 = fb[flen - 1];
        let mut filled: usize = flen;
        let mut acc: u128 = 0;
        let mut added: usize = 0;
        let mut b: usize = 1;
        let ghost st0 = encode::init_state(mora::split_bytes(string@[0]));
        proof {
            assert(st0 == encode::EncState {
                acc: 0u128,
                filled: filled as nat,
                last: last,
                added: 0nat,
            });
        }
        while b < chars.len() && filled < 16
            invariant
                1 <= b <= chars@.len(),
                filled <= 16,
                added <= filled,
                chars@ == string@,
                encode::scan_tail(
                    chars@,
                    b as int,
                    encode::EncState { acc, filled: filled as nat, last, added: added as nat },
                ) == encode::scan_tail(chars@, 1, st0),
            decreases chars@.len() - b,
        {
            let c = chars[b];
            let ghost st_in = encode::EncState {
                acc,
                filled: filled as nat,
                last,
                added: added as nat,
            };
            let mut unit = mora::split_syllable(c);
            if c == mora::SOKUON {
                unit.push(last);
            }
            proof {
                assert(unit@ =~= encode::unit_bytes(chars@[b as int], st_in.last));
                assert(unit@.skip(0) =~= unit@);
            }
            let mut j: usize = 0;
            while j < unit.len() && filled < 16
                invariant
                    j <= unit@.len(),
                    filled <= 16,
                    added <= filled,
                    encode::emit_seq(
                        encode::EncState { acc, filled: filled as nat, last, added: added as nat },
                        unit@.skip(j as int),
                    ) == encode::emit_seq(st_in, unit@),
                decreases unit@.len() - j,
            {
                let byte = unit[j];
                proof {
                    assert(unit@.skip(j as int)[0] == unit@[j as int]);
                    assert(unit@.skip(j as int).drop_first() =~= unit@.skip(j as int + 1));
                }
                acc = (acc << 8) | (byte as u128);
                filled = filled + 1;
                last = byte;
                added = added + 1;
                j = j + 1;
            }
            proof {
                let st_now = encode::EncState {
                    acc,
                    filled: filled as nat,
                    last,
                    added: added as nat,
                };
                if j < unit.len() {
                    encode::lemma_emit_seq_full(st_now, unit@.skip(j as int));
                }
                assert(st_now == encode::emit_seq(st_in, unit@));
                assert(encode::scan_tail(chars@, b as int, st_in) == encode::scan_tail(
                    chars@,
                    b as int + 1,
                    st_now,
                ));
            }
            b = b + 1;
        }
        proof {
            let st_now = encode::EncState {
                acc,
                filled: filled as nat,
                last,
                added: added as nat,
            };
            assert(encode::scan_tail(chars@, b as int, st_now) == st_now);
            assert(st_now == encode::scan_tail(string@, 1, st0));
        }
        if added < chars.len() {
            return None;
        }
        Some(Hash { hash: acc | first })
    }

    /// The difference of two hashes.
    pub fn difference(self, rhs: Hash) -> (r: Difference)
        ensures
            r.xor_value() == self.value() ^ rhs.value(),
    {
        Difference { xor: self.hash ^ rhs.hash }
    }
}

/// Reconstructs a hash from its raw form, e.g. after transport.  The value
/// is not validated: any 128-bit value is accepted.
impl From<u128> for Hash {
    fn from(hash: u128) -> (r: Hash) {
        Hash { hash }
    }
}

impl vstd::std_specs::convert::FromSpecImpl<u128> for Hash {
    open spec fn obeys_from_spec() -> bool {
        true
    }

    open spec fn from_spec(hash: u128) -> Hash {
        Hash::from_raw_spec(hash)
    }
}

/// A fingerprint converts losslessly to and from its raw 128-bit form, in
/// both directions.
pub proof fn lemma_raw_round_trip(h: Hash, x: u128)
    ensures
        Hash::from_raw_spec(h.value()) == h,
        Hash::from_raw_spec(x).value() == x,
{
}

/// Encodes two words and takes the difference of their fingerprints, or
/// returns `None` when either word cannot be encoded.
pub fn word_difference(a: &str, b: &str) -> (r: Option<Difference>)
    ensures
        match (new_spec(a@), new_spec(b@)) {
            (Some(x), Some(y)) => r matches Some(d) && d.xor_value() == x.value() ^ y.value(),
            _ => r is None,
        },
{
    let ha = Hash::new(a);
    let hb = Hash::new(b);
    if ha.is_some() && hb.is_some() {
        Some(Hash::new_unchecked(a).difference(Hash::new_unchecked(b)))
    } else {
        None
    }
}

/// The difference between two words: the XOR of their fingerprints,
/// consumed through the distance accessors.
#[derive(Copy, Clone)]
pub struct Difference {
    xor: u128,
}

/// The Hamming weight of one byte: how many of its feature bits are set.
pub open spec fn pop8(b: u8) -> int {
    (if b & 0x01 != 0 {
        1int
    } else {
        0int
    }) + (if b & 0x02 != 0 {
        1int
    } else {
        0int
    }) + (if b & 0x04 != 0 {
        1int
    } else {
        0int
    }) + (if b & 0x08 != 0 {
        1int
    } else {
        0int
    }) + (if b & 0x10 != 0 {
        1int
    } else {
        0int
    }) + (if b & 0x20 != 0 {
        1int
    } else {
        0int
    }) + (if b & 0x40 != 0 {
        1int
    } else {
        0int
    }) + (if b & 0x80 != 0 {
        1int
    } else {
        0int
    })
}

/// The flat Hamming weight of a 128-bit value: every mismatched bit counts
/// one, regardless of position.
pub open spec fn flat_weight(x: u128) -> int {
    pop8(x as u8) + pop8((x >> 8) as u8) + pop8((x >> 16) as u8) + pop8((x >> 24) as u8) + pop8(
        (x >> 32) as u8,
    ) + pop8((x >> 40) as u8) + pop8((x >> 48) as u8) + pop8((x >> 56) as u8) + pop8(
        (x >> 64) as u8,
    ) + pop8((x >> 72) as u8) + pop8((x >> 80) as u8) + pop8((x >> 88) as u8) + pop8(
        (x >> 96) as u8,
    ) + pop8((x >> 104) as u8) + pop8((x >> 112) as u8) + pop8((x >> 120) as u8)
}

/// The positionally weighted Hamming weight: each byte's Hamming weight is
/// scaled by a fixed per-position factor before summing.  The first mora
/// sits in the most significant bytes, so a mismatch there weighs most; the
/// weights decay towards the trailing, least significant bytes, which a
/// misheard or misspelled word ending perturbs.
pub open spec fn graded_weight(x: u128) -> int {
    pop8(x as u8) + pop8((x >> 16) as u8) * 2 + pop8((x >> 24) as u8) * 2 + pop8((x >> 32) as u8)
        * 2 + pop8((x >> 40) as u8) * 3 + pop8((x >> 48) as u8) * 3 + pop8((x >> 56) as u8) * 5
        + pop8((x >> 64) as u8) * 8 + pop8((x >> 72) as u8) * 8 + pop8((x >> 80) as u8) * 12 + pop8(
        (x >> 88) as u8,
    ) * 12 + pop8((x >> 96) as u8) * 14 + pop8((x >> 104) as u8) * 14 + pop8((x >> 112) as u8) * 14
        + pop8((x >> 120) as u8) * 14
}

/// The Hamming weight of one byte.
fn popcount_byte(b: u8) -> (r: u32)
    ensures
        r as int == pop8(b),
        r <= 8,
{
    let mut r: u32 = 0;
    if b & 0x01 != 0 {
        r = r + 1;
    }
    if b & 0x02 != 0 {
        r = r + 1;
    }
    if b & 0x04 != 0 {
        r = r + 1;
    }
    if b & 0x08 != 0 {
        r = r + 1;
    }
    if b & 0x10 != 0 {
        r = r + 1;
    }
    if b & 0x20 != 0 {
        r = r + 1;
    }
    if b & 0x40 != 0 {
        r = r + 1;
    }
    if b & 0x80 != 0 {
        r = r + 1;
    }
    r
}

impl Difference {
    /// The XOR of the two fingerprints this difference was taken from.
    pub closed spec fn xor_value(self) -> u128 {
        self.xor
    }

    /// The "graduated" distance.
    ///
    /// This will assign different weights to each byte's Hamming weight and
    /// simply add them.  For most use cases, this metric is the preferred
    /// one.
    #[verifier::rlimit(50)]
    pub fn dist(self) -> (r: u32)
        ensures
            r as int == graded_weight(self.xor_value()),
    {
        let x = self.xor;
        let p0 = popcount_byte(#[verifier::truncate] (x as u8));
        let p2 = popcount_byte(#[verifier::truncate] ((x >> 16) as u8));
        let p3 = popcount_byte(#[verifier::truncate] ((x >> 24) as u8));
        let p4 = popcount_byte(#[verifier::truncate] ((x >> 32) as u8));
        let p5 = popcount_byte(#[verifier::truncate] ((x >> 40) as u8));
        let p6 = popcount_byte(#[verifier::truncate] ((x >> 48) as u8));
        let p7 = popcount_byte(#[verifier::truncate] ((x >> 56) as u8));
        let p8 = popcount_byte(#[verifier::truncate] ((x >> 64) as u8));
        let p9 = popcount_byte(#[verifier::truncate] ((x >> 72) as u8));
        let p10 = popcount_byte(#[verifier::truncate] ((x >> 80) as u8));
        let p11 = popcount_byte(#[verifier::truncate] ((x >> 88) as u8));
        let p12 = popcount_byte(#[verifier::truncate] ((x >> 96) as u8));
        let p13 = popcount_byte(#[verifier::truncate] ((x >> 104) as u8));
        let p14 = popcount_byte(#[verifier::truncate] ((x >> 112) as u8));
        let p15 = popcount_byte(#[verifier::truncate] ((x >> 120) as u8));
        p0 + p2 * 2 + p3 * 2 + p4 * 2 + p5 * 3 + p6 * 3 + p7 * 5 + p8 * 8 + p9 * 8 + p10 * 12
            + p11 * 12 + p12 * 14 + p13 * 14 + p14 * 14 + p15 * 14
    }

    /// The XOR distance.
    ///
    /// This is generally not recommended unless you have a very specific
    /// reason to prefer it over the other methods provided.
    pub fn xor(self) -> (r: u128)
        ensures
            r == self.xor_value(),
    {
        self.xor
    }

    /// The "flat" Hamming based distance.
    ///
    /// This will let every byte carry the same weight, such that an early
    /// mismatch and a late mismatch count the same.
    #[verifier::rlimit(50)]
    pub fn hamming(self) -> (r: u32)
        ensures
            r as int == flat_weight(self.xor_value()),
    {
        let x = self.xor;
        let p0 = popcount_byte(#[verifier::truncate] (x as u8));
        let p1 = popcount_byte(#[verifier::truncate] ((x >> 8) as u8));
        let p2 = popcount_byte(#[verifier::truncate] ((x >> 16) as u8));
        let p3 = popcount_byte(#[verifier::truncate] ((x >> 24) as u8));
        let p4 = popcount_byte(#[verifier::truncate] ((x >> 32) as u8));
        let p5 = popcount_byte(#[verifier::truncate] ((x >> 40) as u8));
        let p6 = popcount_byte(#[verifier::truncate] ((x >> 48) as u8));
        let p7 = popcount_byte(#[verifier::truncate] ((x >> 56) as u8));
        let p8 = popcount_byte(#[verifier::truncate] ((x >> 64) as u8));
        let p9 = popcount_byte(#[verifier::truncate] ((x >> 72) as u8));
        let p10 = popcount_byte(#[verifier::truncate] ((x >> 80) as u8));
        let p11 = popcount_byte(#[verifier::truncate] ((x >> 88) as u8));
        let p12 = popcount_byte(#[verifier::truncate] ((x >> 96) as u8));
        let p13 = popcount_byte(#[verifier::truncate] ((x >> 104) as u8));
        let p14 = popcount_byte(#[verifier::truncate] ((x >> 112) as u8));
        let p15 = popcount_byte(#[verifier::truncate] ((x >> 120) as u8));
        p0 + p1 + p2 + p3 + p4 + p5 + p6 + p7 + p8 + p9 + p10 + p11 + p12 + p13 + p14 + p15
    }

    /// Does this difference constitute similarity?
    pub fn similar(self) -> (r: bool)
        ensures
            r == (graded_weight(self.xor_value()) < 30),
    {
        self.dist() < 30
    }
}

} // verus!
