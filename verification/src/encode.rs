//! The fingerprint encoder's mathematical model: a word's characters are
//! classified one by one, each mora's feature bytes are shifted into a
//! 128-bit accumulator under a fixed byte budget, and the first mora's
//! bytes are aligned flush to the most significant end.

use crate::mora;
use vstd::prelude::*;

verus! {

/// How many feature bytes the accumulator accepts in all, the first mora's
/// bytes included; beyond it the word is truncated.
pub const BYTE_BUDGET: u8 = 16;

/// The encoder's running state while it walks the word's characters.
///
/// `acc` holds the bytes emitted after the first mora, right-aligned;
/// `filled` counts every byte emitted so far, the first mora's included;
/// `last` is the most recently emitted byte, re-emitted for a gemination
/// marker; `added` counts only the bytes emitted after the first mora, the
/// tally the completion check compares against the word's length.
pub struct EncState {
    pub acc: u128,
    pub filled: nat,
    pub last: u8,
    pub added: nat,
}

/// Shifts one byte into the accumulator, unless the budget is spent.
pub open spec fn emit_one(st: EncState, b: u8) -> EncState {
    if st.filled >= BYTE_BUDGET {
        st
    } else {
        EncState {
            acc: (st.acc << 8) | (b as u128),
            filled: st.filled + 1,
            last: b,
            added: st.added + 1,
        }
    }
}

/// Shifts a mora's bytes into the accumulator, in order, each under the
/// budget check.
pub open spec fn emit_seq(st: EncState, bs: Seq<u8>) -> EncState
    decreases bs.len(),
{
    if bs.len() == 0 {
        st
    } else {
        emit_seq(emit_one(st, bs[0]), bs.drop_first())
    }
}

/// Once the budget is spent, emitting changes nothing.
pub proof fn lemma_emit_seq_full(st: EncState, bs: Seq<u8>)
    requires
        st.filled >= BYTE_BUDGET,
    ensures
        emit_seq(st, bs) == st,
    decreases bs.len(),
{
    if bs.len() > 0 {
        lemma_emit_seq_full(st, bs.drop_first());
    }
}

/// The bytes one non-head character contributes: its own feature bytes,
/// plus a re-emission of the preceding byte when the character is the
/// gemination marker, whose doubled consonant shares the prior phone's
/// features.
pub open spec fn unit_bytes(c: char, last: u8) -> Seq<u8> {
    if c == mora::SOKUON {
        mora::split_bytes(c).push(last)
    } else {
        mora::split_bytes(c)
    }
}

/// Walks the characters after the first, emitting each one's bytes, until
/// the characters or the budget run out.
pub open spec fn scan_tail(chars: Seq<char>, b: int, st: EncState) -> EncState
    decreases chars.len() - b,
{
    if b >= chars.len() || st.filled >= BYTE_BUDGET {
        st
    } else {
        scan_tail(chars, b + 1, emit_seq(st, unit_bytes(chars[b], st.last)))
    }
}

/// The first mora's bytes, packed flush against the most significant end
/// of the fingerprint: a one-byte first mora occupies the top byte alone,
/// with no zero gap before the accumulated rest.
pub open spec fn pack_first(bs: Seq<u8>) -> u128 {
    if bs.len() == 1 {
        (bs[0] as u128) << 120
    } else {
        ((bs[0] as u128) << 120) | ((bs[1] as u128) << 112)
    }
}

/// The state the encoder starts the tail walk in, after the first mora.
pub open spec fn init_state(fb: Seq<u8>) -> EncState {
    EncState { acc: 0, filled: fb.len(), last: fb[fb.len() - 1], added: 0 }
}

/// A word the encoder accepts for decomposition: non-empty and written
/// wholly in the hiragana block.  (No hiragana character is whitespace, so
/// a whitespace-trimmed emptiness test adds nothing beyond plain
/// non-emptiness here.)
pub open spec fn word_ok(chars: Seq<char>) -> bool {
    chars.len() > 0 && (forall|i: int| 0 <= i < chars.len() ==> mora::hira_char(chars[i]))
}

/// The fingerprint of a character sequence, or `None` where the word is
/// rejected: not wholly hiragana, empty, a first mora with no feature
/// bytes, or a tail that emitted fewer bytes than the word has characters
/// (some mora decomposed to nothing, or the budget ran out too early for
/// the word's length).
pub open spec fn encode_chars(chars: Seq<char>) -> Option<u128> {
    if !word_ok(chars) {
        None
    } else {
        let fb = mora::split_bytes(chars[0]);
        if fb.len() == 0 {
            None
        } else {
            let st = scan_tail(chars, 1, init_state(fb));
            if st.added < chars.len() {
                None
            } else {
                Some(st.acc | pack_first(fb))
            }
        }
    }
}

} // verus!
