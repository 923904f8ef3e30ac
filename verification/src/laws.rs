//! The properties the library promises, stated and proved once for all
//! inputs: determinism of the encoder, symmetry and identity of the
//! distances, the voicing-alternation convergence, truncation stability,
//! and the rejection rule.

use crate::encode::{
    encode_chars, emit_seq, init_state, scan_tail, unit_bytes, EncState, BYTE_BUDGET,
};
use crate::mora;
use crate::{flat_weight, graded_weight, new_spec};
use vstd::prelude::*;

verus! {

/// Encoding is deterministic: any two results that meet the encoder's
/// contract for the same word are the same fingerprint.
pub proof fn lemma_deterministic(r1: Option<crate::Hash>, r2: Option<crate::Hash>, s: Seq<char>)
    requires
        r1 == new_spec(s),
        r2 == new_spec(s),
    ensures
        r1 == r2,
{
}

/// Both distances are symmetric in the two fingerprints, since XOR is.
pub proof fn lemma_distance_symmetric(a: crate::Hash, b: crate::Hash)
    ensures
        flat_weight(a.value() ^ b.value()) == flat_weight(b.value() ^ a.value()),
        graded_weight(a.value() ^ b.value()) == graded_weight(b.value() ^ a.value()),
{
    let x = a.value();
    let y = b.value();
    assert(x ^ y == y ^ x) by (bit_vector);
}

/// A fingerprint is at distance zero from itself, in both metrics, and is
/// always similar to itself.
pub proof fn lemma_identity_similar(a: crate::Hash)
    ensures
        flat_weight(a.value() ^ a.value()) == 0,
        graded_weight(a.value() ^ a.value()) == 0,
        graded_weight(a.value() ^ a.value()) < 30,
{
    let x = a.value();
    assert(x ^ x == 0) by (bit_vector);
    assert(flat_weight(0) == 0) by (bit_vector);
    assert(graded_weight(0) == 0) by (bit_vector);
}

/// A word that is empty or holds any character outside the hiragana block
/// is rejected.
pub proof fn lemma_rejects_invalid(s: Seq<char>)
    requires
        s.len() == 0 || exists|i: int| 0 <= i < s.len() && !mora::hira_char(s[i]),
    ensures
        encode_chars(s) is None,
{
}

/// Tail scans agree on two words whose characters decompose alike.
proof fn lemma_scan_congruent(s: Seq<char>, t: Seq<char>, b: int, st: EncState)
    requires
        s.len() == t.len(),
        forall|i: int|
            b <= i < s.len() ==> #[trigger] mora::split_bytes(s[i]) == mora::split_bytes(t[i]) && (
            s[i] == mora::SOKUON <==> t[i] == mora::SOKUON),
    ensures
        scan_tail(s, b, st) == scan_tail(t, b, st),
    decreases s.len() - b,
{
    if b >= s.len() || st.filled >= BYTE_BUDGET {
    } else {
        assert(unit_bytes(s[b], st.last) == unit_bytes(t[b], st.last));
        lemma_scan_congruent(s, t, b + 1, emit_seq(st, unit_bytes(s[b], st.last)));
    }
}

/// The decomposition lies in the override row of the given close vowel:
/// one of `z`, `d`, `t` before that vowel.
pub open spec fn merged_row(p: Option<(Option<char>, Option<char>)>, v: char) -> bool {
    exists|a: char| (a == 'z' || a == 'd' || a == 't') && p == Some((Some(a), Some(v)))
}

/// The two decompositions lie in one and the same override row, which the
/// phone table maps to identical feature bytes.
pub open spec fn merged_pair(
    p: Option<(Option<char>, Option<char>)>,
    q: Option<(Option<char>, Option<char>)>,
) -> bool {
    (merged_row(p, 'u') && merged_row(q, 'u')) || (merged_row(p, 'i') && merged_row(q, 'i'))
}

/// Characters of one override row contribute identical feature bytes.
proof fn lemma_merged_row_bytes(c: char, d: char)
    requires
        merged_pair(mora::mora_split(c), mora::mora_split(d)),
    ensures
        mora::split_bytes(c) == mora::split_bytes(d),
{
    let p = mora::mora_split(c);
    let q = mora::mora_split(d);
    if merged_row(p, 'u') && merged_row(q, 'u') {
        let a1 = choose|a: char| (a == 'z' || a == 'd' || a == 't') && p == Some(
            (Some(a), Some('u')),
        );
        let a2 = choose|a: char| (a == 'z' || a == 'd' || a == 't') && q == Some(
            (Some(a), Some('u')),
        );
        assert(mora::split_bytes(c) =~= mora::split_bytes(d));
    } else {
        let a1 = choose|a: char| (a == 'z' || a == 'd' || a == 't') && p == Some(
            (Some(a), Some('i')),
        );
        let a2 = choose|a: char| (a == 'z' || a == 'd' || a == 't') && q == Some(
            (Some(a), Some('i')),
        );
        assert(mora::split_bytes(c) =~= mora::split_bytes(d));
    }
}

/// Two spellings that differ in one mora only by a voicing alternation the
/// override table merges (the `zu`/`du`/`tsu` row, or the `zi`/`di`/`ti`
/// row) encode to the same fingerprint, and the carry-over of a following
/// gemination marker carries the same byte for both.
pub proof fn lemma_voicing_alternation(s: Seq<char>, t: Seq<char>, k: int)
    requires
        s.len() == t.len(),
        0 <= k < s.len(),
        forall|i: int| 0 <= i < s.len() && i != k ==> s[i] == t[i],
        s[k] != mora::SOKUON,
        t[k] != mora::SOKUON,
        mora::hira_char(s[k]),
        mora::hira_char(t[k]),
        merged_pair(mora::mora_split(s[k]), mora::mora_split(t[k])),
    ensures
        encode_chars(s) == encode_chars(t),
{
    lemma_merged_row_bytes(s[k], t[k]);
    assert(forall|i: int| 0 <= i < s.len() ==> (mora::hira_char(s[i]) <==> mora::hira_char(t[i])));
    if crate::encode::word_ok(s) {
        assert(crate::encode::word_ok(t));
        assert(mora::split_bytes(s[0]) == mora::split_bytes(t[0]));
        lemma_scan_congruent(s, t, 1, init_state(mora::split_bytes(s[0])));
    }
}

/// A scan that spends the whole budget within a word is unchanged by
/// whatever characters follow that word.
proof fn lemma_scan_prefix(s: Seq<char>, t: Seq<char>, b: int, st: EncState)
    requires
        s.len() <= t.len(),
        forall|i: int| b <= i < s.len() ==> s[i] == t[i],
        scan_tail(s, b, st).filled >= BYTE_BUDGET,
    ensures
        scan_tail(t, b, st) == scan_tail(s, b, st),
    decreases s.len() - b,
{
    if st.filled >= BYTE_BUDGET {
    } else if b >= s.len() {
    } else {
        lemma_scan_prefix(s, t, b + 1, emit_seq(st, unit_bytes(s[b], st.last)));
    }
}

/// A word that exhausts the byte budget is truncated, not rejected, and
/// appending further hiragana moras leaves its fingerprint unchanged, as
/// long as the tail's byte tally still reaches the lengthened word's
/// character count.
pub proof fn lemma_truncation_stable(s: Seq<char>, ext: Seq<char>)
    requires
        crate::encode::word_ok(s),
        mora::split_bytes(s[0]).len() > 0,
        scan_tail(s, 1, init_state(mora::split_bytes(s[0]))).filled >= BYTE_BUDGET,
        scan_tail(s, 1, init_state(mora::split_bytes(s[0]))).added >= s.len() + ext.len(),
        forall|i: int| 0 <= i < ext.len() ==> mora::hira_char(ext[i]),
    ensures
        encode_chars(s) is Some,
        encode_chars(s + ext) == encode_chars(s),
{
    let u = s + ext;
    assert(u.len() == s.len() + ext.len());
    assert(forall|i: int| 0 <= i < s.len() ==> u[i] == s[i]);
    assert(forall|i: int| 0 <= i < u.len() ==> mora::hira_char(u[i])) by {
        assert(forall|i: int|
            s.len() <= i < u.len() ==> u[i] == ext[i - s.len()] && mora::hira_char(
                ext[i - s.len()],
            ));
    }
    assert(crate::encode::word_ok(u));
    assert(u[0] == s[0]);
    lemma_scan_prefix(s, u, 1, init_state(mora::split_bytes(s[0])));
}

} // verus!
