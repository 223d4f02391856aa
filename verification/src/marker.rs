//! The order of position markers.
//!
//! A position marker is the token a platform attaches to each message to say
//! where it stands in the conversation. Markers are compared the way string
//! slices are: byte by byte over their UTF-8 encoding, a proper prefix
//! standing before its extensions.

use vstd::prelude::*;
use vstd::utf8::{encode_utf8, encode_utf8_decode_utf8};

verus! {

/// `a` and `b` hold the same bytes at every index below `k`.
pub open spec fn agree_before(a: Seq<u8>, b: Seq<u8>, k: int) -> bool {
    &&& 0 <= k <= a.len()
    &&& k <= b.len()
    &&& forall|j: int| 0 <= j < k ==> a[j] == b[j]
}

/// `a` stands before `b`, and index `k` is where that is decided: either `a`
/// ends there while `b` goes on, or both go on and `a` holds the smaller byte.
pub open spec fn precedes_at(a: Seq<u8>, b: Seq<u8>, k: int) -> bool {
    &&& agree_before(a, b, k)
    &&& k < b.len()
    &&& k < a.len() ==> a[k] < b[k]
}

/// Strict lexicographic order on byte sequences.
pub open spec fn lex_precedes(a: Seq<u8>, b: Seq<u8>) -> bool {
    exists|k: int| precedes_at(a, b, k)
}

/// `candidate` is strictly newer than `bound`.
pub open spec fn marker_newer(candidate: Seq<char>, bound: Seq<char>) -> bool {
    lex_precedes(encode_utf8(bound), encode_utf8(candidate))
}

/// Where `a` stands before `b` by index `k`, the two agree no further than
/// that.
pub proof fn lemma_decided_once(a: Seq<u8>, b: Seq<u8>, k: int, m: int)
    requires
        precedes_at(a, b, k),
        agree_before(a, b, m),
    ensures
        m <= k,
{
}

/// Decides the strict lexicographic order of two byte slices.
pub fn bytes_precede(a: &[u8], b: &[u8]) -> (r: bool)
    ensures
        r == lex_precedes(a@, b@),
{
    let mut i: usize = 0;
    while i < a.len() && i < b.len()
        invariant
            agree_before(a@, b@, i as int),
        decreases a.len() - i,
    {
        if a[i] != b[i] {
            proof {
                if a[i as int] < b[i as int] {
                    assert(precedes_at(a@, b@, i as int));
                } else {
                    assert forall|k: int| !precedes_at(a@, b@, k) by {
                        if precedes_at(a@, b@, k) {
                            lemma_decided_once(a@, b@, k, i as int);
                        }
                    }
                }
            }
            return a[i] < b[i];
        }
        i += 1;
    }
    proof {
        if i < b.len() {
            assert(precedes_at(a@, b@, i as int));
        }
    }
    i < b.len()
}

/// Whether the marker `candidate` is strictly newer than the marker `bound`.
pub fn is_newer(candidate: &str, bound: &str) -> (r: bool)
    ensures
        r == marker_newer(candidate@, bound@),
{
    bytes_precede(bound.as_bytes(), candidate.as_bytes())
}

/// Two different byte sequences that agree before `k` are ordered one way or
/// the other.
proof fn lemma_distinct_are_ordered(a: Seq<u8>, b: Seq<u8>, k: int)
    requires
        agree_before(a, b, k),
        a != b,
    ensures
        lex_precedes(a, b) || lex_precedes(b, a),
    decreases a.len() - k,
{
    if k == a.len() && k == b.len() {
        assert(a =~= b);
    } else if k < a.len() && k < b.len() && a[k] == b[k] {
        lemma_distinct_are_ordered(a, b, k + 1);
    } else {
        assert(precedes_at(a, b, k) || precedes_at(b, a, k));
    }
}

/// No marker is newer than itself: an echo of the bound never passes for a
/// reply.
pub proof fn lemma_newer_irreflexive(m: Seq<char>)
    ensures
        !marker_newer(m, m),
{
}

/// Of two markers at most one is newer than the other.
pub proof fn lemma_newer_asymmetric(a: Seq<char>, b: Seq<char>)
    requires
        marker_newer(a, b),
    ensures
        !marker_newer(b, a),
{
    let x = encode_utf8(a);
    let y = encode_utf8(b);
    let k = choose|k: int| precedes_at(y, x, k);
    assert forall|m: int| !precedes_at(x, y, m) by {
        if precedes_at(x, y, m) {
            lemma_decided_once(y, x, k, m);
            lemma_decided_once(x, y, m, k);
        }
    }
}

/// Newer than something newer is newer.
pub proof fn lemma_newer_transitive(a: Seq<char>, b: Seq<char>, c: Seq<char>)
    requires
        marker_newer(a, b),
        marker_newer(b, c),
    ensures
        marker_newer(a, c),
{
    let k = choose|k: int| precedes_at(encode_utf8(b), encode_utf8(a), k);
    let m = choose|m: int| precedes_at(encode_utf8(c), encode_utf8(b), m);
    let first = if k < m {
        k
    } else {
        m
    };
    assert(precedes_at(encode_utf8(c), encode_utf8(a), first));
}

/// Of two different markers one is newer than the other.
pub proof fn lemma_newer_total(a: Seq<char>, b: Seq<char>)
    requires
        a != b,
    ensures
        marker_newer(a, b) || marker_newer(b, a),
{
    if encode_utf8(a) == encode_utf8(b) {
        encode_utf8_decode_utf8(a);
        encode_utf8_decode_utf8(b);
    } else {
        lemma_distinct_are_ordered(encode_utf8(a), encode_utf8(b), 0);
    }
}

/// An ASCII decimal digit.
pub open spec fn is_digit(byte: u8) -> bool {
    48 <= byte <= 57
}

/// `a` and `b` are written in one format: they are equally long, and at each
/// index either both hold a digit or both hold the same other byte.
pub open spec fn same_format(a: Seq<u8>, b: Seq<u8>) -> bool {
    &&& a.len() == b.len()
    &&& forall|i: int|
        0 <= i < a.len() ==> is_digit(#[trigger] a[i]) && is_digit(b[i]) || !is_digit(a[i])
            && a[i] == b[i]
}

/// The number that the digits of `bytes` spell, read from left to right and
/// passing over every other byte.
pub open spec fn digits_value(bytes: Seq<u8>) -> nat
    decreases bytes.len(),
{
    if bytes.len() == 0 {
        0
    } else if is_digit(bytes.last()) {
        digits_value(bytes.drop_last()) * 10 + (bytes.last() - 48) as nat
    } else {
        digits_value(bytes.drop_last())
    }
}

/// Two sequences of one length that differ before their last byte are
/// ordered as they are without it.
proof fn lemma_order_is_decided_in_front(a: Seq<u8>, b: Seq<u8>)
    requires
        a.len() == b.len(),
        a.len() > 0,
        a.drop_last() != b.drop_last(),
    ensures
        lex_precedes(a, b) <==> lex_precedes(a.drop_last(), b.drop_last()),
{
    let front_a = a.drop_last();
    let front_b = b.drop_last();
    if lex_precedes(front_a, front_b) {
        let k = choose|k: int| precedes_at(front_a, front_b, k);
        assert forall|j: int| 0 <= j < k implies a[j] == b[j] by {
            assert(front_a[j] == a[j] && front_b[j] == b[j]);
        }
        assert(precedes_at(a, b, k));
    }
    if lex_precedes(a, b) {
        let k = choose|k: int| precedes_at(a, b, k);
        if k == a.len() - 1 {
            assert(front_a =~= front_b);
        }
        assert(precedes_at(front_a, front_b, k));
    }
}

/// Two sequences of one length that differ in their last byte only are
/// ordered by that byte.
proof fn lemma_order_is_decided_at_the_end(a: Seq<u8>, b: Seq<u8>)
    requires
        a.len() == b.len(),
        a.len() > 0,
        a.drop_last() == b.drop_last(),
    ensures
        lex_precedes(a, b) <==> a.last() < b.last(),
        a == b <==> a.last() == b.last(),
{
    let n = a.len() - 1;
    assert forall|j: int| 0 <= j < n implies a[j] == b[j] by {
        assert(a.drop_last()[j] == a[j] && b.drop_last()[j] == b[j]);
    }
    if a[n] < b[n] {
        assert(precedes_at(a, b, n));
    }
    if a[n] == b[n] {
        assert(a =~= b);
    }
}

/// On byte sequences of one format the lexicographic order is the order of
/// the numbers they spell, and equal numbers are spelled alike.
pub proof fn lemma_order_of_one_format(a: Seq<u8>, b: Seq<u8>)
    requires
        same_format(a, b),
    ensures
        lex_precedes(a, b) <==> digits_value(a) < digits_value(b),
        a == b <==> digits_value(a) == digits_value(b),
    decreases a.len(),
{
    if a.len() == 0 {
        assert(a =~= b);
    } else {
        assert(same_format(a.drop_last(), b.drop_last()));
        lemma_order_of_one_format(a.drop_last(), b.drop_last());
        if a.drop_last() == b.drop_last() {
            lemma_order_is_decided_at_the_end(a, b);
        } else {
            lemma_order_is_decided_in_front(a, b);
        }
    }
}

/// Where two markers are written in one format, the newer of them is the
/// one that spells the greater number. This covers timestamps with a fixed
/// number of digits on either side of their separators.
pub proof fn lemma_newer_is_greater_in_one_format(candidate: Seq<char>, bound: Seq<char>)
    requires
        same_format(encode_utf8(bound), encode_utf8(candidate)),
    ensures
        marker_newer(candidate, bound) <==> digits_value(encode_utf8(candidate)) > digits_value(
            encode_utf8(bound),
        ),
{
    lemma_order_of_one_format(encode_utf8(bound), encode_utf8(candidate));
}

} // verus!
