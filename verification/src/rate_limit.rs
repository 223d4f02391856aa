//! Recognising a rate-limit signal in an error text.
//!
//! A platform reports rate limiting through the text of a failed query. The
//! one thing looked for in such a text is the word the platform uses for the
//! condition; nothing else in an error text is interpreted.

use vstd::prelude::*;
use vstd::utf8::encode_utf8;

verus! {

/// `needle` stands in `hay` at index `i`.
pub open spec fn occurs_at(hay: Seq<u8>, needle: Seq<u8>, i: int) -> bool {
    &&& 0 <= i
    &&& i + needle.len() <= hay.len()
    &&& forall|j: int| 0 <= j < needle.len() ==> hay[i + j] == needle[j]
}

/// `needle` stands somewhere in `hay`.
pub open spec fn occurs_in(hay: Seq<u8>, needle: Seq<u8>) -> bool {
    exists|i: int| occurs_at(hay, needle, i)
}

/// The word by which the platform names the rate-limit condition.
pub open spec fn rate_limit_word() -> Seq<char> {
    "ratelimited"@
}

/// An error text that carries the rate-limit word.
pub open spec fn mentions_rate_limit(text: Seq<char>) -> bool {
    occurs_in(encode_utf8(text), encode_utf8(rate_limit_word()))
}

/// Whether `needle` stands in `hay` at index `i`.
fn bytes_occur_at(hay: &[u8], needle: &[u8], i: usize) -> (r: bool)
    requires
        i + needle.len() <= hay.len(),
    ensures
        r == occurs_at(hay@, needle@, i as int),
{
    let mut j: usize = 0;
    while j < needle.len()
        invariant
            j <= needle.len(),
            i + needle.len() <= hay.len(),
            forall|k: int| 0 <= k < j ==> hay@[i + k] == needle@[k],
        decreases needle.len() - j,
    {
        if hay[i + j] != needle[j] {
            return false;
        }
        j += 1;
    }
    true
}

/// Whether `needle` stands somewhere in `hay`.
pub fn bytes_occur_in(hay: &[u8], needle: &[u8]) -> (r: bool)
    ensures
        r == occurs_in(hay@, needle@),
{
    if needle.len() > hay.len() {
        return false;
    }
    let last: usize = hay.len() - needle.len();
    let mut i: usize = 0;
    while i < last
        invariant
            i <= last,
            last + needle.len() == hay.len(),
            forall|k: int| 0 <= k < i ==> !occurs_at(hay@, needle@, k),
        decreases last - i,
    {
        if bytes_occur_at(hay, needle, i) {
            return true;
        }
        i += 1;
    }
    bytes_occur_at(hay, needle, last)
}

/// Whether an error text reports rate limiting.
pub fn is_rate_limit_text(text: &str) -> (r: bool)
    ensures
        r == mentions_rate_limit(text@),
{
    bytes_occur_in(text.as_bytes(), "ratelimited".as_bytes())
}

} // verus!
