//! Byte strings: the few questions the responder asks of them, each with
//! its meaning over `Seq<u8>`.

use vstd::prelude::*;
use vstd::string::*;

verus! {

/// The bytes of a text of ASCII characters, one byte for each character.
pub open spec fn ascii(text: Seq<char>) -> Seq<u8> {
    Seq::new(text.len(), |i: int| text[i] as u8)
}

/// Every byte is below 0x80.
pub open spec fn is_ascii_bytes(s: Seq<u8>) -> bool {
    forall|i: int| 0 <= i < s.len() ==> s[i] < 0x80
}

/// `s` cut down to its first `limit` bytes; `s` itself where it is no longer.
pub open spec fn clip(s: Seq<u8>, limit: nat) -> Seq<u8> {
    if s.len() > limit {
        s.take(limit as int)
    } else {
        s
    }
}

/// The number of bytes that stand before the first `stop` in `s`: all of
/// `s` where it holds no `stop`.
pub open spec fn span(s: Seq<u8>, stop: u8) -> nat
    decreases s.len(),
{
    if s.len() == 0 || s[0] == stop {
        0
    } else {
        1 + span(s.drop_first(), stop)
    }
}

/// `i` is where the first `stop` of `s` stands, or the length of `s` where
/// there is none.
pub open spec fn is_span(s: Seq<u8>, stop: u8, i: int) -> bool {
    &&& 0 <= i <= s.len()
    &&& forall|j: int| 0 <= j < i ==> s[j] != stop
    &&& i < s.len() ==> s[i] == stop
}

/// `span` is the one offset that `is_span` describes.
pub proof fn lemma_span(s: Seq<u8>, stop: u8)
    ensures
        is_span(s, stop, span(s, stop) as int),
        forall|i: int| is_span(s, stop, i) ==> i == span(s, stop),
    decreases s.len(),
{
    if s.len() == 0 || s[0] == stop {
    } else {
        let tail = s.drop_first();
        lemma_span(tail, stop);
        let n = span(s, stop) as int;
        assert forall|j: int| 0 <= j < n implies s[j] != stop by {
            if j > 0 {
                assert(s[j] == tail[j - 1]);
            }
        }
        assert(n < s.len() ==> s[n] == tail[n - 1]);
        assert forall|i: int| is_span(s, stop, i) implies i == n by {
            assert(i > 0);
            assert forall|j: int| 0 <= j < i - 1 implies tail[j] != stop by {
                assert(tail[j] == s[j + 1]);
            }
            assert(i < s.len() ==> tail[i - 1] == s[i]);
            assert(is_span(tail, stop, i - 1));
        }
    }
}

/// Where the first `stop` of `s` stands, or the length of `s`.
pub fn find(s: &[u8], stop: u8) -> (i: usize)
    ensures
        i == span(s@, stop),
        i <= s@.len(),
{
    let mut i: usize = 0;
    while i < s.len() && s[i] != stop
        invariant
            0 <= i <= s@.len(),
            forall|j: int| 0 <= j < i ==> s@[j] != stop,
        decreases s@.len() - i,
    {
        i += 1;
    }
    proof {
        lemma_span(s@, stop);
        assert(is_span(s@, stop, i as int));
    }
    i
}

/// Whether two byte strings hold the same bytes.
pub fn equal(a: &[u8], b: &[u8]) -> (same: bool)
    ensures
        same == (a@ == b@),
{
    if a.len() != b.len() {
        return false;
    }
    let mut i: usize = 0;
    while i < a.len()
        invariant
            0 <= i <= a@.len(),
            a@.len() == b@.len(),
            forall|j: int| 0 <= j < i ==> a@[j] == b@[j],
        decreases a@.len() - i,
    {
        if a[i] != b[i] {
            return false;
        }
        i += 1;
    }
    assert(a@ =~= b@);
    true
}

/// Whether every byte of `s` is an ASCII byte.
pub fn all_ascii(s: &[u8]) -> (plain: bool)
    ensures
        plain == is_ascii_bytes(s@),
{
    let mut i: usize = 0;
    while i < s.len()
        invariant
            0 <= i <= s@.len(),
            forall|j: int| 0 <= j < i ==> s@[j] < 0x80,
        decreases s@.len() - i,
    {
        if s[i] >= 0x80 {
            return false;
        }
        i += 1;
    }
    true
}

/// The bytes of a text: for a text of ASCII characters, one byte for each
/// character.
pub fn bytes_of<'a>(text: &'a str) -> (b: &'a [u8])
    ensures
        b@ == text.spec_bytes(),
        is_ascii(text) ==> b@ == ascii(text@),
{
    proof {
        is_ascii_spec_bytes(text);
    }
    text.as_bytes()
}

/// Puts the bytes of `s` at the end of `out`.
pub fn append(out: &mut Vec<u8>, s: &[u8])
    ensures
        final(out)@ == old(out)@ + s@,
{
    out.extend_from_slice(s);
    assert(out@ =~= old(out)@ + s@);
}

} // verus!
