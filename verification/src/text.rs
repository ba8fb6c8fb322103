//! Texts as sequences of characters: comparing two, and cutting one at a
//! separator.

use vstd::prelude::*;
use vstd::string::StringSliceAdditionalSpecFns;
use vstd::utf8::{encode_utf8, encode_utf8_decode_utf8};

verus! {

/// Two character sequences with the same UTF-8 encoding are the same
/// sequence.
pub proof fn lemma_encoding_tells_apart(a: Seq<char>, b: Seq<char>)
    requires
        encode_utf8(a) == encode_utf8(b),
    ensures
        a == b,
{
    encode_utf8_decode_utf8(a);
    encode_utf8_decode_utf8(b);
}

/// A text cut at a separator that its last part does not hold can be cut in
/// one way only: two such cuts of the same text agree in both parts.
pub proof fn lemma_last_separator_cuts_once(
    sep: char,
    head_a: Seq<char>,
    tail_a: Seq<char>,
    head_b: Seq<char>,
    tail_b: Seq<char>,
)
    requires
        !tail_a.contains(sep),
        !tail_b.contains(sep),
        head_a + seq![sep] + tail_a == head_b + seq![sep] + tail_b,
    ensures
        head_a == head_b,
        tail_a == tail_b,
{
    let a = head_a + seq![sep] + tail_a;
    let b = head_b + seq![sep] + tail_b;
    let m = head_a.len() as int;
    let n = head_b.len() as int;
    assert(a.len() == m + 1 + tail_a.len());
    assert(b.len() == n + 1 + tail_b.len());
    assert(a[m] == sep);
    assert(b[n] == sep);
    if m < n {
        assert(a[n] == tail_a[n - m - 1]);
        assert(tail_a.contains(tail_a[n - m - 1]));
    }
    if n < m {
        assert(b[m] == tail_b[m - n - 1]);
        assert(tail_b.contains(tail_b[m - n - 1]));
    }
    assert(head_a =~= a.take(m));
    assert(head_b =~= b.take(n));
    assert(tail_a =~= a.skip(m + 1));
    assert(tail_b =~= b.skip(n + 1));
}

/// Whether `a` and `b` hold the same characters.
pub fn same_text(a: &str, b: &str) -> (same: bool)
    ensures
        same == (a@ == b@),
{
    let x = a.as_bytes();
    let y = b.as_bytes();
    if x.len() != y.len() {
        return false;
    }
    let mut i: usize = 0;
    while i < x.len()
        invariant
            x@.len() == y@.len(),
            i <= x@.len(),
            x@ == a.spec_bytes(),
            y@ == b.spec_bytes(),
            x@.take(i as int) == y@.take(i as int),
        decreases x@.len() - i,
    {
        if x[i] != y[i] {
            assert(a@ != b@);
            return false;
        }
        assert(x@.take(i + 1) =~= x@.take(i as int).push(x@[i as int]));
        assert(y@.take(i + 1) =~= y@.take(i as int).push(y@[i as int]));
        i += 1;
    }
    proof {
        assert(x@ =~= x@.take(i as int));
        assert(y@ =~= y@.take(i as int));
        lemma_encoding_tells_apart(a@, b@);
    }
    true
}

} // verus!
