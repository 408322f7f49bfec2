use vstd::prelude::*;
use vstd::string::*;
use vstd::utf8::*;

verus! {

/// Two strings with the same UTF-8 encoding hold the same characters.
pub proof fn lemma_same_bytes_same_chars(a: Seq<char>, b: Seq<char>)
    requires
        encode_utf8(a) == encode_utf8(b),
    ensures
        a == b,
{
    encode_utf8_decode_utf8(a);
    encode_utf8_decode_utf8(b);
}

/// Compares two strings character by character.
pub fn str_eq(a: &str, b: &str) -> (r: bool)
    ensures
        r == (a@ == b@),
{
    let x = a.as_bytes();
    let y = b.as_bytes();
    if x.len() != y.len() {
        return false;
    }
    let mut i: usize = 0;
    while i < x.len()
        invariant
            x@ == a.spec_bytes(),
            y@ == b.spec_bytes(),
            x@.len() == y@.len(),
            i <= x@.len(),
            forall|j: int| 0 <= j < i ==> x@[j] == y@[j],
        decreases x@.len() - i,
    {
        if x[i] != y[i] {
            return false;
        }
        i += 1;
    }
    proof {
        assert(x@ =~= y@);
        lemma_same_bytes_same_chars(a@, b@);
    }
    true
}

/// Tests whether `s` begins with the characters of `prefix`.
pub fn starts_with(s: &str, prefix: &str) -> (r: bool)
    ensures
        r == prefix@.is_prefix_of(s@),
{
    let n = prefix.unicode_len();
    let m = s.unicode_len();
    if m < n {
        return false;
    }
    let mut i: usize = 0;
    while i < n
        invariant
            n == prefix@.len(),
            m == s@.len(),
            n <= m,
            i <= n,
            forall|j: int| 0 <= j < i ==> s@[j] == prefix@[j],
        decreases n - i,
    {
        if s.get_char(i) != prefix.get_char(i) {
            assert(s@.subrange(0, n as int)[i as int] != prefix@[i as int]);
            return false;
        }
        i += 1;
    }
    assert(prefix@ =~= s@.subrange(0, n as int));
    true
}

} // verus!
