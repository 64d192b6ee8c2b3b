use vstd::prelude::*;
use vstd::utf8::*;

verus! {

/// `pat` occurs in `hay` starting at byte `i`.
pub open spec fn occurs_at(hay: Seq<u8>, pat: Seq<u8>, i: int) -> bool {
    &&& 0 <= i
    &&& i + pat.len() <= hay.len()
    &&& hay.subrange(i, i + pat.len()) == pat
}

/// `pat` is a contiguous run of bytes somewhere in `hay`.
pub open spec fn contains_bytes(hay: Seq<u8>, pat: Seq<u8>) -> bool {
    exists|i: int| occurs_at(hay, pat, i)
}

/// Does `pat` match `hay` at byte `start`?
fn matches_at(hay: &[u8], pat: &[u8], start: usize) -> (r: bool)
    requires
        start + pat@.len() <= hay@.len(),
    ensures
        r == occurs_at(hay@, pat@, start as int),
{
    let n = pat.len();
    let hlen = hay.len();
    let mut j: usize = 0;
    while j < n
        invariant
            n == pat@.len(),
            hlen == hay@.len(),
            start + n <= hlen,
            j <= n,
            forall|k: int| 0 <= k < j ==> hay@[start + k] == pat@[k],
        decreases n - j,
    {
        if hay[start + j] != pat[j] {
            assert(hay@.subrange(start as int, start + n)[j as int] != pat@[j as int]);
            return false;
        }
        j = j + 1;
    }
    assert(hay@.subrange(start as int, start + n) =~= pat@);
    true
}

/// Byte-level substring search, the test that `str::contains` makes.
pub fn bytes_contain(hay: &[u8], pat: &[u8]) -> (r: bool)
    ensures
        r == contains_bytes(hay@, pat@),
{
    let hlen = hay.len();
    let plen = pat.len();
    if plen == 0 {
        assert(hay@.subrange(0, 0) =~= pat@);
        assert(occurs_at(hay@, pat@, 0));
        return true;
    }
    if plen > hlen {
        assert(!contains_bytes(hay@, pat@));
        return false;
    }
    let last = hlen - plen;
    let mut i: usize = 0;
    while i <= last
        invariant
            hlen == hay@.len(),
            plen == pat@.len(),
            0 < plen <= hlen,
            last == hlen - plen,
            forall|k: int| 0 <= k < i ==> !occurs_at(hay@, pat@, k),
        decreases last + 1 - i,
    {
        if matches_at(hay, pat, i) {
            return true;
        }
        i = i + 1;
    }
    assert forall|k: int| !occurs_at(hay@, pat@, k) by {
        if 0 <= k && k + pat@.len() <= hay@.len() {
            assert(k <= last);
        }
    }
    false
}

/// Equality of two byte slices.
pub fn bytes_equal(a: &[u8], b: &[u8]) -> (r: bool)
    ensures
        r == (a@ == b@),
{
    if a.len() != b.len() {
        return false;
    }
    let n = a.len();
    let mut i: usize = 0;
    while i < n
        invariant
            n == a@.len(),
            n == b@.len(),
            i <= n,
            forall|k: int| 0 <= k < i ==> a@[k] == b@[k],
        decreases n - i,
    {
        if a[i] != b[i] {
            return false;
        }
        i = i + 1;
    }
    assert(a@ =~= b@);
    true
}

/// Two strings hold the same characters exactly when their UTF-8 encodings agree.
pub proof fn lemma_utf8_injective(a: Seq<char>, b: Seq<char>)
    ensures
        (encode_utf8(a) == encode_utf8(b)) == (a == b),
{
    encode_utf8_decode_utf8(a);
    encode_utf8_decode_utf8(b);
}

/// Equality of two strings, compared byte by byte.
pub fn str_equal(a: &str, b: &str) -> (r: bool)
    ensures
        r == (a@ == b@),
{
    let r = bytes_equal(a.as_bytes(), b.as_bytes());
    proof {
        lemma_utf8_injective(a@, b@);
    }
    r
}

} // verus!
