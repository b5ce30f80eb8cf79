//! Text fields of received frames: zero-terminated byte strings, and their
//! decoding as UTF-8.

use vstd::prelude::*;

verus! {

/// The bytes of `s` before its first zero byte; all of `s` when it holds none.
pub open spec fn until_nul(s: Seq<u8>) -> Seq<u8>
    decreases s.len(),
{
    if s.len() == 0 {
        s
    } else if s[0] == 0 {
        Seq::empty()
    } else {
        seq![s[0]] + until_nul(s.drop_first())
    }
}

/// When the first `i` bytes of `s` are not zero and `s` ends or has a zero at
/// `i`, the bytes before the first zero are the first `i`.
pub proof fn lemma_until_nul_prefix(s: Seq<u8>, i: int)
    requires
        0 <= i <= s.len(),
        forall|j: int| 0 <= j < i ==> s[j] != 0,
        i == s.len() || s[i] == 0,
    ensures
        until_nul(s) == s.take(i),
    decreases i,
{
    if i == 0 {
        if s.len() == 0 {
            assert(s.take(0) =~= s);
        } else {
            assert(s.take(0) =~= Seq::<u8>::empty());
        }
    } else {
        let t = s.drop_first();
        assert forall|j: int| 0 <= j < i - 1 implies t[j] != 0 by {
            assert(t[j] == s[j + 1]);
        }
        lemma_until_nul_prefix(t, i - 1);
        assert(s.take(i) =~= seq![s[0]] + t.take(i - 1));
    }
}

/// The bytes before the first zero are a prefix of `s` with no zero in it,
/// followed in `s` by a zero or by nothing.
pub proof fn lemma_until_nul_shape(s: Seq<u8>)
    ensures
        until_nul(s).len() <= s.len(),
        until_nul(s) == s.take(until_nul(s).len() as int),
        forall|i: int| 0 <= i < until_nul(s).len() ==> #[trigger] s[i] != 0,
        until_nul(s).len() == s.len() || s[until_nul(s).len() as int] == 0,
    decreases s.len(),
{
    if s.len() == 0 {
        assert(s.take(0) =~= s);
    } else if s[0] == 0 {
        assert(s.take(0) =~= Seq::<u8>::empty());
    } else {
        let t = s.drop_first();
        lemma_until_nul_shape(t);
        let n: int = until_nul(t).len() as int;
        assert(until_nul(s) =~= seq![s[0]] + until_nul(t));
        assert(s.take(n + 1) =~= seq![s[0]] + t.take(n));
        assert forall|i: int| 0 <= i < n + 1 implies #[trigger] s[i] != 0 by {
            if i > 0 {
                assert(s[i] == t[i - 1]);
            }
        }
        if n < t.len() {
            assert(s[n + 1] == t[n]);
        }
    }
}

/// The bytes of `data` before its first zero byte.
pub fn take_until_nul(data: &[u8]) -> (r: Vec<u8>)
    ensures
        r@ == until_nul(data@),
{
    let mut r: Vec<u8> = Vec::new();
    let mut i: usize = 0;
    while i < data.len() && data[i] != 0
        invariant
            i <= data@.len(),
            r@ == data@.take(i as int),
            forall|j: int| 0 <= j < i ==> data@[j] != 0,
        decreases data@.len() - i,
    {
        r.push(data[i]);
        i = i + 1;
        assert(r@ =~= data@.take(i as int));
    }
    proof {
        lemma_until_nul_prefix(data@, i as int);
    }
    r
}

/// What `String::from_utf8_lossy` makes of a byte string: its UTF-8 decoding,
/// with each invalid sequence replaced by U+FFFD.
pub uninterp spec fn utf8_lossy(bytes: Seq<u8>) -> Seq<char>;

/// `String::from_utf8_lossy`, made owned. Its documentation promises that
/// valid UTF-8 comes back decoded unchanged; how invalid sequences are replaced
/// is left to the name `utf8_lossy`.
#[verifier::external_body]
pub(crate) fn string_from_utf8_lossy(bytes: &[u8]) -> (s: String)
    ensures
        s@ == utf8_lossy(bytes@),
        vstd::utf8::valid_utf8(bytes@) ==> s@ == vstd::utf8::decode_utf8(bytes@),
{
    String::from_utf8_lossy(bytes).into_owned()
}

} // verus!
