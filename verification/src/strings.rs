//! Small verified helpers on strings.
use vstd::prelude::*;
use vstd::string::StrSliceExecFns;

verus! {

/// `s` begins with `prefix`.
pub open spec fn spec_has_prefix(s: Seq<char>, prefix: Seq<char>) -> bool {
    prefix.len() <= s.len() && s.subrange(0, prefix.len() as int) == prefix
}

/// Whether `s` begins with `prefix`.
pub fn has_prefix(s: &str, prefix: &str) -> (r: bool)
    ensures
        r == spec_has_prefix(s@, prefix@),
{
    let n = prefix.unicode_len();
    let m = s.unicode_len();
    if n > m {
        return false;
    }
    let mut i: usize = 0;
    while i < n
        invariant
            i <= n,
            n == prefix@.len(),
            m == s@.len(),
            n <= m,
            forall|j: int| 0 <= j < i ==> s@[j] == prefix@[j],
        decreases n - i,
    {
        if s.get_char(i) != prefix.get_char(i) {
            assert(s@.subrange(0, n as int)[i as int] != prefix@[i as int]);
            return false;
        }
        i = i + 1;
    }
    assert(s@.subrange(0, n as int) =~= prefix@);
    true
}

/// Whether `a` and `b` hold the same characters.
pub fn str_eq(a: &str, b: &str) -> (r: bool)
    ensures
        r == (a@ == b@),
{
    let n = a.unicode_len();
    let m = b.unicode_len();
    if n != m {
        return false;
    }
    let mut i: usize = 0;
    while i < n
        invariant
            i <= n,
            n == a@.len(),
            m == b@.len(),
            n == m,
            forall|j: int| 0 <= j < i ==> a@[j] == b@[j],
        decreases n - i,
    {
        if a.get_char(i) != b.get_char(i) {
            return false;
        }
        i = i + 1;
    }
    assert(a@ =~= b@);
    true
}

/// `s` with each occurrence of the non-empty `pat` replaced by `rep`, occurrences found
/// left to right without overlapping, as `str::replace` does.
pub open spec fn replace_all(s: Seq<char>, pat: Seq<char>, rep: Seq<char>) -> Seq<char>
    recommends
        pat.len() > 0,
    decreases s.len(),
{
    if pat.len() == 0 || s.len() < pat.len() {
        s
    } else if s.take(pat.len() as int) == pat {
        rep + replace_all(s.skip(pat.len() as int), pat, rep)
    } else {
        seq![s[0]] + replace_all(s.skip(1), pat, rep)
    }
}

/// `s` from index `k` on begins with `pat`.
fn matches_at(s: &str, k: usize, pat: &str) -> (r: bool)
    requires
        k <= s@.len(),
    ensures
        r == (pat@.len() <= s@.len() - k && s@.skip(k as int).take(pat@.len() as int) == pat@),
{
    let n = pat.unicode_len();
    let m = s.unicode_len();
    if n > m - k {
        return false;
    }
    let mut i: usize = 0;
    while i < n
        invariant
            i <= n,
            n == pat@.len(),
            m == s@.len(),
            k <= m,
            n <= m - k,
            forall|j: int| 0 <= j < i ==> s@[k + j] == pat@[j],
        decreases n - i,
    {
        if s.get_char(k + i) != pat.get_char(i) {
            assert(s@.skip(k as int).take(n as int)[i as int] != pat@[i as int]);
            return false;
        }
        i = i + 1;
    }
    assert(s@.skip(k as int).take(n as int) =~= pat@);
    true
}

/// Replaces each occurrence of the non-empty `pat` in `s` by `rep`.
pub fn replace(s: &str, pat: &str, rep: &str) -> (r: String)
    requires
        pat@.len() > 0,
    ensures
        r@ == replace_all(s@, pat@, rep@),
{
    let m = s.unicode_len();
    let n = pat.unicode_len();
    let mut out = String::new();
    let mut k: usize = 0;
    assert(s@.skip(0) =~= s@);
    assert(out@ + replace_all(s@, pat@, rep@) =~= replace_all(s@, pat@, rep@));
    while k < m
        invariant
            k <= m,
            m == s@.len(),
            n == pat@.len(),
            n > 0,
            out@ + replace_all(s@.skip(k as int), pat@, rep@) == replace_all(s@, pat@, rep@),
        decreases m - k,
    {
        let ghost rest = s@.skip(k as int);
        let ghost out0 = out@;
        if matches_at(s, k, pat) {
            out.append(rep);
            proof {
                assert(rest.skip(n as int) =~= s@.skip(k + n));
                let tail = replace_all(s@.skip(k + n), pat@, rep@);
                assert(replace_all(rest, pat@, rep@) == rep@ + tail);
                assert(out@ + tail =~= out0 + (rep@ + tail));
            }
            k = k + n;
        } else {
            let c = s.substring_char(k, k + 1);
            out.append(c);
            proof {
                assert(rest.skip(1) =~= s@.skip(k + 1));
                assert(c@ =~= seq![rest[0]]);
                let tail = replace_all(s@.skip(k + 1), pat@, rep@);
                assert(replace_all(rest, pat@, rep@) == seq![rest[0]] + tail);
                assert(out@ + tail =~= out0 + (seq![rest[0]] + tail));
            }
            k = k + 1;
        }
    }
    proof {
        assert(s@.skip(m as int) =~= Seq::<char>::empty());
    }
    out
}

} // verus!
