//! Verified substring search and replacement over byte strings.
//!
//! Tensor and parameter names are handled as their UTF-8 bytes. Replacement
//! follows the usual left-to-right, non-overlapping discipline: scanning from
//! the front, each occurrence of the pattern is replaced and scanning resumes
//! after the inserted replacement.
use vstd::prelude::*;
use vstd::slice::slice_to_vec;

verus! {

/// The pattern occurs in `s` starting at position `i`.
pub open spec fn match_at(s: Seq<u8>, pat: Seq<u8>, i: int) -> bool {
    &&& 0 <= i
    &&& i + pat.len() <= s.len()
    &&& s.subrange(i, i + pat.len()) == pat
}

/// The pattern occurs somewhere in `s`.
pub open spec fn contains_pat(s: Seq<u8>, pat: Seq<u8>) -> bool {
    exists|i: int| match_at(s, pat, i)
}

/// `s` with every occurrence of `pat` replaced by `rep`, scanning left to
/// right without overlap. An empty pattern leaves `s` unchanged.
pub open spec fn replace_all_spec(s: Seq<u8>, pat: Seq<u8>, rep: Seq<u8>) -> Seq<u8>
    decreases s.len(),
{
    if pat.len() == 0 || s.len() < pat.len() {
        s
    } else if s.subrange(0, pat.len() as int) == pat {
        rep + replace_all_spec(s.skip(pat.len() as int), pat, rep)
    } else {
        seq![s[0]] + replace_all_spec(s.skip(1), pat, rep)
    }
}

/// Whether the pattern occurs in `s` at position `i`.
pub fn is_match_at(s: &[u8], pat: &[u8], i: usize) -> (b: bool)
    requires
        i + pat@.len() <= s@.len(),
    ensures
        b == match_at(s@, pat@, i as int),
{
    let s_len: usize = s.len();
    let mut j: usize = 0;
    while j < pat.len()
        invariant
            s_len == s@.len(),
            0 <= j <= pat@.len(),
            i + pat@.len() <= s@.len(),
            forall|k: int| 0 <= k < j ==> s@[i + k] == pat@[k],
        decreases pat@.len() - j,
    {
        if s[i + j] != pat[j] {
            proof {
                assert(s@.subrange(i as int, i + pat@.len())[j as int] != pat@[j as int]);
            }
            return false;
        }
        j = j + 1;
    }
    proof {
        assert(s@.subrange(i as int, i + pat@.len()) =~= pat@);
    }
    true
}

/// Whether the pattern occurs anywhere in `s`.
pub fn contains_pattern(s: &[u8], pat: &[u8]) -> (b: bool)
    ensures
        b == contains_pat(s@, pat@),
{
    if pat.len() > s.len() {
        proof {
            assert(forall|i: int| !match_at(s@, pat@, i));
        }
        return false;
    }
    let n = s.len() - pat.len();
    let mut i: usize = 0;
    loop
        invariant
            pat@.len() <= s@.len(),
            n == s@.len() - pat@.len(),
            0 <= i <= n,
            forall|k: int| 0 <= k < i ==> !match_at(s@, pat@, k),
        decreases n - i,
    {
        if is_match_at(s, pat, i) {
            return true;
        }
        if i == n {
            proof {
                assert(forall|k: int| !match_at(s@, pat@, k));
            }
            return false;
        }
        i = i + 1;
    }
}

/// `s` with every occurrence of `pat` replaced by `rep`, scanning left to
/// right without overlap.
pub fn replace_all(s: &[u8], pat: &[u8], rep: &[u8]) -> (r: Vec<u8>)
    ensures
        r@ == replace_all_spec(s@, pat@, rep@),
{
    if pat.len() == 0 {
        return slice_to_vec(s);
    }
    let mut out: Vec<u8> = Vec::new();
    let mut i: usize = 0;
    proof {
        assert(s@.skip(0) =~= s@);
        assert(Seq::<u8>::empty() + replace_all_spec(s@, pat@, rep@) =~= replace_all_spec(
            s@,
            pat@,
            rep@,
        ));
    }
    while i < s.len()
        invariant
            pat@.len() >= 1,
            0 <= i <= s@.len(),
            replace_all_spec(s@, pat@, rep@) == out@ + replace_all_spec(
                s@.skip(i as int),
                pat@,
                rep@,
            ),
        decreases s@.len() - i,
    {
        let ghost suffix = s@.skip(i as int);
        let ghost out_before = out@;
        if s.len() - i >= pat.len() && is_match_at(s, pat, i) {
            proof {
                assert(suffix.subrange(0, pat@.len() as int) =~= s@.subrange(
                    i as int,
                    i + pat@.len(),
                ));
                assert(suffix.skip(pat@.len() as int) =~= s@.skip(i + pat@.len()));
                assert(replace_all_spec(suffix, pat@, rep@) == rep@ + replace_all_spec(
                    s@.skip(i + pat@.len()),
                    pat@,
                    rep@,
                ));
            }
            let mut j: usize = 0;
            while j < rep.len()
                invariant
                    0 <= j <= rep@.len(),
                    out@ == out_before + rep@.subrange(0, j as int),
                decreases rep@.len() - j,
            {
                proof {
                    assert(rep@.subrange(0, j as int).push(rep@[j as int]) =~= rep@.subrange(
                        0,
                        j + 1,
                    ));
                }
                out.push(rep[j]);
                j = j + 1;
            }
            proof {
                assert(rep@.subrange(0, rep@.len() as int) =~= rep@);
                assert((out_before + rep@) + replace_all_spec(s@.skip(i + pat@.len()), pat@, rep@)
                    =~= out_before + (rep@ + replace_all_spec(s@.skip(i + pat@.len()), pat@, rep@)));
            }
            i = i + pat.len();
        } else {
            proof {
                assert(suffix.skip(1) =~= s@.skip(i + 1));
                if suffix.len() < pat@.len() {
                    assert(replace_all_spec(suffix, pat@, rep@) == suffix);
                    assert(replace_all_spec(s@.skip(i + 1), pat@, rep@) == s@.skip(i + 1));
                    assert(suffix =~= seq![suffix[0]] + s@.skip(i + 1));
                } else {
                    assert(suffix.subrange(0, pat@.len() as int) =~= s@.subrange(
                        i as int,
                        i + pat@.len(),
                    ));
                }
                assert(replace_all_spec(suffix, pat@, rep@) == seq![suffix[0]] + replace_all_spec(
                    s@.skip(i + 1),
                    pat@,
                    rep@,
                ));
                assert(out_before.push(s@[i as int]) =~= out_before + seq![suffix[0]]);
                assert((out_before + seq![suffix[0]]) + replace_all_spec(s@.skip(i + 1), pat@, rep@)
                    =~= out_before + (seq![suffix[0]] + replace_all_spec(s@.skip(i + 1), pat@, rep@)));
            }
            out.push(s[i]);
            i = i + 1;
        }
    }
    proof {
        assert(s@.skip(i as int) =~= Seq::<u8>::empty());
        assert(out@ + Seq::<u8>::empty() =~= out@);
    }
    out
}

} // verus!
