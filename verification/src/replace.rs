//! Non-overlapping, left-to-right substring replacement over byte strings:
//! the operation that substitutes the workspace file's path for the
//! placeholder token inside a template argument.

use crate::bytes::append_bytes;
use vstd::prelude::*;

verus! {

/// Whether `pat` occurs in `s` starting at position `i`.
pub open spec fn occurs_at(s: Seq<u8>, pat: Seq<u8>, i: int) -> bool {
    0 <= i && i + pat.len() <= s.len() && s.subrange(i, i + pat.len()) == pat
}

/// Whether `pat` occurs anywhere in `s`.
pub open spec fn contains_pattern(s: Seq<u8>, pat: Seq<u8>) -> bool {
    exists|i: int| occurs_at(s, pat, i)
}

/// `s` with every non-overlapping occurrence of `pat`, scanned left to
/// right, replaced by `rep`. An empty pattern occurs at every position, so
/// `rep` is then inserted before every byte and once at the very end.
pub open spec fn replace_all(s: Seq<u8>, pat: Seq<u8>, rep: Seq<u8>) -> Seq<u8>
    decreases s.len(),
{
    if s.len() == 0 {
        if pat.len() == 0 {
            rep
        } else {
            s
        }
    } else if pat.len() == 0 {
        rep + s.take(1) + replace_all(s.skip(1), pat, rep)
    } else if pat.len() <= s.len() && s.take(pat.len() as int) == pat {
        rep + replace_all(s.skip(pat.len() as int), pat, rep)
    } else {
        s.take(1) + replace_all(s.skip(1), pat, rep)
    }
}

/// An argument without any occurrence of the placeholder is handed on
/// unchanged.
pub proof fn lemma_replace_all_no_occurrence(s: Seq<u8>, pat: Seq<u8>, rep: Seq<u8>)
    requires
        pat.len() > 0,
        !contains_pattern(s, pat),
    ensures
        replace_all(s, pat, rep) == s,
    decreases s.len(),
{
    if s.len() == 0 {
    } else {
        if pat.len() <= s.len() && s.take(pat.len() as int) == pat {
            assert(s.subrange(0, pat.len() as int) =~= s.take(pat.len() as int));
            assert(occurs_at(s, pat, 0));
            assert(false);
        }
        assert forall|j: int| !occurs_at(s.skip(1), pat, j) by {
            if occurs_at(s.skip(1), pat, j) {
                assert(s.subrange(j + 1, j + 1 + pat.len()) =~= s.skip(1).subrange(
                    j,
                    j + pat.len(),
                ));
                assert(occurs_at(s, pat, j + 1));
            }
        }
        lemma_replace_all_no_occurrence(s.skip(1), pat, rep);
        assert(s.take(1) + s.skip(1) =~= s);
    }
}

/// At the leftmost occurrence of the placeholder the replacement really
/// happens: the bytes before it are kept, `rep` is written in its stead, and
/// the scan continues right after it.
pub proof fn lemma_replace_all_first_occurrence(s: Seq<u8>, pat: Seq<u8>, rep: Seq<u8>, i: int)
    requires
        pat.len() > 0,
        occurs_at(s, pat, i),
        forall|j: int| 0 <= j < i ==> !occurs_at(s, pat, j),
    ensures
        replace_all(s, pat, rep) == s.take(i) + rep + replace_all(
            s.skip(i + pat.len()),
            pat,
            rep,
        ),
    decreases i,
{
    if i == 0 {
        assert(s.take(pat.len() as int) =~= s.subrange(0, pat.len() as int));
        assert(s.take(0) + rep =~= rep);
        assert(s.take(0) + rep + replace_all(s.skip(pat.len() as int), pat, rep) =~= rep
            + replace_all(s.skip(pat.len() as int), pat, rep));
    } else {
        if pat.len() <= s.len() && s.take(pat.len() as int) == pat {
            assert(s.subrange(0, pat.len() as int) =~= s.take(pat.len() as int));
            assert(occurs_at(s, pat, 0));
            assert(false);
        }
        assert(occurs_at(s.skip(1), pat, i - 1)) by {
            assert(s.skip(1).subrange(i - 1, i - 1 + pat.len()) =~= s.subrange(
                i,
                i + pat.len(),
            ));
        }
        assert forall|j: int| 0 <= j < i - 1 implies !occurs_at(s.skip(1), pat, j) by {
            if occurs_at(s.skip(1), pat, j) {
                assert(s.subrange(j + 1, j + 1 + pat.len()) =~= s.skip(1).subrange(
                    j,
                    j + pat.len(),
                ));
                assert(occurs_at(s, pat, j + 1));
            }
        }
        lemma_replace_all_first_occurrence(s.skip(1), pat, rep, i - 1);
        assert(s.skip(1).skip(i - 1 + pat.len()) =~= s.skip(i + pat.len()));
        assert(s.take(1) + (s.skip(1).take(i - 1) + rep + replace_all(
            s.skip(i + pat.len()),
            pat,
            rep,
        )) =~= s.take(i) + rep + replace_all(s.skip(i + pat.len()), pat, rep));
    }
}

/// Whether `pat` occurs in `s` at position `i`, decided by comparing the
/// bytes.
fn matches_at(s: &Vec<u8>, i: usize, pat: &Vec<u8>) -> (r: bool)
    requires
        i <= s@.len(),
    ensures
        r == occurs_at(s@, pat@, i as int),
{
    if pat.len() > s.len() - i {
        proof {
            assert(!occurs_at(s@, pat@, i as int));
        }
        return false;
    }
    let mut k: usize = 0;
    while k < pat.len()
        invariant
            k <= pat@.len(),
            i + pat@.len() <= s@.len(),
            s@.len() <= usize::MAX,
            forall|j: int| 0 <= j < k ==> s@[i + j] == pat@[j],
        decreases pat@.len() - k,
    {
        if s[i + k] != pat[k] {
            proof {
                assert(s@.subrange(i as int, i + pat@.len())[k as int] != pat@[k as int]);
            }
            return false;
        }
        k = k + 1;
    }
    proof {
        assert(s@.subrange(i as int, i + pat@.len()) =~= pat@);
    }
    true
}

/// Replaces every non-overlapping occurrence of `pat` in `s`, scanned left
/// to right, with `rep` — the rewriting applied to one template argument.
pub fn replace_bytes(s: &Vec<u8>, pat: &Vec<u8>, rep: &Vec<u8>) -> (out: Vec<u8>)
    ensures
        out@ == replace_all(s@, pat@, rep@),
{
    let mut out: Vec<u8> = Vec::new();
    let mut i: usize = 0;
    proof {
        assert(s@.skip(0) =~= s@);
        assert(out@ + replace_all(s@, pat@, rep@) =~= replace_all(s@, pat@, rep@));
    }
    while i < s.len()
        invariant
            i <= s@.len(),
            replace_all(s@, pat@, rep@) == out@ + replace_all(s@.skip(i as int), pat@, rep@),
        decreases s@.len() - i,
    {
        let ghost rest = s@.skip(i as int);
        let ghost out_before = out@;
        if pat.len() > 0 && matches_at(s, i, pat) {
            proof {
                assert(rest.take(pat@.len() as int) =~= s@.subrange(i as int, i + pat@.len()));
                assert(rest.skip(pat@.len() as int) =~= s@.skip(i + pat@.len()));
            }
            append_bytes(&mut out, rep);
            i = i + pat.len();
            proof {
                assert(out_before + (rep@ + replace_all(s@.skip(i as int), pat@, rep@)) =~= out@
                    + replace_all(s@.skip(i as int), pat@, rep@));
            }
        } else if pat.len() == 0 {
            append_bytes(&mut out, rep);
            out.push(s[i]);
            i = i + 1;
            proof {
                assert(rest.take(1) =~= seq![s@[i - 1]]);
                assert(rest.skip(1) =~= s@.skip(i as int));
                assert(out_before + (rep@ + rest.take(1) + replace_all(
                    s@.skip(i as int),
                    pat@,
                    rep@,
                )) =~= out@ + replace_all(s@.skip(i as int), pat@, rep@));
            }
        } else {
            proof {
                if pat@.len() <= rest.len() && rest.take(pat@.len() as int) == pat@ {
                    assert(rest.take(pat@.len() as int) =~= s@.subrange(
                        i as int,
                        i + pat@.len(),
                    ));
                    assert(occurs_at(s@, pat@, i as int));
                    assert(false);
                }
            }
            out.push(s[i]);
            i = i + 1;
            proof {
                assert(rest.take(1) =~= seq![s@[i - 1]]);
                assert(rest.skip(1) =~= s@.skip(i as int));
                assert(out_before + (rest.take(1) + replace_all(
                    s@.skip(i as int),
                    pat@,
                    rep@,
                )) =~= out@ + replace_all(s@.skip(i as int), pat@, rep@));
            }
        }
    }
    proof {
        assert(s@.skip(s@.len() as int) =~= Seq::<u8>::empty());
    }
    if pat.len() == 0 {
        append_bytes(&mut out, rep);
    }
    out
}

} // verus!
