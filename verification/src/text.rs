use vstd::prelude::*;

verus! {

/// True when `pat` occurs in `s` starting at position `i`.
pub open spec fn occurs_at(s: Seq<char>, pat: Seq<char>, i: int) -> bool {
    &&& 0 <= i
    &&& i + pat.len() <= s.len()
    &&& s.subrange(i, i + pat.len() as int) == pat
}

/// True when `pat` occurs somewhere in `s`.
pub open spec fn contains_seq(s: Seq<char>, pat: Seq<char>) -> bool {
    exists|i: int| occurs_at(s, pat, i)
}

/// The result of replacing, left to right, every non-overlapping occurrence
/// of `pat` in `s` by `to`.
pub open spec fn replace_spec(s: Seq<char>, pat: Seq<char>, to: Seq<char>) -> Seq<char>
    decreases s.len(),
{
    if s.len() == 0 {
        s
    } else if 0 < pat.len() && pat.len() <= s.len() && s.subrange(0, pat.len() as int) == pat {
        to + replace_spec(s.skip(pat.len() as int), pat, to)
    } else {
        seq![s[0]] + replace_spec(s.skip(1), pat, to)
    }
}

/// A sequence in which the pattern never occurs comes back from the
/// replacement verbatim.
pub proof fn lemma_replace_absent(s: Seq<char>, pat: Seq<char>, to: Seq<char>)
    requires
        pat.len() > 0,
        !contains_seq(s, pat),
    ensures
        replace_spec(s, pat, to) == s,
    decreases s.len(),
{
    if s.len() == 0 {
    } else {
        assert(!occurs_at(s, pat, 0));
        assert forall|i: int| !occurs_at(s.skip(1), pat, i) by {
            if occurs_at(s.skip(1), pat, i) {
                assert(s.skip(1).subrange(i, i + pat.len() as int) =~= s.subrange(
                    i + 1,
                    i + 1 + pat.len() as int,
                ));
                assert(occurs_at(s, pat, i + 1));
            }
        }
        lemma_replace_absent(s.skip(1), pat, to);
        assert(replace_spec(s, pat, to) =~= s);
    }
}

/// Character-by-character comparison; relies on nothing beyond the views.
pub fn str_eq(a: &str, b: &str) -> (r: bool)
    ensures
        r == (a@ == b@),
{
    let a_len: usize = a.unicode_len();
    let b_len: usize = b.unicode_len();
    if a_len != b_len {
        proof {
            if a@ == b@ {
                assert(a@.len() == b@.len());
            }
        }
        return false;
    }
    let mut i: usize = 0;
    while i < a_len
        invariant
            a_len == a@.len(),
            a@.len() == b@.len(),
            i <= a_len,
            forall|k: int| 0 <= k < i ==> a@[k] == b@[k],
        decreases a_len - i,
    {
        if a.get_char(i) != b.get_char(i) {
            proof {
                if a@ == b@ {
                    assert(a@[i as int] == b@[i as int]);
                }
            }
            return false;
        }
        i += 1;
    }
    proof {
        assert(a@ =~= b@);
    }
    true
}

/// True iff `pat` occurs in `s` at position `i`; both are read only through
/// their character views.
fn match_at(s: &str, pat: &str, i: usize) -> (b: bool)
    requires
        i + pat@.len() <= s@.len(),
        s@.len() <= usize::MAX,
    ensures
        b == occurs_at(s@, pat@, i as int),
{
    let pat_len: usize = pat.unicode_len();
    let mut j: usize = 0;
    while j < pat_len
        invariant
            pat_len == pat@.len(),
            i + pat@.len() <= s@.len(),
            s@.len() <= usize::MAX,
            j <= pat_len,
            forall|k: int| 0 <= k < j ==> s@[i + k] == pat@[k],
        decreases pat_len - j,
    {
        if s.get_char(i + j) != pat.get_char(j) {
            proof {
                if occurs_at(s@, pat@, i as int) {
                    assert(s@.subrange(i as int, i + pat@.len() as int)[j as int] == s@[i + j]);
                }
            }
            return false;
        }
        j += 1;
    }
    proof {
        assert(s@.subrange(i as int, i + pat@.len() as int) =~= pat@);
    }
    true
}

/// Replaces every non-overlapping occurrence of `pat` in `s` by `to`,
/// scanning left to right.
pub fn replace_str(s: &str, pat: &str, to: &str) -> (r: String)
    requires
        pat@.len() > 0,
    ensures
        r@ == replace_spec(s@, pat@, to@),
{
    let s_len: usize = s.unicode_len();
    let pat_len: usize = pat.unicode_len();
    let mut r = String::new();
    let mut i: usize = 0;
    proof {
        assert(s@.skip(0) =~= s@);
    }
    while i < s_len
        invariant
            0 < pat_len,
            pat_len == pat@.len(),
            s_len == s@.len(),
            i <= s_len,
            replace_spec(s@, pat@, to@) == r@ + replace_spec(s@.skip(i as int), pat@, to@),
        decreases s_len - i,
    {
        let ghost tail = s@.skip(i as int);
        let matched = if pat_len <= s_len - i {
            match_at(s, pat, i)
        } else {
            proof {
                if occurs_at(s@, pat@, i as int) {
                    assert(i + pat@.len() <= s@.len());
                }
            }
            false
        };
        if matched {
            r.append(to);
            proof {
                assert(tail.subrange(0, pat@.len() as int) =~= s@.subrange(
                    i as int,
                    i + pat@.len() as int,
                ));
                assert(tail.skip(pat@.len() as int) =~= s@.skip(i + pat@.len()));
                assert(replace_spec(tail, pat@, to@) == to@ + replace_spec(
                    s@.skip(i + pat@.len()),
                    pat@,
                    to@,
                ));
                assert(replace_spec(s@, pat@, to@) =~= r@ + replace_spec(
                    s@.skip(i + pat@.len()),
                    pat@,
                    to@,
                ));
            }
            i = i + pat_len;
        } else {
            let c = s.substring_char(i, i + 1);
            r.append(c);
            proof {
                assert(c@ =~= seq![tail[0]]);
                if 0 < pat@.len() && pat@.len() <= tail.len() && tail.subrange(
                    0,
                    pat@.len() as int,
                ) == pat@ {
                    assert(tail.subrange(0, pat@.len() as int) =~= s@.subrange(
                        i as int,
                        i + pat@.len() as int,
                    ));
                    assert(occurs_at(s@, pat@, i as int));
                    assert(false);
                }
                assert(replace_spec(tail, pat@, to@) == seq![tail[0]] + replace_spec(
                    tail.skip(1),
                    pat@,
                    to@,
                ));
                assert(tail.skip(1) =~= s@.skip(i + 1));
                assert(replace_spec(s@, pat@, to@) =~= r@ + replace_spec(
                    s@.skip(i + 1),
                    pat@,
                    to@,
                ));
            }
            i = i + 1;
        }
    }
    proof {
        assert(s@.skip(i as int).len() == 0);
        assert(replace_spec(s@.skip(i as int), pat@, to@) == s@.skip(i as int));
        assert(r@ + s@.skip(i as int) =~= r@);
    }
    r
}

} // verus!
