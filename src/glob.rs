use vstd::prelude::*;
use crate::text::chars_of;

verus! {

/// Drops one `/` at the front, if there is one.
pub open spec fn drop_leading_slash(p: Seq<char>) -> Seq<char> {
    if p.len() > 0 && p[0] == '/' {
        p.skip(1)
    } else {
        p
    }
}

/// Anchored glob matching of `path` against `pattern`: `?` is one character,
/// `*` any run without `/`, `**` any run at all (one `/` right after it is
/// consumed), anything else is itself.
pub open spec fn glob_matches(pattern: Seq<char>, path: Seq<char>) -> bool
    decreases pattern.len(),
{
    if pattern.len() == 0 {
        path.len() == 0
    } else if pattern[0] == '*' && pattern.len() >= 2 && pattern[1] == '*' {
        exists|i: int|
            0 <= i <= path.len() && glob_matches(
                drop_leading_slash(pattern.skip(2)),
                #[trigger] path.skip(i),
            )
    } else if pattern[0] == '*' {
        exists|i: int|
            0 <= i <= path.len() && !path.take(i).contains('/') && glob_matches(
                pattern.skip(1),
                #[trigger] path.skip(i),
            )
    } else if pattern[0] == '?' {
        path.len() > 0 && glob_matches(pattern.skip(1), path.skip(1))
    } else {
        path.len() > 0 && path[0] == pattern[0] && glob_matches(pattern.skip(1), path.skip(1))
    }
}

proof fn lemma_double_star_witness(p: Seq<char>, s: Seq<char>, i: int)
    requires
        p.len() >= 2 && p[0] == '*' && p[1] == '*',
        0 <= i <= s.len(),
        glob_matches(drop_leading_slash(p.skip(2)), s.skip(i)),
    ensures
        glob_matches(p, s),
{
}

proof fn lemma_star_witness(p: Seq<char>, s: Seq<char>, i: int)
    requires
        p.len() >= 1 && p[0] == '*',
        !(p.len() >= 2 && p[1] == '*'),
        0 <= i <= s.len(),
        !s.take(i).contains('/'),
        glob_matches(p.skip(1), s.skip(i)),
    ensures
        glob_matches(p, s),
{
}

fn match_from(p: &Vec<char>, pi: usize, s: &Vec<char>, si: usize) -> (r: bool)
    requires
        pi <= p@.len(),
        si <= s@.len(),
    ensures
        r == glob_matches(p@.skip(pi as int), s@.skip(si as int)),
    decreases p@.len() - pi,
{
    let ghost ps = p@.skip(pi as int);
    let ghost ss = s@.skip(si as int);
    if pi == p.len() {
        return si == s.len();
    }
    assert(ps.len() > 0 && ps[0] == p@[pi as int]);
    if p[pi] == '*' && pi + 1 < p.len() && p[pi + 1] == '*' {
        assert(ps[1] == p@[pi + 1]);
        let mut next = pi + 2;
        if next < p.len() && p[next] == '/' {
            next = next + 1;
        }
        assert(drop_leading_slash(ps.skip(2)) =~= p@.skip(next as int));
        let mut k = si;
        loop
            invariant
                si <= k <= s@.len(),
                pi + 2 <= next <= p@.len(),
                ps == p@.skip(pi as int),
                ps.len() >= 2 && ps[0] == '*' && ps[1] == '*',
                drop_leading_slash(ps.skip(2)) == p@.skip(next as int),
                ss == s@.skip(si as int),
                forall|j: int|
                    0 <= j < k - si ==> !glob_matches(p@.skip(next as int), #[trigger] ss.skip(j)),
            decreases s@.len() - k,
        {
            assert(ss.skip(k - si) =~= s@.skip(k as int));
            if match_from(p, next, s, k) {
                proof {
                    lemma_double_star_witness(ps, ss, k - si);
                }
                return true;
            }
            if k == s.len() {
                return false;
            }
            k += 1;
        }
    }
    if p[pi] == '*' {
        let pn = pi + 1;
        assert(ps.skip(1) =~= p@.skip(pn as int));
        let mut k = si;
        loop
            invariant
                si <= k <= s@.len(),
                pn == pi + 1,
                pn <= p@.len(),
                ps == p@.skip(pi as int),
                ps.len() >= 1 && ps[0] == '*',
                !(ps.len() >= 2 && ps[1] == '*'),
                ps.skip(1) == p@.skip(pi + 1),
                ss == s@.skip(si as int),
                !ss.take(k - si).contains('/'),
                forall|j: int|
                    0 <= j < k - si ==> !glob_matches(p@.skip(pi + 1), #[trigger] ss.skip(j)),
            decreases s@.len() - k,
        {
            assert(ss.skip(k - si) =~= s@.skip(k as int));
            if match_from(p, pn, s, k) {
                proof {
                    lemma_star_witness(ps, ss, k - si);
                }
                return true;
            }
            if k == s.len() || s[k] == '/' {
                assert forall|j: int| k - si < j <= ss.len() implies ss.take(j).contains('/') by {
                    if k < s@.len() {
                        assert(ss.take(j)[k - si] == '/');
                    }
                }
                return false;
            }
            assert(ss.take(k + 1 - si) =~= ss.take(k - si).push(s@[k as int]));
            k += 1;
        }
    }
    if si == s.len() {
        return false;
    }
    assert(ps.skip(1) =~= p@.skip(pi + 1));
    assert(ss.skip(1) =~= s@.skip(si + 1));
    if p[pi] == '?' || p[pi] == s[si] {
        match_from(p, pi + 1, s, si + 1)
    } else {
        false
    }
}

/// Anchored glob match of a forward-slash path against a pattern.
pub fn glob_match(pattern: &str, path: &str) -> (r: bool)
    ensures
        r == glob_matches(pattern@, path@),
{
    let p = chars_of(pattern);
    let s = chars_of(path);
    assert(p@.skip(0) =~= p@);
    assert(s@.skip(0) =~= s@);
    match_from(&p, 0, &s, 0)
}

} // verus!
