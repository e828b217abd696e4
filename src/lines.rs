use vstd::prelude::*;
use vstd::string::StringExecFns;
use crate::text::{chars_of, contains, contains_seq, starts_with, starts_with_seq, string_of};

verus! {

/// `s` cut at every newline; always at least one (possibly empty) piece.
pub open spec fn pieces(s: Seq<char>) -> Seq<Seq<char>>
    decreases s.len(),
{
    if s.len() == 0 {
        seq![Seq::empty()]
    } else {
        let r = pieces(s.drop_last());
        if s.last() == '\n' {
            r.push(Seq::empty())
        } else {
            r.update(r.len() - 1, r.last().push(s.last()))
        }
    }
}

proof fn lemma_pieces_nonempty(s: Seq<char>)
    ensures
        pieces(s).len() >= 1,
    decreases s.len(),
{
    if s.len() > 0 {
        lemma_pieces_nonempty(s.drop_last());
    }
}

/// A line ended by a newline loses a carriage return before it.
pub open spec fn strip_cr(line: Seq<char>) -> Seq<char> {
    if line.len() > 0 && line.last() == '\r' {
        line.drop_last()
    } else {
        line
    }
}

/// The lines of `s` as `str::lines` yields them: split at `\n` or `\r\n`,
/// with no empty line after a final newline.
pub open spec fn lines_of(s: Seq<char>) -> Seq<Seq<char>> {
    let r = pieces(s);
    let ended = r.drop_last().map_values(|l: Seq<char>| strip_cr(l));
    if r.last().len() > 0 {
        ended.push(r.last())
    } else {
        ended
    }
}

pub open spec fn views_of(v: Seq<String>) -> Seq<Seq<char>> {
    v.map_values(|s: String| s@)
}

fn strip_cr_exec(v: &Vec<char>) -> (r: Vec<char>)
    ensures
        r@ == strip_cr(v@),
{
    let mut n = v.len();
    if n > 0 && v[n - 1] == '\r' {
        n = n - 1;
    }
    let mut out: Vec<char> = Vec::new();
    let mut i: usize = 0;
    while i < n
        invariant
            n <= v@.len(),
            i <= n,
            out@ == v@.take(i as int),
        decreases n - i,
    {
        out.push(v[i]);
        assert(v@.take(i + 1) =~= v@.take(i as int).push(v@[i as int]));
        i += 1;
    }
    assert(out@ =~= strip_cr(v@));
    out
}

/// The lines of `s`.
pub fn split_lines(s: &str) -> (r: Vec<String>)
    ensures
        views_of(r@) == lines_of(s@),
{
    let cs = chars_of(s);
    let mut done: Vec<String> = Vec::new();
    let mut cur: Vec<char> = Vec::new();
    let mut i: usize = 0;
    assert(cs@.take(0) =~= Seq::<char>::empty());
    while i < cs.len()
        invariant
            cs@ == s@,
            i <= cs@.len(),
            views_of(done@) == pieces(cs@.take(i as int)).drop_last().map_values(
                |l: Seq<char>| strip_cr(l),
            ),
            cur@ == pieces(cs@.take(i as int)).last(),
        decreases cs@.len() - i,
    {
        let ghost t = cs@.take(i as int);
        let ghost t1 = cs@.take(i + 1);
        assert(t1.drop_last() =~= t);
        proof {
            lemma_pieces_nonempty(t);
        }
        let c = cs[i];
        if c == '\n' {
            let line = string_of(&strip_cr_exec(&cur));
            let ghost before = done@;
            let ghost old_cur = cur@;
            done.push(line);
            assert(pieces(t1).drop_last() =~= pieces(t));
            assert(pieces(t) =~= pieces(t).drop_last().push(pieces(t).last()));
            assert(views_of(done@) =~= views_of(before).push(strip_cr(old_cur)));
            assert(pieces(t).map_values(|l: Seq<char>| strip_cr(l)) =~= pieces(t).drop_last().map_values(|l: Seq<char>| strip_cr(l)).push(strip_cr(pieces(t).last())));
            assert(views_of(done@) =~= pieces(t1).drop_last().map_values(|l: Seq<char>| strip_cr(l)));
            cur = Vec::new();
            assert(cur@ =~= pieces(t1).last());
        } else {
            cur.push(c);
            assert(pieces(t1).drop_last() =~= pieces(t).drop_last());
            assert(cur@ =~= pieces(t1).last());
        }
        i += 1;
    }
    assert(cs@.take(i as int) =~= s@);
    if cur.len() > 0 {
        done.push(string_of(&cur));
        assert(views_of(done@) =~= lines_of(s@));
    } else {
        assert(views_of(done@) =~= lines_of(s@));
    }
    done
}

/// The lines of `ls` that begin with `prefix`, at most `limit` of them, in order.
pub open spec fn lines_with_prefix(ls: Seq<Seq<char>>, prefix: Seq<char>, limit: nat) -> Seq<
    Seq<char>,
>
    decreases ls.len(),
{
    if ls.len() == 0 {
        Seq::empty()
    } else {
        let r = lines_with_prefix(ls.drop_last(), prefix, limit);
        if starts_with_seq(ls.last(), prefix) && r.len() < limit {
            r.push(ls.last())
        } else {
            r
        }
    }
}

/// `parts` joined with a newline between neighbours.
pub open spec fn join_lines(parts: Seq<Seq<char>>) -> Seq<char>
    decreases parts.len(),
{
    if parts.len() == 0 {
        Seq::empty()
    } else if parts.len() == 1 {
        parts[0]
    } else {
        join_lines(parts.drop_last()) + "\n"@ + parts.last()
    }
}

/// The lines of `text` that begin with `prefix` (at most `limit`), joined
/// by newlines, and how many there were.
pub fn matching_lines(text: &str, prefix: &str, limit: usize) -> (r: (String, usize))
    ensures
        r.0@ == join_lines(lines_with_prefix(lines_of(text@), prefix@, limit as nat)),
        r.1 as nat == lines_with_prefix(lines_of(text@), prefix@, limit as nat).len(),
{
    let ls = split_lines(text);
    let ghost all = views_of(ls@);
    let mut out = String::from_str("");
    proof {
        reveal_strlit("");
    }
    let mut n: usize = 0;
    let mut i: usize = 0;
    while i < ls.len()
        invariant
            i <= ls@.len(),
            all == views_of(ls@),
            all == lines_of(text@),
            n <= i,
            n as nat == lines_with_prefix(all.take(i as int), prefix@, limit as nat).len(),
            out@ == join_lines(lines_with_prefix(all.take(i as int), prefix@, limit as nat)),
        decreases ls@.len() - i,
    {
        let ghost prev = lines_with_prefix(all.take(i as int), prefix@, limit as nat);
        assert(all.take(i + 1).drop_last() =~= all.take(i as int));
        assert(all.take(i + 1).last() == ls@[i as int]@);
        if n < limit && starts_with(ls[i].as_str(), prefix) {
            assert(prev.push(ls@[i as int]@).drop_last() =~= prev);
            if n > 0 {
                out = out.concat("\n");
            } else {
                assert(out@ =~= Seq::<char>::empty());
            }
            out = out.concat(ls[i].as_str());
            n = n + 1;
            assert(out@ =~= join_lines(lines_with_prefix(all.take(i + 1), prefix@, limit as nat)));
        }
        i += 1;
    }
    assert(all.take(i as int) =~= all);
    (out, n)
}

} // verus!

verus! {

/// The lines of `ls` that begin with `prefix` and hold `needle`, at most
/// `limit` of them, in order.
pub open spec fn lines_with_prefix_holding(
    ls: Seq<Seq<char>>,
    prefix: Seq<char>,
    needle: Seq<char>,
    limit: nat,
) -> Seq<Seq<char>>
    decreases ls.len(),
{
    if ls.len() == 0 {
        Seq::empty()
    } else {
        let r = lines_with_prefix_holding(ls.drop_last(), prefix, needle, limit);
        if starts_with_seq(ls.last(), prefix) && contains_seq(ls.last(), needle) && r.len()
            < limit {
            r.push(ls.last())
        } else {
            r
        }
    }
}

/// The lines of `text` that begin with `prefix` and hold `needle` (at most
/// `limit`), joined by newlines, and how many there were.
pub fn matching_lines_holding(text: &str, prefix: &str, needle: &str, limit: usize) -> (r: (
    String,
    usize,
))
    ensures
        r.0@ == join_lines(lines_with_prefix_holding(lines_of(text@), prefix@, needle@, limit as nat)),
        r.1 as nat == lines_with_prefix_holding(lines_of(text@), prefix@, needle@, limit as nat).len(),
{
    let ls = split_lines(text);
    let ghost all = views_of(ls@);
    let mut out = String::from_str("");
    proof {
        reveal_strlit("");
    }
    let mut n: usize = 0;
    let mut i: usize = 0;
    while i < ls.len()
        invariant
            i <= ls@.len(),
            all == views_of(ls@),
            all == lines_of(text@),
            n <= i,
            n as nat == lines_with_prefix_holding(all.take(i as int), prefix@, needle@, limit as nat).len(),
            out@ == join_lines(lines_with_prefix_holding(all.take(i as int), prefix@, needle@, limit as nat)),
        decreases ls@.len() - i,
    {
        let ghost prev = lines_with_prefix_holding(all.take(i as int), prefix@, needle@, limit as nat);
        assert(all.take(i + 1).drop_last() =~= all.take(i as int));
        assert(all.take(i + 1).last() == ls@[i as int]@);
        if n < limit && starts_with(ls[i].as_str(), prefix) && contains(ls[i].as_str(), needle) {
            assert(prev.push(ls@[i as int]@).drop_last() =~= prev);
            if n > 0 {
                out = out.concat("\n");
            } else {
                assert(out@ =~= Seq::<char>::empty());
            }
            out = out.concat(ls[i].as_str());
            n = n + 1;
            assert(out@ =~= join_lines(lines_with_prefix_holding(all.take(i + 1), prefix@, needle@, limit as nat)));
        }
        i += 1;
    }
    assert(all.take(i as int) =~= all);
    (out, n)
}

} // verus!
