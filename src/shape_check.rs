use vstd::prelude::*;
use vstd::string::StringExecFns;
use crate::decision::{neutral, single, HookResult, Severity, Verdict};
use crate::edit_rules::join;
use crate::lines::{lines_of, split_lines, views_of};
use crate::recognizer::{regex_finds, regex_group};
use crate::registry::{einsum_source, vmap_source, Registry};
use crate::text::{chars_of, contains, contains_seq, decimal, decimal_string, occurs_at, string_of};

verus! {

/// What `char::is_alphabetic` says of a character.
pub uninterp spec fn alphabetic(c: char) -> bool;

/// Relies on char::is_alphabetic: whether `c` has the Unicode Alphabetic property.
#[verifier::external_body]
fn is_alphabetic(c: char) -> (r: bool)
    ensures
        r == alphabetic(c),
{
    c.is_alphabetic()
}

/// Position of the first `->` in `s` at or after `i`.
pub open spec fn arrow_from(s: Seq<char>, i: int) -> Option<int>
    decreases s.len() - i,
{
    if i < 0 || i + 2 > s.len() {
        None
    } else if occurs_at(s, "->"@, i) {
        Some(i)
    } else {
        arrow_from(s, i + 1)
    }
}

/// The alphabetic characters of `output` that `input` lacks, each once, in
/// order of first appearance.
pub open spec fn missing_indices(output: Seq<char>, input: Seq<char>) -> Seq<char>
    decreases output.len(),
{
    if output.len() == 0 {
        Seq::empty()
    } else {
        let rest = missing_indices(output.drop_last(), input);
        let c = output.last();
        if alphabetic(c) && !input.contains(c) && !rest.contains(c) {
            rest.push(c)
        } else {
            rest
        }
    }
}

/// A character list written as `['a', 'b']`.
pub open spec fn char_list_text(cs: Seq<char>) -> Seq<char> {
    "["@ + join(cs.map_values(|c: char| seq!['\'', c, '\'']), ", "@) + "]"@
}

pub open spec fn einsum_msg(line_no: nat, missing: Seq<char>) -> Seq<char> {
    "Line "@ + decimal(line_no) + ": einsum output has indices "@ + char_list_text(missing)
        + " not present in input"@
}

pub open spec fn vmap_msg(line_no: nat) -> Seq<char> {
    "Line "@ + decimal(line_no)
        + ": vmap/pmap without explicit in_axes/out_axes (defaults to 0, verify this is intended)"@
}

/// The contraction warning for one line, if any.
pub open spec fn einsum_warning(line: Seq<char>, line_no: nat) -> Option<Seq<char>> {
    match regex_group(einsum_source(), line, 1) {
        Some(sub) => match arrow_from(sub, 0) {
            Some(a) => {
                let missing = missing_indices(sub.skip(a + 2), sub.take(a));
                if missing.len() > 0 {
                    Some(einsum_msg(line_no, missing))
                } else {
                    None
                }
            },
            None => None,
        },
        None => None,
    }
}

/// The batched-map warning for one line, if any.
pub open spec fn vmap_warning(line: Seq<char>, line_no: nat) -> Option<Seq<char>> {
    if regex_finds(vmap_source(), line) && !contains_seq(line, "in_axes"@) && !contains_seq(
        line,
        "out_axes"@,
    ) {
        Some(vmap_msg(line_no))
    } else {
        None
    }
}

pub open spec fn opt_seq(o: Option<Seq<char>>) -> Seq<Seq<char>> {
    match o {
        Some(x) => seq![x],
        None => Seq::empty(),
    }
}

/// The warnings for the first `n` lines of `ls`, line by line.
pub open spec fn shape_warnings(ls: Seq<Seq<char>>, n: nat) -> Seq<Seq<char>>
    decreases n,
{
    if n == 0 || n > ls.len() {
        Seq::empty()
    } else {
        shape_warnings(ls, (n - 1) as nat) + opt_seq(einsum_warning(ls[n - 1], n)) + opt_seq(
            vmap_warning(ls[n - 1], n),
        )
    }
}

/// Whether the source uses the numeric framework at all.
pub open spec fn uses_framework(code: Seq<char>) -> bool {
    contains_seq(code, "jax"@) || contains_seq(code, "flax"@) || contains_seq(code, "jaxtyping"@)
}

/// Numeric-shape heuristics on a Python source text; only ever warns.
pub open spec fn shape_check_spec(code: Seq<char>) -> Verdict {
    let ls = lines_of(code);
    let ws = shape_warnings(ls, ls.len());
    if uses_framework(code) && ws.len() > 0 {
        single(Severity::Warn, "JAX shape/type warnings:\n  "@ + join(ws, "\n  "@))
    } else {
        neutral()
    }
}

fn find_arrow(s: &Vec<char>) -> (r: Option<usize>)
    ensures
        match r {
            Some(i) => arrow_from(s@, 0) == Some(i as int) && i + 2 <= s@.len(),
            None => arrow_from(s@, 0) is None,
        },
{
    let n = s.len();
    if n < 2 {
        return None;
    }
    let mut i: usize = 0;
    while i <= n - 2
        invariant
            n == s@.len(),
            n >= 2,
            i <= n - 1,
            arrow_from(s@, 0) == arrow_from(s@, i as int),
        decreases n - i,
    {
        proof {
            reveal_strlit("->");
            assert("->"@ =~= seq!['-', '>']);
        }
        if s[i] == '-' && s[i + 1] == '>' {
            assert(s@.subrange(i as int, i + 2) =~= "->"@);
            return Some(i);
        }
        assert(s@.subrange(i as int, i + 2)[0] == s@[i as int]);
        assert(s@.subrange(i as int, i + 2)[1] == s@[i + 1]);
        i += 1;
    }
    None
}

fn missing_exec(sub: &Vec<char>, a: usize) -> (r: Vec<char>)
    requires
        a + 2 <= sub@.len(),
    ensures
        r@ == missing_indices(sub@.skip(a + 2), sub@.take(a as int)),
{
    let ghost out = sub@.skip(a + 2);
    let ghost inp = sub@.take(a as int);
    let n = sub.len();
    let mut res: Vec<char> = Vec::new();
    let mut k: usize = a + 2;
    assert(out.take(0) =~= Seq::<char>::empty());
    while k < sub.len()
        invariant
            a + 2 <= k <= sub@.len(),
            out == sub@.skip(a + 2),
            inp == sub@.take(a as int),
            res@ == missing_indices(out.take(k - a - 2), inp),
        decreases sub@.len() - k,
    {
        let c = sub[k];
        assert(out.take(k + 1 - a - 2).drop_last() =~= out.take(k - a - 2));
        assert(out.take(k + 1 - a - 2).last() == c);
        let mut in_input = false;
        let mut j: usize = 0;
        while j < a
            invariant
                j <= a,
                a + 2 <= sub@.len(),
                inp == sub@.take(a as int),
                in_input == exists|t: int| 0 <= t < j && sub@[t] == c,
            decreases a - j,
        {
            if sub[j] == c {
                in_input = true;
            }
            j += 1;
        }
        assert(in_input == inp.contains(c)) by {
            if in_input {
                let t = choose|t: int| 0 <= t < a && sub@[t] == c;
                assert(inp[t] == c);
            }
        }
        let mut seen = false;
        let mut q: usize = 0;
        while q < res.len()
            invariant
                q <= res@.len(),
                seen == exists|t: int| 0 <= t < q && res@[t] == c,
            decreases res@.len() - q,
        {
            if res[q] == c {
                seen = true;
            }
            q += 1;
        }
        if is_alphabetic(c) && !in_input && !seen {
            res.push(c);
        }
        k += 1;
    }
    assert(out.take(k - a - 2) =~= out);
    res
}

fn char_list_string(cs: &Vec<char>) -> (r: String)
    ensures
        r@ == char_list_text(cs@),
{
    let ghost parts = cs@.map_values(|c: char| seq!['\'', c, '\'']);
    let mut body: Vec<char> = Vec::new();
    let mut i: usize = 0;
    while i < cs.len()
        invariant
            i <= cs@.len(),
            parts == cs@.map_values(|c: char| seq!['\'', c, '\'']),
            body@ == join(parts.take(i as int), ", "@),
        decreases cs@.len() - i,
    {
        proof {
            reveal_strlit(", ");
        }
        let ghost before = body@;
        if i > 0 {
            body.push(',');
            body.push(' ');
        }
        body.push('\'');
        body.push(cs[i]);
        body.push('\'');
        assert(parts.take(i + 1).drop_last() =~= parts.take(i as int));
        assert(parts.take(i + 1).last() == seq!['\'', cs@[i as int], '\'']);
        if i > 0 {
            assert(body@ =~= before + ", "@ + seq!['\'', cs@[i as int], '\'']);
        } else {
            assert(body@ =~= seq!['\'', cs@[i as int], '\'']);
        }
        i += 1;
    }
    assert(parts.take(i as int) =~= parts);
    let inner = string_of(&body);
    String::from_str("[").concat(inner.as_str()).concat("]")
}

fn einsum_line(reg: &Registry, line: &str, line_no: u64) -> (r: Option<String>)
    requires
        reg.wf(),
    ensures
        match r {
            Some(w) => einsum_warning(line@, line_no as nat) == Some(w@),
            None => einsum_warning(line@, line_no as nat) is None,
        },
{
    let sub = match reg.einsum.group(line, 1) {
        Some(s) => s,
        None => return None,
    };
    let cs = chars_of(sub.as_str());
    let a = match find_arrow(&cs) {
        Some(a) => a,
        None => return None,
    };
    let missing = missing_exec(&cs, a);
    if missing.len() == 0 {
        return None;
    }
    let msg = String::from_str("Line ").concat(decimal_string(line_no).as_str()).concat(
        ": einsum output has indices ",
    ).concat(char_list_string(&missing).as_str()).concat(" not present in input");
    Some(msg)
}

fn vmap_line(reg: &Registry, line: &str, line_no: u64) -> (r: Option<String>)
    requires
        reg.wf(),
    ensures
        match r {
            Some(w) => vmap_warning(line@, line_no as nat) == Some(w@),
            None => vmap_warning(line@, line_no as nat) is None,
        },
{
    if reg.vmap.finds(line) && !contains(line, "in_axes") && !contains(line, "out_axes") {
        let msg = String::from_str("Line ").concat(decimal_string(line_no).as_str()).concat(
            ": vmap/pmap without explicit in_axes/out_axes (defaults to 0, verify this is intended)",
        );
        Some(msg)
    } else {
        None
    }
}

/// Numeric-shape heuristics over the text of a Python source file.
pub fn jax_shape_check(code: &str, reg: &Registry) -> (r: HookResult)
    requires
        reg.wf(),
    ensures
        r@ == shape_check_spec(code@),
{
    if !(contains(code, "jax") || contains(code, "flax") || contains(code, "jaxtyping")) {
        return HookResult::ok();
    }
    let ls = split_lines(code);
    let ghost lv = views_of(ls@);
    let mut text = String::from_str("");
    proof {
        reveal_strlit("");
        reveal_strlit("\n  ");
    }
    let mut any = false;
    let mut i: usize = 0;
    while i < ls.len()
        invariant
            i <= ls@.len(),
            lv == views_of(ls@),
            lv == lines_of(code@),
            reg.wf(),
            any == (shape_warnings(lv, i as nat).len() > 0),
            text@ == join(shape_warnings(lv, i as nat), "\n  "@),
        decreases ls@.len() - i,
    {
        let ghost prev = shape_warnings(lv, i as nat);
        let no = (i + 1) as u64;
        let e = einsum_line(reg, ls[i].as_str(), no);
        let v = vmap_line(reg, ls[i].as_str(), no);
        assert(lv[i as int] == ls@[i as int]@);
        let ghost mid = prev + opt_seq(einsum_warning(lv[i as int], (i + 1) as nat));
        if let Some(w) = e {
            if any {
                text = text.concat("\n  ");
            } else {
                assert(text@ =~= Seq::<char>::empty());
            }
            text = text.concat(w.as_str());
            any = true;
            assert(mid =~= prev.push(w@));
            assert(mid.drop_last() =~= prev);
        } else {
            assert(mid =~= prev);
        }
        assert(text@ == join(mid, "\n  "@));
        assert(any == (mid.len() > 0));
        let ghost fin = mid + opt_seq(vmap_warning(lv[i as int], (i + 1) as nat));
        if let Some(w) = v {
            if any {
                text = text.concat("\n  ");
            } else {
                assert(text@ =~= Seq::<char>::empty());
            }
            text = text.concat(w.as_str());
            any = true;
            assert(fin =~= mid.push(w@));
            assert(fin.drop_last() =~= mid);
        } else {
            assert(fin =~= mid);
        }
        assert(shape_warnings(lv, (i + 1) as nat) == fin);
        i += 1;
    }
    if !any {
        return HookResult::ok();
    }
    HookResult::warn(String::from_str("JAX shape/type warnings:\n  ").concat(text.as_str()))
}

} // verus!
