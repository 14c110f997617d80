//! Textual preprocessing of the math expressions that animate scene values.
//!
//! Before an expression is handed to the evaluator, the easing shorthands
//! `ease_in(t)`, `ease_out(t)` and `ease_in_out(t)` are expanded into
//! polynomials in `t`, and calls of the standard math functions written
//! without a namespace get the `math::` one the evaluator expects. Both are
//! plain substring substitutions: `ease_in(t * 2)` is left alone.
use vstd::prelude::*;

verus! {

/// `p` occurs in `s` starting at index `i`.
pub open spec fn occurs_at(s: Seq<char>, p: Seq<char>, i: int) -> bool {
    0 <= i && i + p.len() <= s.len() && s.subrange(i, i + p.len()) == p
}

pub open spec fn contains(s: Seq<char>, p: Seq<char>) -> bool {
    exists|i: int| occurs_at(s, p, i)
}

/// `s` from index `i` on, with each occurrence of `p` found scanning left to
/// right replaced by `r`; occurrences do not overlap.
pub open spec fn replace_from(s: Seq<char>, p: Seq<char>, r: Seq<char>, i: int) -> Seq<char>
    decreases s.len() - i,
{
    if i < 0 || i >= s.len() {
        Seq::empty()
    } else if p.len() > 0 && occurs_at(s, p, i) {
        r + replace_from(s, p, r, i + p.len())
    } else {
        seq![s[i]] + replace_from(s, p, r, i + 1)
    }
}

pub open spec fn replace_all(s: Seq<char>, p: Seq<char>, r: Seq<char>) -> Seq<char> {
    replace_from(s, p, r, 0)
}

/// Replaces `p` by `r` when `s` mentions `guard`.
pub open spec fn replace_if_mentioned(s: Seq<char>, guard: Seq<char>, p: Seq<char>, r: Seq<char>) -> Seq<char> {
    if contains(s, guard) {
        replace_all(s, p, r)
    } else {
        s
    }
}

/// The easing shorthands expanded, `ease_in_out` first so that the shorter
/// names do not match inside it.
pub open spec fn expand_easing(s: Seq<char>) -> Seq<char> {
    let a = replace_if_mentioned(s, "ease_in_out"@, "ease_in_out(t)"@, "(3.0 * t * t - 2.0 * t * t * t)"@);
    let b = replace_if_mentioned(a, "ease_in"@, "ease_in(t)"@, "(t * t)"@);
    replace_if_mentioned(b, "ease_out"@, "ease_out(t)"@, "(1.0 - (1.0 - t) * (1.0 - t))"@)
}

/// The math functions that may be called without their namespace.
pub open spec fn math_function_names() -> Seq<Seq<char>> {
    seq![
        "sin"@, "cos"@, "tan"@, "asin"@, "acos"@, "atan"@, "sinh"@,
        "cosh"@, "tanh"@, "sqrt"@, "abs"@, "floor"@, "ceil"@, "round"@,
    ]
}

/// Calls `name(` become `math::name(`, unless `s` already holds a
/// `math::name(` call, in which case `s` is left as it is.
pub open spec fn prefix_calls(s: Seq<char>, name: Seq<char>) -> Seq<char> {
    let call = name + "("@;
    let prefixed = "math::"@ + name + "("@;
    if contains(s, call) && !contains(s, prefixed) {
        replace_all(s, call, prefixed)
    } else {
        s
    }
}

/// `prefix_calls` applied for each name in turn.
pub open spec fn prefix_all(s: Seq<char>, names: Seq<Seq<char>>) -> Seq<char>
    decreases names.len(),
{
    if names.len() == 0 {
        s
    } else {
        prefix_calls(prefix_all(s, names.drop_last()), names.last())
    }
}

pub open spec fn preprocess(s: Seq<char>) -> Seq<char> {
    prefix_all(expand_easing(s), math_function_names())
}

fn occurs_at_exec(s: &str, p: &str, i: usize, n: usize, m: usize) -> (r: bool)
    requires
        n == s@.len(),
        m == p@.len(),
        i + m <= n,
    ensures
        r == occurs_at(s@, p@, i as int),
{
    let mut j: usize = 0;
    while j < m
        invariant
            j <= m,
            n == s@.len(),
            m == p@.len(),
            i + m <= n,
            forall|k: int| 0 <= k < j ==> s@[i + k] == p@[k],
        decreases m - j,
    {
        if s.get_char(i + j) != p.get_char(j) {
            assert(s@.subrange(i as int, i + m)[j as int] != p@[j as int]);
            return false;
        }
        j = j + 1;
    }
    assert(s@.subrange(i as int, i + m) =~= p@);
    true
}

/// Whether `p` occurs in `s`.
pub fn contains_str(s: &str, p: &str) -> (r: bool)
    ensures
        r == contains(s@, p@),
{
    let n = s.unicode_len();
    let m = p.unicode_len();
    if m == 0 {
        assert(s@.subrange(0, 0) =~= p@);
        assert(occurs_at(s@, p@, 0));
        return true;
    }
    if m > n {
        assert forall|i: int| !occurs_at(s@, p@, i) by {}
        return false;
    }
    let mut i: usize = 0;
    while i <= n - m
        invariant
            0 < m <= n,
            n == s@.len(),
            m == p@.len(),
            i <= n - m + 1,
            forall|k: int| 0 <= k < i ==> !occurs_at(s@, p@, k),
        decreases n - m + 1 - i,
    {
        if occurs_at_exec(s, p, i, n, m) {
            return true;
        }
        i = i + 1;
    }
    assert forall|k: int| !occurs_at(s@, p@, k) by {
        if 0 <= k < i {
        }
    }
    false
}

/// `s` with every occurrence of `p`, found scanning left to right, replaced
/// by `r`.
pub fn replace_str(s: &str, p: &str, r: &str) -> (out: String)
    requires
        p@.len() > 0,
    ensures
        out@ == replace_all(s@, p@, r@),
{
    let n = s.unicode_len();
    let m = p.unicode_len();
    let mut out = String::new();
    let mut start: usize = 0;
    let mut i: usize = 0;
    while i < n
        invariant
            n == s@.len(),
            m == p@.len(),
            m > 0,
            start <= i <= n,
            out@ + s@.subrange(start as int, i as int) + replace_from(s@, p@, r@, i as int)
                == replace_all(s@, p@, r@),
        decreases n - i,
    {
        if m <= n - i && occurs_at_exec(s, p, i, n, m) {
            let piece = s.substring_char(start, i);
            out.append(piece);
            out.append(r);
            proof {
                assert(s@.subrange(start as int, i as int) + (r@ + replace_from(s@, p@, r@, i + m))
                    =~= s@.subrange(start as int, i as int) + r@ + replace_from(s@, p@, r@, i + m));
                assert(out@ + s@.subrange((i + m) as int, (i + m) as int) =~= out@);
            }
            i = i + m;
            start = i;
        } else {
            proof {
                assert(!occurs_at(s@, p@, i as int));
                assert(s@.subrange(start as int, i as int) + (seq![s@[i as int]] + replace_from(s@, p@, r@, i + 1))
                    =~= s@.subrange(start as int, i + 1) + replace_from(s@, p@, r@, i + 1));
                assert(out@ + s@.subrange(start as int, i as int) + replace_from(s@, p@, r@, i as int)
                    =~= out@ + s@.subrange(start as int, i + 1) + replace_from(s@, p@, r@, i + 1));
            }
            i = i + 1;
        }
    }
    let rest = s.substring_char(start, n);
    out.append(rest);
    proof {
        assert(out@ =~= out@ + replace_from(s@, p@, r@, n as int));
    }
    out
}

fn replace_if_mentioned_exec(s: String, guard: &str, p: &str, r: &str) -> (out: String)
    requires
        p@.len() > 0,
    ensures
        out@ == replace_if_mentioned(s@, guard@, p@, r@),
{
    if contains_str(s.as_str(), guard) {
        replace_str(s.as_str(), p, r)
    } else {
        s
    }
}

/// The expression with its easing shorthands expanded and its unqualified
/// math calls qualified, ready for the evaluator.
pub fn preprocess_expression(expr: &str) -> (r: String)
    ensures
        r@ == preprocess(expr@),
{
    proof {
        reveal_strlit("ease_in_out(t)");
        reveal_strlit("ease_in(t)");
        reveal_strlit("ease_out(t)");
        reveal_strlit("(");
    }
    let mut result = String::from_str(expr);
    result = replace_if_mentioned_exec(result, "ease_in_out", "ease_in_out(t)", "(3.0 * t * t - 2.0 * t * t * t)");
    result = replace_if_mentioned_exec(result, "ease_in", "ease_in(t)", "(t * t)");
    result = replace_if_mentioned_exec(result, "ease_out", "ease_out(t)", "(1.0 - (1.0 - t) * (1.0 - t))");
    let ghost expanded = result@;
    assert(expanded == expand_easing(expr@));
    let names: Vec<&str> = vec![
        "sin", "cos", "tan", "asin", "acos", "atan", "sinh",
        "cosh", "tanh", "sqrt", "abs", "floor", "ceil", "round",
    ];
    let ghost all = names@.map_values(|n: &str| n@);
    assert(all =~= math_function_names());
    let mut k: usize = 0;
    while k < names.len()
        invariant
            k <= names@.len(),
            all == names@.map_values(|n: &str| n@),
            result@ == prefix_all(expanded, all.take(k as int)),
        decreases names.len() - k,
    {
        let name = names[k];
        let call = String::from_str(name).concat("(");
        let prefixed = String::from_str("math::").concat(name).concat("(");
        assert(call@.len() > 0) by {
            reveal_strlit("(");
            assert(call@.len() == name@.len() + "("@.len());
        }
        if contains_str(result.as_str(), call.as_str()) && !contains_str(result.as_str(), prefixed.as_str()) {
            result = replace_str(result.as_str(), call.as_str(), prefixed.as_str());
        }
        proof {
            assert(all.take(k + 1).drop_last() =~= all.take(k as int));
            assert(all.take(k + 1).last() == name@);
        }
        k = k + 1;
    }
    assert(all.take(names@.len() as int) =~= all);
    result
}

} // verus!
