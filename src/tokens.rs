//! Splitting a line into whitespace-separated tokens.
use vstd::prelude::*;

verus! {

/// The characters with the Unicode `White_Space` property.
pub open spec fn is_white_space(c: char) -> bool {
    let u = c as u32;
    ||| 0x09 <= u <= 0x0d
    ||| u == 0x20
    ||| u == 0x85
    ||| u == 0xa0
    ||| u == 0x1680
    ||| 0x2000 <= u <= 0x200a
    ||| u == 0x2028
    ||| u == 0x2029
    ||| u == 0x202f
    ||| u == 0x205f
    ||| u == 0x3000
}

/// Relies on `char::is_whitespace`, which tests for the Unicode
/// `White_Space` property.
#[verifier::external_body]
fn char_is_white_space(c: char) -> (r: bool)
    ensures
        r == is_white_space(c),
{
    c.is_whitespace()
}

/// Length of the run of non-whitespace characters at the start of `s`.
pub open spec fn leading_run(s: Seq<char>) -> nat
    decreases s.len(),
{
    if s.len() == 0 || is_white_space(s[0]) {
        0
    } else {
        1 + leading_run(s.drop_first())
    }
}

/// The tokens of `s`: its maximal runs of non-whitespace characters, in order.
pub open spec fn words(s: Seq<char>) -> Seq<Seq<char>>
    decreases s.len(),
    via words_decreases
{
    if s.len() == 0 {
        seq![]
    } else if is_white_space(s[0]) {
        words(s.drop_first())
    } else {
        let n = leading_run(s);
        seq![s.subrange(0, n as int)] + words(s.subrange(n as int, s.len() as int))
    }
}

/// A leading run never exceeds the sequence.
pub proof fn lemma_leading_run_bound(s: Seq<char>)
    ensures
        leading_run(s) <= s.len(),
        s.len() > 0 && !is_white_space(s[0]) ==> leading_run(s) >= 1,
    decreases s.len(),
{
    if s.len() > 0 && !is_white_space(s[0]) {
        lemma_leading_run_bound(s.drop_first());
    }
}

/// A run of `k` non-whitespace characters that ends at whitespace or at the
/// end of `s` is the leading run.
proof fn lemma_leading_run_exact(s: Seq<char>, k: int)
    requires
        0 <= k <= s.len(),
        forall|m: int| 0 <= m < k ==> !is_white_space(#[trigger] s[m]),
        k == s.len() || is_white_space(s[k]),
    ensures
        leading_run(s) == k,
    decreases k,
{
    if k > 0 {
        let t = s.drop_first();
        assert forall|m: int| 0 <= m < k - 1 implies !is_white_space(#[trigger] t[m]) by {
            assert(t[m] == s[m + 1]);
        }
        lemma_leading_run_exact(t, k - 1);
    }
}

#[via_fn]
proof fn words_decreases(s: Seq<char>) {
    if s.len() > 0 && !is_white_space(s[0]) {
        lemma_leading_run_bound(s);
    }
}

/// The views of a sequence of string slices.
pub open spec fn views(toks: Seq<&str>) -> Seq<Seq<char>> {
    toks.map_values(|t: &str| t@)
}

/// Splits `line` into its tokens: the maximal runs of non-whitespace
/// characters, in order. Empty and whitespace-only lines give no token.
pub fn split_tokens(line: &str) -> (r: Vec<&str>)
    ensures
        views(r@) == words(line@),
{
    broadcast use vstd::string::group_string_axioms;

    let mut cs: Vec<char> = Vec::new();
    for c in it: line.chars()
        invariant
            cs@ == it.seq().take(it.index() as int),
    {
        cs.push(c);
    }
    assert(cs@ =~= line@);
    let n = cs.len();
    let mut toks: Vec<&str> = Vec::new();
    let mut i: usize = 0;
    assert(line@.subrange(0, n as int) =~= line@);
    while i < n
        invariant
            n == cs.len() == line@.len(),
            cs@ == line@,
            i <= n,
            views(toks@) + words(line@.subrange(i as int, n as int)) == words(line@),
        decreases n - i,
    {
        let ghost rest = line@.subrange(i as int, n as int);
        if char_is_white_space(cs[i]) {
            assert(rest.drop_first() =~= line@.subrange(i + 1, n as int));
            i = i + 1;
        } else {
            let mut j: usize = i + 1;
            while j < n && !char_is_white_space(cs[j])
                invariant
                    n == cs.len() == line@.len(),
                    cs@ == line@,
                    i < j <= n,
                    forall|m: int| i <= m < j ==> !is_white_space(#[trigger] cs@[m]),
                decreases n - j,
            {
                j = j + 1;
            }
            proof {
                assert forall|m: int| 0 <= m < j - i implies !is_white_space(#[trigger] rest[m]) by {
                    assert(rest[m] == cs@[i + m]);
                }
                if j < n {
                    assert(rest[j - i] == cs@[j as int]);
                }
                lemma_leading_run_exact(rest, j - i);
                assert(rest.subrange(0, j - i) =~= line@.subrange(i as int, j as int));
                assert(rest.subrange(j - i, rest.len() as int) =~= line@.subrange(j as int, n as int));
            }
            let tok = line.substring_char(i, j);
            proof {
                assert(views(toks@.push(tok)) =~= views(toks@).push(tok@));
                assert(views(toks@).push(tok@) + words(line@.subrange(j as int, n as int))
                    =~= views(toks@) + words(rest));
            }
            toks.push(tok);
            i = j;
        }
    }
    assert(line@.subrange(n as int, n as int) =~= Seq::<char>::empty());
    assert(views(toks@) + words(Seq::<char>::empty()) =~= views(toks@));
    toks
}

} // verus!
