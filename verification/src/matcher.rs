//! Matching a URL path (or path plus query) against a template whose
//! colon-prefixed named placeholders capture parts of the input.
//!
//! Matching is anchored at both ends and purely structural: the separators
//! `/`, `?` and `&` bound the segments. A literal character of the template
//! must stand in the input unchanged; a placeholder consumes the longest
//! nonempty run of segment characters (anything but a separator) and yields
//! it as a field value, in template order.
use vstd::prelude::*;

use crate::Error;

verus! {

/// A character that stays inside one path or query segment: anything but
/// the separators `/`, `?` and `&`.
pub open spec fn is_capture_char(c: char) -> bool {
    c != '/' && c != '?' && c != '&'
}

/// The length of the maximal run of segment characters at `from`.
pub open spec fn run_len(s: Seq<char>, from: int) -> int
    decreases s.len() - from,
{
    if from < 0 || from >= s.len() || !is_capture_char(s[from]) {
        0
    } else {
        1 + run_len(s, from + 1)
    }
}

/// The run starting at `from` stays inside the string, consists of segment
/// characters, and is maximal.
pub proof fn lemma_run_len(s: Seq<char>, from: int)
    requires
        0 <= from <= s.len(),
    ensures
        0 <= run_len(s, from),
        from + run_len(s, from) <= s.len(),
        forall|j: int| from <= j < from + run_len(s, from) ==> is_capture_char(s[j]),
        from + run_len(s, from) < s.len() ==> !is_capture_char(s[from + run_len(s, from)]),
    decreases s.len() - from,
{
    if from < s.len() && is_capture_char(s[from]) {
        lemma_run_len(s, from + 1);
    }
}

/// A maximal run of segment characters has exactly the length of the run:
/// the converse direction, used to tie a scanning loop to `run_len`.
pub proof fn lemma_run_len_exact(s: Seq<char>, from: int, to: int)
    requires
        0 <= from <= to <= s.len(),
        forall|j: int| from <= j < to ==> is_capture_char(s[j]),
        to < s.len() ==> !is_capture_char(s[to]),
    ensures
        run_len(s, from) == to - from,
    decreases to - from,
{
    if from < to {
        lemma_run_len_exact(s, from + 1, to);
    }
}

/// Whether a placeholder (a colon followed by at least one segment
/// character, which names it) stands at position `p` of the template.
pub open spec fn is_placeholder_at(pat: Seq<char>, p: int) -> bool {
    0 <= p && p < pat.len() && pat[p] == ':' && p + 1 < pat.len() && is_capture_char(pat[p + 1])
}

/// The captured fields, in template order, when template positions from `p`
/// on match input positions from `i` on; `None` when they do not match.
pub open spec fn match_at(pat: Seq<char>, p: int, inp: Seq<char>, i: int) -> Option<Seq<Seq<char>>>
    decreases pat.len() - p,
{
    if p < 0 || i < 0 || p > pat.len() || i > inp.len() {
        None
    } else if p == pat.len() {
        if i == inp.len() {
            Some(Seq::empty())
        } else {
            None
        }
    } else if is_placeholder_at(pat, p) {
        let name_len = run_len(pat, p + 1);
        let cap_len = run_len(inp, i);
        proof {
            lemma_run_len(pat, p + 1);
        }
        if cap_len == 0 {
            None
        } else {
            match match_at(pat, p + 1 + name_len, inp, i + cap_len) {
                Option::None => None,
                Option::Some(rest) => Some(seq![inp.subrange(i, i + cap_len)] + rest),
            }
        }
    } else {
        if i < inp.len() && inp[i] == pat[p] {
            match_at(pat, p + 1, inp, i + 1)
        } else {
            None
        }
    }
}

/// The matcher's whole contract: the fields of matching `inp` against `pat`.
pub open spec fn match_spec(pat: Seq<char>, inp: Seq<char>) -> Option<Seq<Seq<char>>> {
    match_at(pat, 0, inp, 0)
}

/// How many placeholders the template holds from position `p` on.
pub open spec fn placeholder_count(pat: Seq<char>, p: int) -> int
    decreases pat.len() - p,
{
    if p < 0 || p >= pat.len() {
        0
    } else if is_placeholder_at(pat, p) {
        proof {
            lemma_run_len(pat, p + 1);
        }
        1 + placeholder_count(pat, p + 1 + run_len(pat, p + 1))
    } else {
        placeholder_count(pat, p + 1)
    }
}

/// A successful match yields exactly one field per placeholder.
pub proof fn lemma_match_count(pat: Seq<char>, p: int, inp: Seq<char>, i: int)
    ensures
        match_at(pat, p, inp, i) matches Some(c) ==> c.len() == placeholder_count(pat, p),
    decreases pat.len() - p,
{
    if p < 0 || i < 0 || p > pat.len() || i > inp.len() {
    } else if p == pat.len() {
    } else if is_placeholder_at(pat, p) {
        lemma_run_len(pat, p + 1);
        if run_len(inp, i) != 0 {
            lemma_match_count(pat, p + 1 + run_len(pat, p + 1), inp, i + run_len(inp, i));
        }
    } else {
        lemma_match_count(pat, p + 1, inp, i + 1);
    }
}

/// From one matched template position on, the rest of the input is wholly
/// determined by the rest of the template and the captured fields: two
/// inputs that match alike agree from there on.
pub proof fn lemma_match_at_injective(
    pat: Seq<char>,
    p: int,
    inp1: Seq<char>,
    i1: int,
    inp2: Seq<char>,
    i2: int,
)
    requires
        match_at(pat, p, inp1, i1) is Some,
        match_at(pat, p, inp1, i1) == match_at(pat, p, inp2, i2),
    ensures
        inp1.subrange(i1, inp1.len() as int) == inp2.subrange(i2, inp2.len() as int),
    decreases pat.len() - p,
{
    if p == pat.len() {
        assert(inp1.subrange(i1, inp1.len() as int) =~= inp2.subrange(i2, inp2.len() as int));
    } else if is_placeholder_at(pat, p) {
        lemma_run_len(pat, p + 1);
        let nl = run_len(pat, p + 1);
        let c1 = run_len(inp1, i1);
        let c2 = run_len(inp2, i2);
        lemma_run_len(inp1, i1);
        lemma_run_len(inp2, i2);
        let s1 = inp1.subrange(i1, i1 + c1);
        let s2 = inp2.subrange(i2, i2 + c2);
        match (match_at(pat, p + 1 + nl, inp1, i1 + c1), match_at(pat, p + 1 + nl, inp2, i2 + c2)) {
            (Option::Some(r1), Option::Some(r2)) => {
                assert((seq![s1] + r1)[0] == s1);
                assert((seq![s2] + r2)[0] == s2);
                assert(seq![s1] + r1 == seq![s2] + r2);
                assert(s1 == s2);
                assert(c1 == c2);
                assert(r1 =~= (seq![s1] + r1).subrange(1, (seq![s1] + r1).len() as int));
                assert(r2 =~= (seq![s2] + r2).subrange(1, (seq![s2] + r2).len() as int));
                assert(r1 == r2);
                lemma_match_at_injective(pat, p + 1 + nl, inp1, i1 + c1, inp2, i2 + c2);
                assert(inp1.subrange(i1, inp1.len() as int) =~= s1 + inp1.subrange(
                    i1 + c1,
                    inp1.len() as int,
                ));
                assert(inp2.subrange(i2, inp2.len() as int) =~= s2 + inp2.subrange(
                    i2 + c2,
                    inp2.len() as int,
                ));
            },
            _ => {
                assert(false);
            },
        }
    } else {
        lemma_match_at_injective(pat, p + 1, inp1, i1 + 1, inp2, i2 + 1);
        assert(inp1[i1] == pat[p] && inp2[i2] == pat[p]);
        assert(inp1.subrange(i1, inp1.len() as int) =~= seq![inp1[i1]] + inp1.subrange(
            i1 + 1,
            inp1.len() as int,
        ));
        assert(inp2.subrange(i2, inp2.len() as int) =~= seq![inp2[i2]] + inp2.subrange(
            i2 + 1,
            inp2.len() as int,
        ));
    }
}

/// Matching is injective: two inputs that match one template with the same
/// captured fields are the same input.
pub proof fn lemma_match_injective(pat: Seq<char>, inp1: Seq<char>, inp2: Seq<char>)
    requires
        match_spec(pat, inp1) is Some,
        match_spec(pat, inp1) == match_spec(pat, inp2),
    ensures
        inp1 == inp2,
{
    lemma_match_at_injective(pat, 0, inp1, 0, inp2, 0);
    assert(inp1 =~= inp1.subrange(0, inp1.len() as int));
    assert(inp2 =~= inp2.subrange(0, inp2.len() as int));
}

/// The three templates the backends use hold four, four, and one
/// placeholder.
pub proof fn lemma_pattern_field_counts()
    ensures
        placeholder_count("/:owner/:repo/:kind/:number"@, 0) == 4,
        placeholder_count("/:owner/:repo/-/:kind/:number"@, 0) == 4,
        placeholder_count("/show_bug.cgi?id=:number"@, 0) == 1,
{
    reveal_strlit("/:owner/:repo/:kind/:number");
    reveal_strlit("/:owner/:repo/-/:kind/:number");
    reveal_strlit("/show_bug.cgi?id=:number");
    reveal_with_fuel(placeholder_count, 32);
    reveal_with_fuel(run_len, 32);
}

/// Executable test for a segment character.
pub fn is_capture_char_exec(c: char) -> (b: bool)
    ensures
        b == is_capture_char(c),
{
    c != '/' && c != '?' && c != '&'
}

/// Matches `input` against `pattern` and returns the captured fields in
/// template order, or `FailedMatch` when the shapes do not align.
pub fn match_pattern(pattern: &str, input: &str) -> (r: Result<Vec<String>, Error>)
    ensures
        match_spec(pattern@, input@) matches Some(caps) ==> (r matches Ok(v) && v.deep_view()
            == caps),
        match_spec(pattern@, input@) is None ==> r == Err::<Vec<String>, Error>(Error::FailedMatch),
{
    let plen = pattern.unicode_len();
    let ilen = input.unicode_len();
    let mut p: usize = 0;
    let mut i: usize = 0;
    let mut caps: Vec<String> = Vec::new();
    while p < plen
        invariant
            plen == pattern@.len(),
            ilen == input@.len(),
            p <= plen,
            i <= ilen,
            match_at(pattern@, p as int, input@, i as int) matches Some(rest) ==> match_spec(
                pattern@,
                input@,
            ) == Some(caps.deep_view() + rest),
            match_at(pattern@, p as int, input@, i as int) is None ==> match_spec(
                pattern@,
                input@,
            ) is None,
        decreases plen - p,
    {
        let c = pattern.get_char(p);
        let placeholder = c == ':' && p + 1 < plen && is_capture_char_exec(pattern.get_char(p + 1));
        if placeholder {
            let mut q: usize = p + 1;
            while q < plen && is_capture_char_exec(pattern.get_char(q))
                invariant
                    plen == pattern@.len(),
                    p + 1 <= q <= plen,
                    forall|j: int| p + 1 <= j < q ==> is_capture_char(pattern@[j]),
                decreases plen - q,
            {
                q += 1;
            }
            proof {
                lemma_run_len_exact(pattern@, p + 1 as int, q as int);
            }
            let mut j: usize = i;
            while j < ilen && is_capture_char_exec(input.get_char(j))
                invariant
                    ilen == input@.len(),
                    i <= j <= ilen,
                    forall|k: int| i <= k < j ==> is_capture_char(input@[k]),
                decreases ilen - j,
            {
                j += 1;
            }
            proof {
                lemma_run_len_exact(input@, i as int, j as int);
            }
            if j == i {
                return Err(Error::FailedMatch);
            }
            let field = input.substring_char(i, j).to_owned();
            let ghost old_caps = caps.deep_view();
            caps.push(field);
            proof {
                assert(caps.deep_view() =~= old_caps.push(input@.subrange(i as int, j as int)));
                match match_at(pattern@, q as int, input@, j as int) {
                    Option::Some(rest) => {
                        assert(old_caps + (seq![input@.subrange(i as int, j as int)] + rest)
                            =~= caps.deep_view() + rest);
                    },
                    Option::None => {},
                }
            }
            p = q;
            i = j;
        } else {
            if i < ilen && input.get_char(i) == c {
                p += 1;
                i += 1;
            } else {
                return Err(Error::FailedMatch);
            }
        }
    }
    if i == ilen {
        proof {
            assert(caps.deep_view() + Seq::<Seq<char>>::empty() =~= caps.deep_view());
        }
        Ok(caps)
    } else {
        Err(Error::FailedMatch)
    }
}

} // verus!
