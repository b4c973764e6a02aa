//! The top-level driver: splits a card's ability text into statements at
//! sentence ends (`.`) and ability separators (`[[br]]`), parses each one on
//! its own, and keeps their source order.
use vstd::prelude::*;

use crate::lexical::{find, find_lit, lemma_find_bounds, lemma_lit_bounds, lit, lit_after, lit_in};
use crate::model::{OutcomeModel, ParseOutcome, Span};
use crate::statement::{parse_statement, statement};

verus! {

pub open spec fn is_space(c: char) -> bool {
    c == ' ' || c == '\n' || c == '\t' || c == '\r'
}

pub open spec fn skip_spaces(s: Seq<char>, pos: int) -> int
    decreases s.len() - pos,
{
    if 0 <= pos < s.len() && is_space(s[pos]) {
        skip_spaces(s, pos + 1)
    } else {
        pos
    }
}

pub open spec fn trim_end(s: Seq<char>, a: int, k: int) -> int
    decreases k - a,
{
    if a < k && is_space(s[k - 1]) {
        trim_end(s, a, k - 1)
    } else {
        k
    }
}

pub open spec fn is_boundary(s: Seq<char>, i: int) -> bool {
    s[i] == '.' || lit_in(s, i, s.len() as int, "[[br]]"@)
}

/// The first statement boundary at or after `pos`, or the end of the text.
/// A bracketed card-name reference is skipped whole, so a `.` inside it
/// splits nothing.
pub open spec fn boundary(s: Seq<char>, pos: int) -> int
    decreases s.len() - pos,
    via boundary_decreases
{
    if pos < 0 || pos >= s.len() {
        s.len() as int
    } else if is_boundary(s, pos) {
        pos
    } else if lit_in(s, pos, s.len() as int, "[card name ("@) {
        boundary(s, find(s, pos + 1, s.len() as int, ")]"@))
    } else {
        boundary(s, pos + 1)
    }
}

#[via_fn]
proof fn boundary_decreases(s: Seq<char>, pos: int) {
    if 0 <= pos < s.len() {
        lemma_find_bounds(s, pos + 1, s.len() as int, ")]"@);
    }
}

/// Where the text resumes after the boundary at `k`.
pub open spec fn after_boundary(s: Seq<char>, k: int) -> int {
    if k >= s.len() {
        s.len() as int
    } else if s[k] == '.' {
        k + 1
    } else {
        lit_after(s, k, s.len() as int, "[[br]]"@)
    }
}

/// The statement candidates from `pos` on, as `[start, end)` ranges with
/// surrounding white space trimmed; blank candidates are skipped.
pub open spec fn candidates(s: Seq<char>, pos: int) -> Seq<(int, int)>
    decreases s.len() - pos,
    via candidates_decreases
{
    if pos < 0 || pos >= s.len() {
        seq![]
    } else {
        let a = skip_spaces(s, pos);
        let k = boundary(s, a);
        let b = trim_end(s, a, k);
        let rest = candidates(s, after_boundary(s, k));
        if a < b {
            seq![(a, b)] + rest
        } else {
            rest
        }
    }
}

proof fn lemma_skip_spaces(s: Seq<char>, pos: int)
    requires
        0 <= pos <= s.len(),
    ensures
        pos <= skip_spaces(s, pos) <= s.len(),
    decreases s.len() - pos,
{
    if pos < s.len() && is_space(s[pos]) {
        lemma_skip_spaces(s, pos + 1);
    }
}

proof fn lemma_boundary(s: Seq<char>, pos: int)
    requires
        0 <= pos <= s.len(),
    ensures
        pos <= boundary(s, pos) <= s.len(),
        boundary(s, pos) < s.len() ==> is_boundary(s, boundary(s, pos)),
    decreases s.len() - pos,
{
    if pos < s.len() && !is_boundary(s, pos) {
        if lit_in(s, pos, s.len() as int, "[card name ("@) {
            lemma_find_bounds(s, pos + 1, s.len() as int, ")]"@);
            lemma_boundary(s, find(s, pos + 1, s.len() as int, ")]"@));
        } else {
            lemma_boundary(s, pos + 1);
        }
    }
}

proof fn lemma_trim_end(s: Seq<char>, a: int, k: int)
    requires
        a <= k,
    ensures
        a <= trim_end(s, a, k) <= k,
    decreases k - a,
{
    if a < k && is_space(s[k - 1]) {
        lemma_trim_end(s, a, k - 1);
    }
}

proof fn lemma_after_boundary(s: Seq<char>, k: int)
    requires
        0 <= k <= s.len(),
        k < s.len() ==> is_boundary(s, k),
    ensures
        k < after_boundary(s, k) <= s.len() || (k == s.len() && after_boundary(s, k) == k),
{
    reveal_strlit("[[br]]");
    lemma_lit_bounds(s, k, s.len() as int, "[[br]]"@);
}

#[via_fn]
proof fn candidates_decreases(s: Seq<char>, pos: int) {
    if 0 <= pos < s.len() {
        lemma_skip_spaces(s, pos);
        let a = skip_spaces(s, pos);
        lemma_boundary(s, a);
        lemma_after_boundary(s, boundary(s, a));
    }
}

/// The outcome for the candidate `[a, b)`.
pub open spec fn outcome_model(s: Seq<char>, c: (int, int)) -> OutcomeModel {
    match statement(s, c.0, c.1) {
        Ok(m) => OutcomeModel::Parsed(m),
        Err(d) => OutcomeModel::Unrecognized { raw_text: s.subrange(c.0, c.1), reason: d },
    }
}

/// The outcomes for a whole ability text, in source order.
pub open spec fn card_model(s: Seq<char>) -> Seq<OutcomeModel> {
    candidates(s, 0).map_values(|c: (int, int)| outcome_model(s, c))
}

/// Statement candidates lie inside the text, are non-empty, and come in
/// source order without overlapping.
pub proof fn lemma_candidates_in_order(s: Seq<char>, pos: int)
    requires
        0 <= pos,
    ensures
        forall|i: int| 0 <= i < candidates(s, pos).len() ==> pos <= #[trigger] candidates(s, pos)[i].0
            < candidates(s, pos)[i].1 <= s.len(),
        forall|i: int, j: int| 0 <= i < j < candidates(s, pos).len() ==> #[trigger] candidates(s, pos)[i].1
            <= #[trigger] candidates(s, pos)[j].0,
    decreases s.len() - pos,
{
    if pos < s.len() {
        lemma_skip_spaces(s, pos);
        let a = skip_spaces(s, pos);
        lemma_boundary(s, a);
        let k = boundary(s, a);
        lemma_trim_end(s, a, k);
        lemma_after_boundary(s, k);
        let next = after_boundary(s, k);
        lemma_candidates_in_order(s, next);
        let rest = candidates(s, next);
        let b = trim_end(s, a, k);
        if a < b {
            let all = candidates(s, pos);
            assert(all == seq![(a, b)] + rest);
            assert forall|i: int| 0 <= i < all.len() implies pos <= #[trigger] all[i].0 < all[i].1
                <= s.len() by {
                if i > 0 {
                    assert(all[i] == rest[i - 1]);
                }
            }
            assert forall|i: int, j: int| 0 <= i < j < all.len() implies #[trigger] all[i].1
                <= #[trigger] all[j].0 by {
                assert(all[j] == rest[j - 1]);
                if i > 0 {
                    assert(all[i] == rest[i - 1]);
                }
            }
        }
    }
}

/// Every candidate yields exactly one outcome, in the candidates' order, and
/// each outcome is that of its own statement parsed alone.
pub proof fn lemma_one_outcome_per_statement(s: Seq<char>)
    ensures
        card_model(s).len() == candidates(s, 0).len(),
        forall|i: int| 0 <= i < card_model(s).len() ==> #[trigger] card_model(s)[i] == outcome_model(s, candidates(s, 0)[i]),
{
}

/// Parsing the same text twice gives equal outcomes.
pub proof fn lemma_parse_deterministic(s: Seq<char>, t: Seq<char>)
    requires
        s == t,
    ensures
        card_model(s) == card_model(t),
{
}

/// A card whose statements all parse but one yields one outcome per
/// statement: that one is `Unrecognized` and every other one is `Parsed`.
pub proof fn lemma_failure_contained(s: Seq<char>, bad: int)
    requires
        0 <= bad < candidates(s, 0).len(),
        statement(s, candidates(s, 0)[bad].0, candidates(s, 0)[bad].1) is Err,
        forall|i: int| 0 <= i < candidates(s, 0).len() && i != bad ==> (#[trigger] statement(s, candidates(s, 0)[i].0, candidates(s, 0)[i].1)) is Ok,
    ensures
        card_model(s).len() == candidates(s, 0).len(),
        card_model(s)[bad] is Unrecognized,
        forall|i: int| 0 <= i < card_model(s).len() && i != bad ==> #[trigger] card_model(s)[i] is Parsed,
{
    assert forall|i: int| 0 <= i < card_model(s).len() && i != bad implies #[trigger] card_model(s)[i] is Parsed by {
        assert(statement(s, candidates(s, 0)[i].0, candidates(s, 0)[i].1) is Ok);
    }
}

/// Empty ability text yields no outcomes.
pub proof fn lemma_empty_text(s: Seq<char>)
    requires
        s.len() == 0,
    ensures
        card_model(s) == Seq::<OutcomeModel>::empty(),
{
    assert(card_model(s) =~= Seq::<OutcomeModel>::empty());
}

fn chars_of(text: &str) -> (r: Vec<char>)
    ensures
        r@ == text@,
{
    let n = text.unicode_len();
    let mut r: Vec<char> = Vec::new();
    let mut i: usize = 0;
    while i < n
        invariant
            n == text@.len(),
            i <= n,
            r@ == text@.subrange(0, i as int),
        decreases n - i,
    {
        r.push(text.get_char(i));
        i += 1;
        assert(r@ =~= text@.subrange(0, i as int));
    }
    assert(r@ =~= text@);
    r
}

fn skip_spaces_at(s: &Vec<char>, pos: usize) -> (r: usize)
    requires
        pos <= s@.len(),
    ensures
        r as int == skip_spaces(s@, pos as int),
        pos <= r <= s@.len(),
{
    proof {
        lemma_skip_spaces(s@, pos as int);
    }
    let mut i = pos;
    while i < s.len() && (s[i] == ' ' || s[i] == '\n' || s[i] == '\t' || s[i] == '\r')
        invariant
            pos <= i <= s@.len(),
            skip_spaces(s@, i as int) == skip_spaces(s@, pos as int),
        decreases s@.len() - i,
    {
        i += 1;
    }
    i
}

fn boundary_at(s: &Vec<char>, pos: usize) -> (r: usize)
    requires
        pos <= s@.len(),
    ensures
        r as int == boundary(s@, pos as int),
        pos <= r <= s@.len(),
        r < s@.len() ==> is_boundary(s@, r as int),
{
    proof {
        lemma_boundary(s@, pos as int);
    }
    let mut i = pos;
    while i < s.len()
        invariant
            pos <= i <= s@.len(),
            boundary(s@, i as int) == boundary(s@, pos as int),
        decreases s@.len() - i,
    {
        if s[i] == '.' || lit(s, i, s.len(), "[[br]]").is_some() {
            return i;
        }
        if lit(s, i, s.len(), "[card name (").is_some() {
            i = find_lit(s, i + 1, s.len(), ")]");
        } else {
            i += 1;
        }
    }
    i
}

fn trim_end_at(s: &Vec<char>, a: usize, k: usize) -> (r: usize)
    requires
        a <= k <= s@.len(),
    ensures
        r as int == trim_end(s@, a as int, k as int),
        a <= r <= k,
{
    proof {
        lemma_trim_end(s@, a as int, k as int);
    }
    let mut j = k;
    while a < j && (s[j - 1] == ' ' || s[j - 1] == '\n' || s[j - 1] == '\t' || s[j - 1] == '\r')
        invariant
            a <= j <= k <= s@.len(),
            trim_end(s@, a as int, j as int) == trim_end(s@, a as int, k as int),
        decreases j - a,
    {
        j -= 1;
    }
    j
}

/// The next candidate from `pos`: its range and where the text resumes.
fn next_candidate(s: &Vec<char>, pos: usize) -> (r: (usize, usize, usize))
    requires
        pos < s@.len(),
    ensures
        pos < r.2 <= s@.len(),
        r.0 <= r.1,
        r.0 < r.1 ==> candidates(s@, pos as int) == seq![(r.0 as int, r.1 as int)] + candidates(s@, r.2 as int),
        r.0 >= r.1 ==> candidates(s@, pos as int) == candidates(s@, r.2 as int),
        r.1 <= s@.len(),
{
    let n = s.len();
    let a = skip_spaces_at(s, pos);
    let k = boundary_at(s, a);
    let b = trim_end_at(s, a, k);
    proof {
        lemma_after_boundary(s@, k as int);
        reveal_strlit("[[br]]");
    }
    let next = if k >= n {
        n
    } else if s[k] == '.' {
        k + 1
    } else {
        match lit(s, k, n, "[[br]]") {
            Some(e) => e,
            None => n,
        }
    };
    (a, b, next)
}

fn outcome_of(text: &str, s: &Vec<char>, a: usize, b: usize) -> (o: ParseOutcome)
    requires
        s@ == text@,
        a <= b <= s@.len(),
    ensures
        o@ == outcome_model(s@, (a as int, b as int)),
{
    match parse_statement(s, a, b) {
        Ok(st) => ParseOutcome::Parsed(st),
        Err(d) => ParseOutcome::Unrecognized { raw_text: text.substring_char(a, b).to_owned(), reason: d },
    }
}

/// The characters of `text` that `span` covers; `None` when the span does not
/// lie inside the text.
pub fn span_text(text: &str, span: Span) -> (r: Option<String>)
    ensures
        match r {
            Some(t) => span.start <= span.end <= text@.len() && t@ == text@.subrange(span.start as int, span.end as int),
            None => !(span.start <= span.end <= text@.len()),
        },
{
    let n = text.unicode_len();
    if span.start <= span.end && span.end <= n {
        Some(text.substring_char(span.start, span.end).to_owned())
    } else {
        None
    }
}

/// Parses a card's whole ability text into one outcome per statement, in
/// source order. A statement that fails becomes `Unrecognized` with its exact
/// text and a reason; it never stops the others.
pub fn parse_card_text(text: &str) -> (out: Vec<ParseOutcome>)
    ensures
        out@.len() == card_model(text@).len(),
        forall|i: int| 0 <= i < out@.len() ==> #[trigger] out@[i]@ == card_model(text@)[i],
        text@.len() == 0 ==> out@.len() == 0,
{
    let s = chars_of(text);
    let n = s.len();
    let mut out: Vec<ParseOutcome> = Vec::new();
    let ghost mut done: Seq<(int, int)> = seq![];
    let mut pos: usize = 0;
    while pos < n
        invariant
            n == s@.len(),
            s@ == text@,
            pos <= n,
            candidates(s@, 0) == done + candidates(s@, pos as int),
            out@.len() == done.len(),
            forall|i: int| 0 <= i < out@.len() ==> #[trigger] out@[i]@ == outcome_model(s@, done[i]),
        decreases n - pos,
    {
        let (a, b, next) = next_candidate(&s, pos);
        if a < b {
            let o = outcome_of(text, &s, a, b);
            let ghost prev = done;
            out.push(o);
            proof {
                done = done.push((a as int, b as int));
                assert(prev + (seq![(a as int, b as int)] + candidates(s@, next as int)) =~= done + candidates(s@, next as int));
                assert forall|i: int| 0 <= i < out@.len() implies #[trigger] out@[i]@ == outcome_model(s@, done[i]) by {
                    if i < prev.len() {
                        assert(done[i] == prev[i]);
                    }
                }
            }
        }
        pos = next;
    }
    proof {
        assert(done + candidates(s@, pos as int) =~= done);
    }
    out
}

} // verus!
