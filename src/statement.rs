//! The effect-statement parser: decides a statement's kind by its leading
//! keyword and assembles trigger, condition, cost and consequence.
use vstd::prelude::*;

use crate::actions::{action, diag, other, parse_action};
use crate::lexical::{
    blank_end, find, find_lit, is_blank, lemma_blank_end_bounds, lemma_find_bounds, lemma_lit_bounds, lemma_word_end_bounds, lit,
    lit_after, lit_in, scan_word, skip_blanks, word_end,
};
use crate::model::{
    Action, Category, Condition, Diagnostic, ErrorKind, Occurrence, Predicate, Span, Statement, StatementModel, Step,
    Target,
};
use crate::phrases::{
    card_name_ref, condition, parse_card_name_ref, parse_condition, parse_predicate, parse_target, predicate, target,
};

verus! {

/// Prepends the steps already read to the result of the rest.
pub open spec fn prepend(done: Seq<Step>, rest: Result<Seq<Step>, Diagnostic>) -> Result<Seq<Step>, Diagnostic> {
    match rest {
        Ok(r) => Ok(done + r),
        Err(d) => Err(d),
    }
}

/// An action clause, where a count out of range degrades the clause to
/// `Other` instead of failing the statement.
pub open spec fn plain_clause(s: Seq<char>, start: int, end: int) -> Result<Action, Diagnostic> {
    match action(s, start, end) {
        Err(d) => if d.kind == ErrorKind::CountOutOfRange {
            Ok(other(start, end))
        } else {
            Err(d)
        },
        Ok(a) => Ok(a),
    }
}

/// One sub-clause of a consequence. `you may <action>` is that action marked
/// optional; when what follows `you may ` is no known action, the whole
/// sub-clause is `Other`. Any other sub-clause is a plain action.
pub open spec fn sub_clause(s: Seq<char>, start: int, end: int) -> Result<Step, Diagnostic> {
    if lit_in(s, start, end, "you may "@) {
        match plain_clause(s, lit_after(s, start, end, "you may "@), end) {
            Ok(Action::Other { .. }) => Ok(Step { action: other(start, end), optional: false }),
            Ok(a) => Ok(Step { action: a, optional: true }),
            Err(d) => Err(d),
        }
    } else {
        match plain_clause(s, start, end) {
            Ok(a) => Ok(Step { action: a, optional: false }),
            Err(d) => Err(d),
        }
    }
}

/// The ordered steps of `[pos, end)`, sub-clauses joined by `, then `.
/// The first sub-clause that breaks a template fails the whole sequence; one
/// whose count is out of range becomes `Other`.
pub open spec fn consequence(s: Seq<char>, pos: int, end: int) -> Result<Seq<Step>, Diagnostic>
    decreases end - pos,
    via consequence_decreases
{
    if pos > end {
        Err(diag(Category::Consequence, ErrorKind::SyntaxMismatch, pos))
    } else {
        let k = find(s, pos, end, ", then "@);
        match sub_clause(s, pos, k) {
            Err(d) => Err(d),
            Ok(a) => if k >= end {
                Ok(seq![a])
            } else {
                prepend(seq![a], consequence(s, lit_after(s, k, end, ", then "@), end))
            },
        }
    }
}

#[via_fn]
proof fn consequence_decreases(s: Seq<char>, pos: int, end: int) {
    reveal_strlit(", then ");
    if pos <= end {
        lemma_find_bounds(s, pos, end, ", then "@);
        lemma_lit_bounds(s, find(s, pos, end, ", then "@), end, ", then "@);
    }
}

/// The trigger's subject: words from `start`, the current one ending at `i`,
/// up to the first run of blanks that a predicate follows.
/// Gives the subject's end, the predicate's end and the predicate.
pub open spec fn subject(s: Seq<char>, start: int, i: int, end: int) -> Option<(int, int, Predicate)>
    decreases end - i,
    via subject_decreases
{
    if start <= i < end && is_blank(s[i]) {
        let q = blank_end(s, i, end);
        match predicate(s, q, end) {
            Some((pe, p)) => Some((i, pe, p)),
            None => {
                let we = word_end(s, q, end);
                if we > q {
                    subject(s, start, we, end)
                } else {
                    None
                }
            },
        }
    } else {
        None
    }
}

#[via_fn]
proof fn subject_decreases(s: Seq<char>, start: int, i: int, end: int) {
    lemma_blank_end_bounds(s, i, end);
    lemma_word_end_bounds(s, blank_end(s, i, end), end);
}

/// A subject written as words: the role references `it` and `them`, or a name.
pub open spec fn occurrence_of(s: Seq<char>, p: int, ne: int) -> Occurrence {
    if lit_in(s, p, ne, "it"@) && lit_after(s, p, ne, "it"@) == ne {
        Occurrence::It
    } else if lit_in(s, p, ne, "them"@) && lit_after(s, p, ne, "them"@) == ne {
        Occurrence::Them
    } else {
        Occurrence::Name { name: Span { start: p as usize, end: ne as usize } }
    }
}

/// An optional condition clause followed by `, `; gives it and where the
/// consequence starts.
pub open spec fn leading_condition(s: Seq<char>, pos: int, end: int) -> (Option<Condition>, int) {
    match condition(s, pos, end) {
        Some((ce, cd)) => if lit_in(s, ce, end, ", "@) {
            (Some(cd), lit_after(s, ce, end, ", "@))
        } else {
            (None, pos)
        },
        None => (None, pos),
    }
}

/// What follows the trigger: `, [<condition>, ]<consequence>`; `pe` ends the predicate.
pub open spec fn after_trigger(s: Seq<char>, subject: Occurrence, pred: Predicate, pe: int, end: int) -> Result<StatementModel, Diagnostic> {
    if lit_in(s, pe, end, ", "@) {
        let (cond, cpos) = leading_condition(s, lit_after(s, pe, end, ", "@), end);
        match consequence(s, cpos, end) {
            Ok(acts) => Ok(StatementModel::Triggered { subject, predicate: pred, condition: cond, consequence: acts }),
            Err(d) => Err(d),
        }
    } else {
        Err(diag(Category::Trigger, ErrorKind::SyntaxMismatch, pe))
    }
}

/// A group phrase as the subject, followed by blanks and a predicate.
pub open spec fn group_subject(s: Seq<char>, p: int, end: int) -> Option<(Occurrence, int, Predicate)> {
    match target(s, p, end) {
        Some((ge, Target::Group { cardinality, filter, controller })) => if ge < end && is_blank(s[ge]) {
            match predicate(s, blank_end(s, ge, end), end) {
                Some((pe, pred)) => Some((Occurrence::Group { cardinality, filter, controller }, pe, pred)),
                None => None,
            }
        } else {
            None
        },
        _ => None,
    }
}

/// `when <subject> <predicate>, [<condition>, ]<consequence>`; `p` follows the
/// keyword. The subject is a bracketed card name, a group phrase, or words.
pub open spec fn triggered(s: Seq<char>, p: int, end: int) -> Result<StatementModel, Diagnostic> {
    match card_name_ref(s, p, end) {
        Some((ce, Target::Named { name })) => if ce < end && is_blank(s[ce]) {
            match predicate(s, blank_end(s, ce, end), end) {
                Some((pe, pred)) => after_trigger(s, Occurrence::CardName { name }, pred, pe, end),
                None => Err(diag(Category::Predicate, ErrorKind::UnknownVocabulary, ce)),
            }
        } else {
            Err(diag(Category::Predicate, ErrorKind::UnknownVocabulary, ce))
        },
        _ => match group_subject(s, p, end) {
            Some((o, pe, pred)) => after_trigger(s, o, pred, pe, end),
            None => {
                let w = word_end(s, p, end);
                if w == p {
                    Err(diag(Category::Trigger, ErrorKind::UnknownVocabulary, p))
                } else {
                    match subject(s, p, w, end) {
                        None => Err(diag(Category::Predicate, ErrorKind::UnknownVocabulary, w)),
                        Some((ne, pe, pred)) => after_trigger(s, occurrence_of(s, p, ne), pred, pe, end),
                    }
                }
            },
        },
    }
}

/// `<cost><sep><consequence>`: `p` starts the cost and `k` is the first
/// separator (` to ` after `you may `, or `: `).
pub open spec fn activated(s: Seq<char>, p: int, k: int, end: int, sep: Seq<char>) -> Result<StatementModel, Diagnostic> {
    match action(s, p, k) {
        Err(d) => Err(d),
        Ok(Action::Other { .. }) => Err(diag(Category::Cost, ErrorKind::UnknownVocabulary, p)),
        Ok(cost) => match consequence(s, lit_after(s, k, end, sep), end) {
            Ok(acts) => Ok(StatementModel::Activated { cost, effect: acts }),
            Err(d) => Err(d),
        },
    }
}

/// `if <condition>, <consequence>`.
pub open spec fn conditional(s: Seq<char>, start: int, end: int) -> Result<StatementModel, Diagnostic> {
    match condition(s, start, end) {
        Some((ce, cd)) => if lit_in(s, ce, end, ", "@) {
            match consequence(s, lit_after(s, ce, end, ", "@), end) {
                Ok(acts) => Ok(StatementModel::Static { condition: Some(cd), effect: acts }),
                Err(d) => Err(d),
            }
        } else {
            Err(diag(Category::Condition, ErrorKind::SyntaxMismatch, ce))
        },
        None => Err(diag(Category::Condition, ErrorKind::UnknownVocabulary, start)),
    }
}

/// A statement with no keyword: its first action must be recognized.
pub open spec fn bare(s: Seq<char>, start: int, end: int) -> Result<StatementModel, Diagnostic> {
    match consequence(s, start, end) {
        Ok(acts) => if acts.len() > 0 && !(acts[0].action is Other) {
            Ok(StatementModel::Static { condition: None, effect: acts })
        } else {
            Err(diag(Category::Statement, ErrorKind::StructuralFailure, start))
        },
        Err(d) => Err(d),
    }
}

/// `[p, k)` is a known action, so it can stand as a cost before ` to `.
pub open spec fn is_cost(s: Seq<char>, p: int, k: int) -> bool {
    action(s, p, k) matches Ok(a) && !(a is Other)
}

/// The statement ends with ` instead`: where its effect ends.
pub open spec fn instead_at(s: Seq<char>, start: int, end: int) -> bool {
    end - 8 >= start && lit_in(s, end - 8, end, " instead"@) && lit_after(s, end - 8, end, " instead"@) == end
}

/// `<consequence> instead`: a replacement effect.
pub open spec fn replacement(s: Seq<char>, start: int, end: int) -> Result<StatementModel, Diagnostic> {
    match consequence(s, start, end - 8) {
        Ok(acts) => Ok(StatementModel::Replacement { effect: acts }),
        Err(d) => Err(d),
    }
}

/// One statement `[start, end)`, its kind decided by the leading keyword.
pub open spec fn statement(s: Seq<char>, start: int, end: int) -> Result<StatementModel, Diagnostic> {
    if lit_in(s, start, end, "whenever "@) {
        triggered(s, lit_after(s, start, end, "whenever "@), end)
    } else if lit_in(s, start, end, "when "@) {
        triggered(s, lit_after(s, start, end, "when "@), end)
    } else if lit_in(s, start, end, "you may "@) && find(s, lit_after(s, start, end, "you may "@), end, " to "@) < end
        && is_cost(s, lit_after(s, start, end, "you may "@), find(s, lit_after(s, start, end, "you may "@), end, " to "@)) {
        activated(s, lit_after(s, start, end, "you may "@), find(s, lit_after(s, start, end, "you may "@), end, " to "@), end, " to "@)
    } else if find(s, start, end, ": "@) < end {
        activated(s, start, find(s, start, end, ": "@), end, ": "@)
    } else if lit_in(s, start, end, "if "@) {
        conditional(s, start, end)
    } else if instead_at(s, start, end) {
        replacement(s, start, end)
    } else {
        bare(s, start, end)
    }
}

pub open spec fn lift_steps(r: Result<Vec<Step>, Diagnostic>) -> Result<Seq<Step>, Diagnostic> {
    match r {
        Ok(v) => Ok(v@),
        Err(d) => Err(d),
    }
}

pub open spec fn lift_statement(r: Result<Statement, Diagnostic>) -> Result<StatementModel, Diagnostic> {
    match r {
        Ok(st) => Ok(st@),
        Err(d) => Err(d),
    }
}

fn parse_plain_clause(s: &Vec<char>, start: usize, end: usize) -> (r: Result<Action, Diagnostic>)
    requires
        end <= s@.len(),
    ensures
        r == plain_clause(s@, start as int, end as int),
{
    match parse_action(s, start, end) {
        Err(d) => if d.kind == ErrorKind::CountOutOfRange {
            Ok(Action::Other { text: Span { start, end } })
        } else {
            Err(d)
        },
        Ok(a) => Ok(a),
    }
}

/// Parses one sub-clause of a consequence; a leading `you may` marks its
/// action optional.
pub fn parse_sub_clause(s: &Vec<char>, start: usize, end: usize) -> (r: Result<Step, Diagnostic>)
    requires
        end <= s@.len(),
    ensures
        r == sub_clause(s@, start as int, end as int),
{
    if let Some(p) = lit(s, start, end, "you may ") {
        match parse_plain_clause(s, p, end) {
            Ok(Action::Other { .. }) => Ok(Step { action: Action::Other { text: Span { start, end } }, optional: false }),
            Ok(a) => Ok(Step { action: a, optional: true }),
            Err(d) => Err(d),
        }
    } else {
        match parse_plain_clause(s, start, end) {
            Ok(a) => Ok(Step { action: a, optional: false }),
            Err(d) => Err(d),
        }
    }
}

/// Parses the ordered steps of `[start, end)`: sub-clauses joined by
/// `, then `, each an action that a leading `you may` makes optional.
pub fn parse_consequence(s: &Vec<char>, start: usize, end: usize) -> (r: Result<Vec<Step>, Diagnostic>)
    requires
        start <= end <= s@.len(),
    ensures
        lift_steps(r) == consequence(s@, start as int, end as int),
{
    let mut acts: Vec<Step> = Vec::new();
    let mut pos = start;
    loop
        invariant
            start <= pos <= end <= s@.len(),
            consequence(s@, start as int, end as int) == prepend(acts@, consequence(s@, pos as int, end as int)),
        decreases end - pos,
    {
        let k = find_lit(s, pos, end, ", then ");
        proof {
            lemma_find_bounds(s@, pos as int, end as int, ", then "@);
        }
        match parse_sub_clause(s, pos, k) {
            Err(d) => return Err(d),
            Ok(a) => {
                let ghost done = acts@;
                acts.push(a);
                if k >= end {
                    assert(acts@ =~= done + seq![a]);
                    return Ok(acts);
                }
                let next = match lit(s, k, end, ", then ") {
                    Some(n) => n,
                    None => return Err(Diagnostic { category: Category::Consequence, kind: ErrorKind::SyntaxMismatch, at: k }),
                };
                proof {
                    reveal_strlit(", then ");
                    match consequence(s@, next as int, end as int) {
                        Ok(rest) => {
                            assert(done + (seq![a] + rest) =~= acts@ + rest);
                        },
                        Err(_) => {},
                    }
                }
                pos = next;
            },
        }
    }
}

fn scan_subject(s: &Vec<char>, start: usize, w: usize, end: usize) -> (r: Option<(usize, usize, Predicate)>)
    requires
        start <= w <= end <= s@.len(),
    ensures
        match r {
            Some((ne, pe, p)) => subject(s@, start as int, w as int, end as int) == Some((ne as int, pe as int, p)) && start <= ne <= pe <= end,
            None => subject(s@, start as int, w as int, end as int) is None,
        },
{
    let mut i = w;
    loop
        invariant
            start <= i <= end <= s@.len(),
            subject(s@, start as int, i as int, end as int) == subject(s@, start as int, w as int, end as int),
        decreases end - i,
    {
        if !(i < end && (s[i] == ' ' || s[i] == '\t')) {
            return None;
        }
        let q = skip_blanks(s, i, end);
        if let Some((pe, p)) = parse_predicate(s, q, end) {
            return Some((i, pe, p));
        }
        let we = scan_word(s, q, end);
        if we <= q {
            return None;
        }
        i = we;
    }
}

fn parse_leading_condition(s: &Vec<char>, pos: usize, end: usize) -> (r: (Option<Condition>, usize))
    requires
        pos <= end <= s@.len(),
    ensures
        (r.0, r.1 as int) == leading_condition(s@, pos as int, end as int),
        pos <= r.1 <= end,
{
    match parse_condition(s, pos, end) {
        Some((ce, cd)) => match lit(s, ce, end, ", ") {
            Some(c) => (Some(cd), c),
            None => (None, pos),
        },
        None => (None, pos),
    }
}

fn occurrence_at(s: &Vec<char>, p: usize, ne: usize) -> (o: Occurrence)
    requires
        p <= ne <= s@.len(),
    ensures
        o == occurrence_of(s@, p as int, ne as int),
{
    match lit(s, p, ne, "it") {
        Some(e) if e == ne => return Occurrence::It,
        _ => {},
    }
    match lit(s, p, ne, "them") {
        Some(e) if e == ne => Occurrence::Them,
        _ => Occurrence::Name { name: Span { start: p, end: ne } },
    }
}

fn parse_after_trigger(s: &Vec<char>, subject: Occurrence, pred: Predicate, pe: usize, end: usize) -> (r: Result<Statement, Diagnostic>)
    requires
        pe <= end <= s@.len(),
    ensures
        lift_statement(r) == after_trigger(s@, subject, pred, pe as int, end as int),
{
    match lit(s, pe, end, ", ") {
        Some(c) => {
            let (cond, cpos) = parse_leading_condition(s, c, end);
            match parse_consequence(s, cpos, end) {
                Ok(acts) => Ok(Statement::Triggered { subject, predicate: pred, condition: cond, consequence: acts }),
                Err(d) => Err(d),
            }
        },
        None => Err(Diagnostic { category: Category::Trigger, kind: ErrorKind::SyntaxMismatch, at: pe }),
    }
}

fn parse_triggered(s: &Vec<char>, p: usize, end: usize) -> (r: Result<Statement, Diagnostic>)
    requires
        p <= end <= s@.len(),
    ensures
        lift_statement(r) == triggered(s@, p as int, end as int),
{
    match parse_card_name_ref(s, p, end) {
        Some((ce, Target::Named { name })) => {
            if ce < end && (s[ce] == ' ' || s[ce] == '\t') {
                let q = skip_blanks(s, ce, end);
                match parse_predicate(s, q, end) {
                    Some((pe, pred)) => parse_after_trigger(s, Occurrence::CardName { name }, pred, pe, end),
                    None => Err(Diagnostic { category: Category::Predicate, kind: ErrorKind::UnknownVocabulary, at: ce }),
                }
            } else {
                Err(Diagnostic { category: Category::Predicate, kind: ErrorKind::UnknownVocabulary, at: ce })
            }
        },
        _ => {
            if let Some((ge, Target::Group { cardinality, filter, controller })) = parse_target(s, p, end) {
                if ge < end && (s[ge] == ' ' || s[ge] == '\t') {
                    let q = skip_blanks(s, ge, end);
                    if let Some((pe, pred)) = parse_predicate(s, q, end) {
                        return parse_after_trigger(s, Occurrence::Group { cardinality, filter, controller }, pred, pe, end);
                    }
                }
            }
            let w = scan_word(s, p, end);
            if w == p {
                return Err(Diagnostic { category: Category::Trigger, kind: ErrorKind::UnknownVocabulary, at: p });
            }
            match scan_subject(s, p, w, end) {
                None => Err(Diagnostic { category: Category::Predicate, kind: ErrorKind::UnknownVocabulary, at: w }),
                Some((ne, pe, pred)) => {
                    let subject = occurrence_at(s, p, ne);
                    parse_after_trigger(s, subject, pred, pe, end)
                },
            }
        },
    }
}

fn parse_activated(s: &Vec<char>, p: usize, k: usize, end: usize, sep: &str) -> (r: Result<Statement, Diagnostic>)
    requires
        p <= k < end <= s@.len(),
        lit_in(s@, k as int, end as int, sep@),
    ensures
        lift_statement(r) == activated(s@, p as int, k as int, end as int, sep@),
{
    match parse_action(s, p, k) {
        Err(d) => Err(d),
        Ok(Action::Other { .. }) => Err(Diagnostic { category: Category::Cost, kind: ErrorKind::UnknownVocabulary, at: p }),
        Ok(cost) => {
            let c = match lit(s, k, end, sep) {
                Some(c) => c,
                None => return Err(Diagnostic { category: Category::Cost, kind: ErrorKind::SyntaxMismatch, at: k }),
            };
            match parse_consequence(s, c, end) {
                Ok(acts) => Ok(Statement::Activated { cost, effect: acts }),
                Err(d) => Err(d),
            }
        },
    }
}

fn parse_conditional(s: &Vec<char>, start: usize, end: usize) -> (r: Result<Statement, Diagnostic>)
    requires
        start <= end <= s@.len(),
    ensures
        lift_statement(r) == conditional(s@, start as int, end as int),
{
    match parse_condition(s, start, end) {
        Some((ce, cd)) => match lit(s, ce, end, ", ") {
            Some(c) => match parse_consequence(s, c, end) {
                Ok(acts) => Ok(Statement::Static { condition: Some(cd), effect: acts }),
                Err(d) => Err(d),
            },
            None => Err(Diagnostic { category: Category::Condition, kind: ErrorKind::SyntaxMismatch, at: ce }),
        },
        None => Err(Diagnostic { category: Category::Condition, kind: ErrorKind::UnknownVocabulary, at: start }),
    }
}

fn parse_bare(s: &Vec<char>, start: usize, end: usize) -> (r: Result<Statement, Diagnostic>)
    requires
        start <= end <= s@.len(),
    ensures
        lift_statement(r) == bare(s@, start as int, end as int),
{
    match parse_consequence(s, start, end) {
        Ok(acts) => {
            let recognized = acts.len() > 0 && !matches!(acts[0].action, Action::Other { .. });
            if recognized {
                Ok(Statement::Static { condition: None, effect: acts })
            } else {
                Err(Diagnostic { category: Category::Statement, kind: ErrorKind::StructuralFailure, at: start })
            }
        },
        Err(d) => Err(d),
    }
}

/// Parses one statement `[start, end)` of the text's characters `s`.
pub fn parse_statement(s: &Vec<char>, start: usize, end: usize) -> (r: Result<Statement, Diagnostic>)
    requires
        start <= end <= s@.len(),
    ensures
        lift_statement(r) == statement(s@, start as int, end as int),
{
    if let Some(p) = lit(s, start, end, "whenever ") {
        return parse_triggered(s, p, end);
    }
    if let Some(p) = lit(s, start, end, "when ") {
        return parse_triggered(s, p, end);
    }
    if let Some(p) = lit(s, start, end, "you may ") {
        let k = find_lit(s, p, end, " to ");
        if k < end {
            proof {
                lemma_find_bounds(s@, p as int, end as int, " to "@);
            }
            let known = match parse_action(s, p, k) {
                Ok(Action::Other { .. }) => false,
                Ok(_) => true,
                Err(_) => false,
            };
            if known {
                return parse_activated(s, p, k, end, " to ");
            }
        }
    }
    let k = find_lit(s, start, end, ": ");
    if k < end {
        proof {
            lemma_find_bounds(s@, start as int, end as int, ": "@);
        }
        return parse_activated(s, start, k, end, ": ");
    }
    if lit(s, start, end, "if ").is_some() {
        return parse_conditional(s, start, end);
    }
    if end >= 8 && end - 8 >= start {
        match lit(s, end - 8, end, " instead") {
            Some(e) if e == end => {
                return match parse_consequence(s, start, end - 8) {
                    Ok(acts) => Ok(Statement::Replacement { effect: acts }),
                    Err(d) => Err(d),
                };
            },
            _ => {},
        }
    }
    parse_bare(s, start, end)
}

} // verus!
