//! Action phrase parsers. Each one parses a whole sub-clause `[start, end)`.
//! A sub-clause whose leading words match no template becomes `Action::Other`.
//! One that starts a template and then breaks it is an error of that template.
use vstd::prelude::*;

use crate::lexical::{lit_after, count, lit, lit_in, number, opt_int, parse_count, parse_number, MAX_AMOUNT};
use crate::model::{Count, Action, Category, Diagnostic, Duration, ErrorKind, Span, Stat, Target, Zone};
use crate::phrases::{filter, parse_filter, parse_target, target};

verus! {

pub open spec fn diag(category: Category, kind: ErrorKind, at: int) -> Diagnostic {
    Diagnostic { category, kind, at: at as usize }
}

pub open spec fn other(start: int, end: int) -> Action {
    Action::Other { text: Span { start: start as usize, end: end as usize } }
}

/// ` cards` or ` card`.
pub open spec fn cards_word(s: Seq<char>, pos: int, end: int) -> Option<int> {
    if lit_in(s, pos, end, " cards"@) {
        Some(lit_after(s, pos, end, " cards"@))
    } else if lit_in(s, pos, end, " card"@) {
        Some(lit_after(s, pos, end, " card"@))
    } else {
        None
    }
}

/// `<count> card(s)` after `draw `: where the template ends and the count;
/// what follows is left to the caller. `pos` follows `draw `.
pub open spec fn draw_head(s: Seq<char>, pos: int, end: int) -> Result<(int, Count), Diagnostic> {
    match count(s, pos, end) {
        Ok((e, c)) => match cards_word(s, e, end) {
            Some(e2) => Ok((e2, c)),
            None => Err(diag(Category::Draw, ErrorKind::SyntaxMismatch, e)),
        },
        Err(k) => Err(diag(Category::Draw, k, pos)),
    }
}

/// The draw template `draw <count> card(s)` at `pos`, with blank runs
/// between its words: where it ends and the count.
pub open spec fn draw_phrase(s: Seq<char>, pos: int, end: int) -> Result<(int, Count), Diagnostic> {
    if lit_in(s, pos, end, "draw "@) {
        draw_head(s, lit_after(s, pos, end, "draw "@), end)
    } else {
        Err(diag(Category::Draw, ErrorKind::SyntaxMismatch, pos))
    }
}

/// A draw sub-clause: the draw template filling `[.., end)`; `pos` follows `draw `.
pub open spec fn draw(s: Seq<char>, pos: int, end: int) -> Result<Action, Diagnostic> {
    match draw_head(s, pos, end) {
        Ok((e2, c)) => if e2 == end {
            Ok(Action::Draw { count: c })
        } else {
            Err(diag(Category::Draw, ErrorKind::SyntaxMismatch, e2))
        },
        Err(d) => Err(d),
    }
}

/// `discard <count> card(s)`, optionally `from your hand`; `pos` follows `discard `.
pub open spec fn discard(s: Seq<char>, pos: int, end: int) -> Result<Action, Diagnostic> {
    match count(s, pos, end) {
        Ok((e, c)) => match cards_word(s, e, end) {
            Some(e2) => if e2 == end || (lit_in(s, e2, end, " from your hand"@) && lit_after(s, e2, end, " from your hand"@) == end) {
                Ok(Action::Discard { count: c, from: Zone::Hand })
            } else {
                Err(diag(Category::Discard, ErrorKind::SyntaxMismatch, e2))
            },
            None => Err(diag(Category::Discard, ErrorKind::SyntaxMismatch, e)),
        },
        Err(k) => Err(diag(Category::Discard, k, pos)),
    }
}

/// `deal <n> damage to <target>` or `deal it <n> damage`; `pos` follows `deal `.
pub open spec fn damage(s: Seq<char>, pos: int, end: int) -> Result<Action, Diagnostic> {
    let to_it = lit_in(s, pos, end, "it "@);
    let npos = if to_it { lit_after(s, pos, end, "it "@) } else { pos };
    match number(s, npos, end, MAX_AMOUNT as nat) {
        Ok((e, v)) => if to_it {
            if lit_in(s, e, end, " damage"@) && lit_after(s, e, end, " damage"@) == end {
                Ok(Action::DealDamage { amount: v as u32, target: Target::It })
            } else {
                Err(diag(Category::Damage, ErrorKind::SyntaxMismatch, e))
            }
        } else if lit_in(s, e, end, " damage to "@) {
            match target(s, lit_after(s, e, end, " damage to "@), end) {
                Some((te, t)) => if te == end {
                    Ok(Action::DealDamage { amount: v as u32, target: t })
                } else {
                    Err(diag(Category::Damage, ErrorKind::SyntaxMismatch, te))
                },
                None => Err(diag(Category::Damage, ErrorKind::UnknownVocabulary, lit_after(s, e, end, " damage to "@))),
            }
        } else {
            Err(diag(Category::Damage, ErrorKind::SyntaxMismatch, e))
        },
        Err(k) => Err(diag(Category::Damage, k, npos)),
    }
}

/// A target that fills `[pos, end)` exactly.
pub open spec fn whole_target(s: Seq<char>, pos: int, end: int, category: Category) -> Result<Target, Diagnostic> {
    match target(s, pos, end) {
        Some((e, t)) => if e == end {
            Ok(t)
        } else {
            Err(diag(category, ErrorKind::SyntaxMismatch, e))
        },
        None => Err(diag(category, ErrorKind::UnknownVocabulary, pos)),
    }
}

/// `pay <count>`; `pos` follows `pay `.
pub open spec fn pay(s: Seq<char>, pos: int, end: int) -> Result<Action, Diagnostic> {
    match count(s, pos, end) {
        Ok((e, c)) => if e == end {
            Ok(Action::Pay { amount: c })
        } else {
            Err(diag(Category::Pay, ErrorKind::SyntaxMismatch, e))
        },
        Err(k) => Err(diag(Category::Pay, k, pos)),
    }
}

/// `<target><tail>` moving the target from the field to `to`, where either
/// tail may close the phrase; `pos` follows the keyword.
pub open spec fn move_zone(s: Seq<char>, pos: int, end: int, tail: Seq<char>, alt: Seq<char>, to: Zone) -> Result<Action, Diagnostic> {
    match target(s, pos, end) {
        Some((e, t)) => if (lit_in(s, e, end, tail) && lit_after(s, e, end, tail) == end) || (lit_in(s, e, end, alt) && lit_after(s, e, end, alt) == end) {
            Ok(Action::MoveZone { target: t, from: Zone::Field, to })
        } else {
            Err(diag(Category::MoveZone, ErrorKind::SyntaxMismatch, e))
        },
        None => Err(diag(Category::MoveZone, ErrorKind::UnknownVocabulary, pos)),
    }
}

/// `reveal the top <count> cards of your deck`; `pos` follows `reveal the top `.
pub open spec fn reveal_top(s: Seq<char>, pos: int, end: int) -> Result<Action, Diagnostic> {
    match count(s, pos, end) {
        Ok((e, c)) => if lit_in(s, e, end, " cards of your deck"@) && lit_after(s, e, end, " cards of your deck"@) == end {
            Ok(Action::RevealTop { count: c })
        } else {
            Err(diag(Category::Reveal, ErrorKind::SyntaxMismatch, e))
        },
        Err(k) => Err(diag(Category::Reveal, k, pos)),
    }
}

/// `search for <count> <filter> and add it to your hand`; `pos` follows `search for `.
pub open spec fn search(s: Seq<char>, pos: int, end: int) -> Result<Action, Diagnostic> {
    match count(s, pos, end) {
        Ok((e, c)) => if lit_in(s, e, end, " "@) {
            match filter(s, lit_after(s, e, end, " "@), end) {
                Some((fe, f)) => if lit_in(s, fe, end, " and add it to your hand"@) && lit_after(
                    s,
                    fe,
                    end,
                    " and add it to your hand"@,
                ) == end {
                    Ok(Action::Search { count: c, filter: f })
                } else {
                    Err(diag(Category::Search, ErrorKind::SyntaxMismatch, fe))
                },
                None => Err(diag(Category::Search, ErrorKind::UnknownVocabulary, lit_after(s, e, end, " "@))),
            }
        } else {
            Err(diag(Category::Search, ErrorKind::SyntaxMismatch, e))
        },
        Err(k) => Err(diag(Category::Search, k, pos)),
    }
}

/// ` gains +` or ` gain +`.
pub open spec fn gain_word(s: Seq<char>, pos: int, end: int) -> Option<int> {
    if lit_in(s, pos, end, " gains +"@) {
        Some(lit_after(s, pos, end, " gains +"@))
    } else if lit_in(s, pos, end, " gain +"@) {
        Some(lit_after(s, pos, end, " gain +"@))
    } else {
        None
    }
}

/// `<n> power`, optionally `this turn`; `pos` follows `gain +`.
pub open spec fn modify_tail(s: Seq<char>, pos: int, end: int, t: Target) -> Result<Action, Diagnostic> {
    match number(s, pos, end, MAX_AMOUNT as nat) {
        Ok((e, v)) => if lit_in(s, e, end, " power"@) {
            let p = lit_after(s, e, end, " power"@);
            if p == end {
                Ok(Action::ModifyStat { target: t, stat: Stat::Power, delta: v as u32, duration: Duration::WhileConditionHolds })
            } else if lit_in(s, p, end, " this turn"@) && lit_after(s, p, end, " this turn"@) == end {
                Ok(Action::ModifyStat { target: t, stat: Stat::Power, delta: v as u32, duration: Duration::ThisTurn })
            } else {
                Err(diag(Category::ModifyStat, ErrorKind::SyntaxMismatch, p))
            }
        } else {
            Err(diag(Category::ModifyStat, ErrorKind::SyntaxMismatch, e))
        },
        Err(k) => Err(diag(Category::ModifyStat, k, pos)),
    }
}

/// `<target> gain(s) +<n> power`; `None` when the clause does not start so.
pub open spec fn modify(s: Seq<char>, start: int, end: int) -> Option<Result<Action, Diagnostic>> {
    match target(s, start, end) {
        Some((e, t)) => match gain_word(s, e, end) {
            Some(g) => Some(modify_tail(s, g, end, t)),
            None => None,
        },
        None => None,
    }
}

/// One action sub-clause `[start, end)`: the templates are tried by their
/// leading keyword; an unknown leading phrase is kept as `Other`.
#[verifier::opaque]
pub open spec fn action(s: Seq<char>, start: int, end: int) -> Result<Action, Diagnostic> {
    if start >= end {
        Err(diag(Category::Consequence, ErrorKind::SyntaxMismatch, start))
    } else if lit_in(s, start, end, "draw "@) {
        draw(s, lit_after(s, start, end, "draw "@), end)
    } else if lit_in(s, start, end, "discard "@) {
        discard(s, lit_after(s, start, end, "discard "@), end)
    } else if lit_in(s, start, end, "deal "@) {
        damage(s, lit_after(s, start, end, "deal "@), end)
    } else if lit_in(s, start, end, "dull "@) {
        match whole_target(s, lit_after(s, start, end, "dull "@), end, Category::Dull) {
            Ok(t) => Ok(Action::Dull { target: t }),
            Err(d) => Err(d),
        }
    } else if lit_in(s, start, end, "freeze "@) {
        match whole_target(s, lit_after(s, start, end, "freeze "@), end, Category::Freeze) {
            Ok(t) => Ok(Action::Freeze { target: t }),
            Err(d) => Err(d),
        }
    } else if lit_in(s, start, end, "break "@) {
        match whole_target(s, lit_after(s, start, end, "break "@), end, Category::Break) {
            Ok(t) => Ok(Action::Break { target: t }),
            Err(d) => Err(d),
        }
    } else if lit_in(s, start, end, "pay "@) {
        pay(s, lit_after(s, start, end, "pay "@), end)
    } else if lit_in(s, start, end, "put "@) {
        move_zone(s, lit_after(s, start, end, "put "@), end, " into the break zone"@, " into the break zone"@, Zone::BreakZone)
    } else if lit_in(s, start, end, "remove "@) {
        move_zone(s, lit_after(s, start, end, "remove "@), end, " from the game"@, " from the game"@, Zone::RemovedFromGame)
    } else if lit_in(s, start, end, "return "@) {
        move_zone(s, lit_after(s, start, end, "return "@), end, " to their owners' hands"@, " to its owner's hand"@, Zone::Hand)
    } else if lit_in(s, start, end, "reveal the top "@) {
        reveal_top(s, lit_after(s, start, end, "reveal the top "@), end)
    } else if lit_in(s, start, end, "search for "@) {
        search(s, lit_after(s, start, end, "search for "@), end)
    } else {
        match modify(s, start, end) {
            Some(r) => r,
            None => Ok(other(start, end)),
        }
    }
}

fn mk_diag(category: Category, kind: ErrorKind, at: usize) -> (d: Diagnostic)
    ensures
        d == diag(category, kind, at as int),
{
    Diagnostic { category, kind, at }
}

fn mk_other(start: usize, end: usize) -> (a: Action)
    ensures
        a == other(start as int, end as int),
{
    Action::Other { text: Span { start, end } }
}

fn parse_cards_word(s: &Vec<char>, pos: usize, end: usize) -> (r: Option<usize>)
    requires
        end <= s@.len(),
    ensures
        opt_int(r) == cards_word(s@, pos as int, end as int),
        r matches Some(e) ==> pos <= e <= end,
{
    if let Some(e) = lit(s, pos, end, " cards") {
        return Some(e);
    }
    lit(s, pos, end, " card")
}

fn parse_draw_head(s: &Vec<char>, pos: usize, end: usize) -> (r: Result<(usize, Count), Diagnostic>)
    requires
        pos <= end <= s@.len(),
    ensures
        lift_diag(r) == draw_head(s@, pos as int, end as int),
        r matches Ok((e, _)) ==> pos <= e <= end,
{
    match parse_count(s, pos, end) {
        Ok((e, c)) => match parse_cards_word(s, e, end) {
            Some(e2) => Ok((e2, c)),
            None => Err(mk_diag(Category::Draw, ErrorKind::SyntaxMismatch, e)),
        },
        Err(k) => Err(mk_diag(Category::Draw, k, pos)),
    }
}

pub open spec fn lift_diag(r: Result<(usize, Count), Diagnostic>) -> Result<(int, Count), Diagnostic> {
    match r {
        Ok((e, c)) => Ok((e as int, c)),
        Err(d) => Err(d),
    }
}

/// Parses the draw template at `pos` and returns where it ends with its
/// count, leaving the rest of `[pos, end)` to the caller.
pub fn parse_draw_phrase(s: &Vec<char>, pos: usize, end: usize) -> (r: Result<(usize, Count), Diagnostic>)
    requires
        pos <= end <= s@.len(),
    ensures
        lift_diag(r) == draw_phrase(s@, pos as int, end as int),
        r matches Ok((e, _)) ==> pos <= e <= end,
{
    match lit(s, pos, end, "draw ") {
        Some(p) => parse_draw_head(s, p, end),
        None => Err(mk_diag(Category::Draw, ErrorKind::SyntaxMismatch, pos)),
    }
}

fn parse_draw(s: &Vec<char>, pos: usize, end: usize) -> (r: Result<Action, Diagnostic>)
    requires
        pos <= end <= s@.len(),
    ensures
        r == draw(s@, pos as int, end as int),
{
    match parse_draw_head(s, pos, end) {
        Ok((e2, c)) => if e2 == end {
            Ok(Action::Draw { count: c })
        } else {
            Err(mk_diag(Category::Draw, ErrorKind::SyntaxMismatch, e2))
        },
        Err(d) => Err(d),
    }
}

fn parse_discard(s: &Vec<char>, pos: usize, end: usize) -> (r: Result<Action, Diagnostic>)
    requires
        pos <= end <= s@.len(),
    ensures
        r == discard(s@, pos as int, end as int),
{
    match parse_count(s, pos, end) {
        Ok((e, c)) => match parse_cards_word(s, e, end) {
            Some(e2) => {
                let from_hand = match lit(s, e2, end, " from your hand") {
                    Some(f) => f == end,
                    None => false,
                };
                if e2 == end || from_hand {
                    Ok(Action::Discard { count: c, from: Zone::Hand })
                } else {
                    Err(mk_diag(Category::Discard, ErrorKind::SyntaxMismatch, e2))
                }
            },
            None => Err(mk_diag(Category::Discard, ErrorKind::SyntaxMismatch, e)),
        },
        Err(k) => Err(mk_diag(Category::Discard, k, pos)),
    }
}

fn parse_damage(s: &Vec<char>, pos: usize, end: usize) -> (r: Result<Action, Diagnostic>)
    requires
        pos <= end <= s@.len(),
    ensures
        r == damage(s@, pos as int, end as int),
{
    let it_end = lit(s, pos, end, "it ");
    let to_it = it_end.is_some();
    let npos = match it_end {
        Some(p) => p,
        None => pos,
    };
    match parse_number(s, npos, end, MAX_AMOUNT) {
        Ok((e, v)) => if to_it {
            match lit(s, e, end, " damage") {
                Some(d) if d == end => Ok(Action::DealDamage { amount: v, target: Target::It }),
                _ => Err(mk_diag(Category::Damage, ErrorKind::SyntaxMismatch, e)),
            }
        } else {
            match lit(s, e, end, " damage to ") {
                Some(tp) => match parse_target(s, tp, end) {
                    Some((te, t)) => if te == end {
                        Ok(Action::DealDamage { amount: v, target: t })
                    } else {
                        Err(mk_diag(Category::Damage, ErrorKind::SyntaxMismatch, te))
                    },
                    None => Err(mk_diag(Category::Damage, ErrorKind::UnknownVocabulary, tp)),
                },
                None => Err(mk_diag(Category::Damage, ErrorKind::SyntaxMismatch, e)),
            }
        },
        Err(k) => Err(mk_diag(Category::Damage, k, npos)),
    }
}

fn parse_whole_target(s: &Vec<char>, pos: usize, end: usize, category: Category) -> (r: Result<Target, Diagnostic>)
    requires
        pos <= end <= s@.len(),
    ensures
        r == whole_target(s@, pos as int, end as int, category),
{
    match parse_target(s, pos, end) {
        Some((e, t)) => if e == end {
            Ok(t)
        } else {
            Err(mk_diag(category, ErrorKind::SyntaxMismatch, e))
        },
        None => Err(mk_diag(category, ErrorKind::UnknownVocabulary, pos)),
    }
}

fn parse_pay(s: &Vec<char>, pos: usize, end: usize) -> (r: Result<Action, Diagnostic>)
    requires
        pos <= end <= s@.len(),
    ensures
        r == pay(s@, pos as int, end as int),
{
    match parse_count(s, pos, end) {
        Ok((e, c)) => if e == end {
            Ok(Action::Pay { amount: c })
        } else {
            Err(mk_diag(Category::Pay, ErrorKind::SyntaxMismatch, e))
        },
        Err(k) => Err(mk_diag(Category::Pay, k, pos)),
    }
}

fn closes_at(s: &Vec<char>, pos: usize, end: usize, w: &str) -> (r: bool)
    requires
        end <= s@.len(),
    ensures
        r == (lit_in(s@, pos as int, end as int, w@) && lit_after(s@, pos as int, end as int, w@) == end),
{
    match lit(s, pos, end, w) {
        Some(e) => e == end,
        None => false,
    }
}

fn parse_move_zone(s: &Vec<char>, pos: usize, end: usize, tail: &str, alt: &str, to: Zone) -> (r: Result<Action, Diagnostic>)
    requires
        pos <= end <= s@.len(),
    ensures
        r == move_zone(s@, pos as int, end as int, tail@, alt@, to),
{
    match parse_target(s, pos, end) {
        Some((e, t)) => if closes_at(s, e, end, tail) || closes_at(s, e, end, alt) {
            Ok(Action::MoveZone { target: t, from: Zone::Field, to })
        } else {
            Err(mk_diag(Category::MoveZone, ErrorKind::SyntaxMismatch, e))
        },
        None => Err(mk_diag(Category::MoveZone, ErrorKind::UnknownVocabulary, pos)),
    }
}

fn parse_reveal(s: &Vec<char>, pos: usize, end: usize) -> (r: Result<Action, Diagnostic>)
    requires
        pos <= end <= s@.len(),
    ensures
        r == reveal_top(s@, pos as int, end as int),
{
    match parse_count(s, pos, end) {
        Ok((e, c)) => if closes_at(s, e, end, " cards of your deck") {
            Ok(Action::RevealTop { count: c })
        } else {
            Err(mk_diag(Category::Reveal, ErrorKind::SyntaxMismatch, e))
        },
        Err(k) => Err(mk_diag(Category::Reveal, k, pos)),
    }
}

fn parse_search(s: &Vec<char>, pos: usize, end: usize) -> (r: Result<Action, Diagnostic>)
    requires
        pos <= end <= s@.len(),
    ensures
        r == search(s@, pos as int, end as int),
{
    match parse_count(s, pos, end) {
        Ok((e, c)) => match lit(s, e, end, " ") {
            Some(fp) => match parse_filter(s, fp, end) {
                Some((fe, f)) => if closes_at(s, fe, end, " and add it to your hand") {
                    Ok(Action::Search { count: c, filter: f })
                } else {
                    Err(mk_diag(Category::Search, ErrorKind::SyntaxMismatch, fe))
                },
                None => Err(mk_diag(Category::Search, ErrorKind::UnknownVocabulary, fp)),
            },
            None => Err(mk_diag(Category::Search, ErrorKind::SyntaxMismatch, e)),
        },
        Err(k) => Err(mk_diag(Category::Search, k, pos)),
    }
}

fn parse_gain_word(s: &Vec<char>, pos: usize, end: usize) -> (r: Option<usize>)
    requires
        end <= s@.len(),
    ensures
        opt_int(r) == gain_word(s@, pos as int, end as int),
        r matches Some(e) ==> e <= end,
{
    if let Some(e) = lit(s, pos, end, " gains +") {
        return Some(e);
    }
    lit(s, pos, end, " gain +")
}

fn parse_modify_tail(s: &Vec<char>, pos: usize, end: usize, t: Target) -> (r: Result<Action, Diagnostic>)
    requires
        pos <= end <= s@.len(),
    ensures
        r == modify_tail(s@, pos as int, end as int, t),
{
    match parse_number(s, pos, end, MAX_AMOUNT) {
        Ok((e, v)) => match lit(s, e, end, " power") {
            Some(p) => {
                if p == end {
                    return Ok(Action::ModifyStat { target: t, stat: Stat::Power, delta: v, duration: Duration::WhileConditionHolds });
                }
                match lit(s, p, end, " this turn") {
                    Some(q) if q == end => Ok(Action::ModifyStat { target: t, stat: Stat::Power, delta: v, duration: Duration::ThisTurn }),
                    _ => Err(mk_diag(Category::ModifyStat, ErrorKind::SyntaxMismatch, p)),
                }
            },
            None => Err(mk_diag(Category::ModifyStat, ErrorKind::SyntaxMismatch, e)),
        },
        Err(k) => Err(mk_diag(Category::ModifyStat, k, pos)),
    }
}

fn parse_modify(s: &Vec<char>, start: usize, end: usize) -> (r: Option<Result<Action, Diagnostic>>)
    requires
        start <= end <= s@.len(),
    ensures
        r == modify(s@, start as int, end as int),
{
    match parse_target(s, start, end) {
        Some((e, t)) => match parse_gain_word(s, e, end) {
            Some(g) => Some(parse_modify_tail(s, g, end, t)),
            None => None,
        },
        None => None,
    }
}

/// Parses one action sub-clause `[start, end)`.
pub fn parse_action(s: &Vec<char>, start: usize, end: usize) -> (r: Result<Action, Diagnostic>)
    requires
        end <= s@.len(),
    ensures
        r == action(s@, start as int, end as int),
{
    reveal(action);
    if start >= end {
        return Err(mk_diag(Category::Consequence, ErrorKind::SyntaxMismatch, start));
    }
    if let Some(p) = lit(s, start, end, "draw ") {
        return parse_draw(s, p, end);
    }
    if let Some(p) = lit(s, start, end, "discard ") {
        return parse_discard(s, p, end);
    }
    if let Some(p) = lit(s, start, end, "deal ") {
        return parse_damage(s, p, end);
    }
    if let Some(p) = lit(s, start, end, "dull ") {
        return match parse_whole_target(s, p, end, Category::Dull) {
            Ok(t) => Ok(Action::Dull { target: t }),
            Err(d) => Err(d),
        };
    }
    if let Some(p) = lit(s, start, end, "freeze ") {
        return match parse_whole_target(s, p, end, Category::Freeze) {
            Ok(t) => Ok(Action::Freeze { target: t }),
            Err(d) => Err(d),
        };
    }
    if let Some(p) = lit(s, start, end, "break ") {
        return match parse_whole_target(s, p, end, Category::Break) {
            Ok(t) => Ok(Action::Break { target: t }),
            Err(d) => Err(d),
        };
    }
    if let Some(p) = lit(s, start, end, "pay ") {
        return parse_pay(s, p, end);
    }
    if let Some(p) = lit(s, start, end, "put ") {
        return parse_move_zone(s, p, end, " into the break zone", " into the break zone", Zone::BreakZone);
    }
    if let Some(p) = lit(s, start, end, "remove ") {
        return parse_move_zone(s, p, end, " from the game", " from the game", Zone::RemovedFromGame);
    }
    if let Some(p) = lit(s, start, end, "return ") {
        return parse_move_zone(s, p, end, " to their owners' hands", " to its owner's hand", Zone::Hand);
    }
    if let Some(p) = lit(s, start, end, "reveal the top ") {
        return parse_reveal(s, p, end);
    }
    if let Some(p) = lit(s, start, end, "search for ") {
        return parse_search(s, p, end);
    }
    match parse_modify(s, start, end) {
        Some(r) => r,
        None => Ok(mk_other(start, end)),
    }
}

} // verus!
