//! Phrase parsers: one per recurring template. Each tries the most specific
//! literal first and consumes nothing when it fails.
use vstd::prelude::*;

use crate::lexical::{lit_after, count, find, find_lit, lemma_find_bounds, lit, lit_in, parse_count};
use crate::model::{CardKind, Cardinality, Condition, Gate, Controller, Element, Event, Filter, Predicate, Span, Target};

verus! {

pub open spec fn element(s: Seq<char>, pos: int, end: int) -> Option<(int, Element)> {
    if lit_in(s, pos, end, "fire "@) {
        Some((lit_after(s, pos, end, "fire "@), Element::Fire))
    } else if lit_in(s, pos, end, "ice "@) {
        Some((lit_after(s, pos, end, "ice "@), Element::Ice))
    } else if lit_in(s, pos, end, "wind "@) {
        Some((lit_after(s, pos, end, "wind "@), Element::Wind))
    } else if lit_in(s, pos, end, "earth "@) {
        Some((lit_after(s, pos, end, "earth "@), Element::Earth))
    } else if lit_in(s, pos, end, "lightning "@) {
        Some((lit_after(s, pos, end, "lightning "@), Element::Lightning))
    } else if lit_in(s, pos, end, "water "@) {
        Some((lit_after(s, pos, end, "water "@), Element::Water))
    } else if lit_in(s, pos, end, "light "@) {
        Some((lit_after(s, pos, end, "light "@), Element::Light))
    } else if lit_in(s, pos, end, "dark "@) {
        Some((lit_after(s, pos, end, "dark "@), Element::Dark))
    } else {
        None
    }
}

/// A card kind, singular or plural; the plural is tried first.
pub open spec fn card_kind(s: Seq<char>, pos: int, end: int) -> Option<(int, CardKind)> {
    if lit_in(s, pos, end, "forwards"@) {
        Some((lit_after(s, pos, end, "forwards"@), CardKind::Forward))
    } else if lit_in(s, pos, end, "forward"@) {
        Some((lit_after(s, pos, end, "forward"@), CardKind::Forward))
    } else if lit_in(s, pos, end, "backups"@) {
        Some((lit_after(s, pos, end, "backups"@), CardKind::Backup))
    } else if lit_in(s, pos, end, "backup"@) {
        Some((lit_after(s, pos, end, "backup"@), CardKind::Backup))
    } else if lit_in(s, pos, end, "characters"@) {
        Some((lit_after(s, pos, end, "characters"@), CardKind::Character))
    } else if lit_in(s, pos, end, "character"@) {
        Some((lit_after(s, pos, end, "character"@), CardKind::Character))
    } else if lit_in(s, pos, end, "monsters"@) {
        Some((lit_after(s, pos, end, "monsters"@), CardKind::Monster))
    } else if lit_in(s, pos, end, "monster"@) {
        Some((lit_after(s, pos, end, "monster"@), CardKind::Monster))
    } else if lit_in(s, pos, end, "summons"@) {
        Some((lit_after(s, pos, end, "summons"@), CardKind::Summon))
    } else if lit_in(s, pos, end, "summon"@) {
        Some((lit_after(s, pos, end, "summon"@), CardKind::Summon))
    } else if lit_in(s, pos, end, "cards"@) {
        Some((lit_after(s, pos, end, "cards"@), CardKind::Card))
    } else if lit_in(s, pos, end, "card"@) {
        Some((lit_after(s, pos, end, "card"@), CardKind::Card))
    } else {
        None
    }
}

/// An optional element followed by a card kind (`Fire backups`).
pub open spec fn filter(s: Seq<char>, pos: int, end: int) -> Option<(int, Filter)> {
    match element(s, pos, end) {
        Some((e, el)) => match card_kind(s, e, end) {
            Some((k, c)) => Some((k, Filter { element: Some(el), kind: c })),
            None => None,
        },
        None => match card_kind(s, pos, end) {
            Some((k, c)) => Some((k, Filter { element: None, kind: c })),
            None => None,
        },
    }
}

/// An optional controller phrase; consumes nothing when absent.
pub open spec fn controller(s: Seq<char>, pos: int, end: int) -> (int, Controller) {
    if lit_in(s, pos, end, " your opponent controls"@) {
        (lit_after(s, pos, end, " your opponent controls"@), Controller::Opponent)
    } else if lit_in(s, pos, end, " you control"@) {
        (lit_after(s, pos, end, " you control"@), Controller::You)
    } else {
        (pos, Controller::Anyone)
    }
}

pub open spec fn group(s: Seq<char>, pos: int, end: int, card: Cardinality) -> Option<(int, Target)> {
    match filter(s, pos, end) {
        Some((e, f)) => {
            let (e2, c) = controller(s, e, end);
            Some((e2, Target::Group { cardinality: card, filter: f, controller: c }))
        },
        None => None,
    }
}

/// A counted group: `<count> <filter>`.
pub open spec fn counted_group(s: Seq<char>, pos: int, end: int, up_to: bool) -> Option<(int, Target)> {
    match count(s, pos, end) {
        Ok((e, c)) => if lit_in(s, e, end, " "@) {
            group(s, lit_after(s, e, end, " "@), end, if up_to { Cardinality::UpTo(c) } else { Cardinality::Exactly(c) })
        } else {
            None
        },
        Err(_) => None,
    }
}

/// `[Card Name (<name>)]`: the name is what stands between the opening
/// parenthesis and the first `)]`, and is not empty.
pub open spec fn card_name_ref(s: Seq<char>, pos: int, end: int) -> Option<(int, Target)> {
    if lit_in(s, pos, end, "[card name ("@) {
        let p = lit_after(s, pos, end, "[card name ("@);
        let k = find(s, p, end, ")]"@);
        if p < k && k < end {
            Some((lit_after(s, k, end, ")]"@), Target::Named { name: Span { start: p as usize, end: k as usize } }))
        } else {
            None
        }
    } else {
        None
    }
}

/// A card-name reference, a pronoun or a group phrase (`all the forwards your opponent controls`,
/// `up to 2 Fire backups`).
pub open spec fn target(s: Seq<char>, pos: int, end: int) -> Option<(int, Target)> {
    if lit_in(s, pos, end, "[card name ("@) {
        card_name_ref(s, pos, end)
    } else if lit_in(s, pos, end, "them"@) {
        Some((lit_after(s, pos, end, "them"@), Target::Them))
    } else if lit_in(s, pos, end, "it"@) {
        Some((lit_after(s, pos, end, "it"@), Target::It))
    } else if lit_in(s, pos, end, "all the "@) {
        group(s, lit_after(s, pos, end, "all the "@), end, Cardinality::All)
    } else if lit_in(s, pos, end, "all "@) {
        group(s, lit_after(s, pos, end, "all "@), end, Cardinality::All)
    } else if lit_in(s, pos, end, "the "@) {
        group(s, lit_after(s, pos, end, "the "@), end, Cardinality::All)
    } else if lit_in(s, pos, end, "up to "@) {
        counted_group(s, lit_after(s, pos, end, "up to "@), end, true)
    } else {
        counted_group(s, pos, end, false)
    }
}

pub open spec fn event(s: Seq<char>, pos: int, end: int) -> Option<(int, Event)> {
    if lit_in(s, pos, end, "enters the field"@) {
        Some((lit_after(s, pos, end, "enters the field"@), Event::EntersTheField))
    } else if lit_in(s, pos, end, "attacks"@) {
        Some((lit_after(s, pos, end, "attacks"@), Event::Attacks))
    } else if lit_in(s, pos, end, "leaves the field"@) {
        Some((lit_after(s, pos, end, "leaves the field"@), Event::LeavesTheField))
    } else if lit_in(s, pos, end, "is chosen by your opponent's ability"@) {
        Some((lit_after(s, pos, end, "is chosen by your opponent's ability"@), Event::IsChosen))
    } else if lit_in(s, pos, end, "is put from the field into the break zone"@) {
        Some((lit_after(s, pos, end, "is put from the field into the break zone"@), Event::IsPutIntoBreakZone))
    } else if lit_in(s, pos, end, "is cast"@) {
        Some((lit_after(s, pos, end, "is cast"@), Event::IsCast))
    } else {
        None
    }
}

/// An event, or two events joined by `or`.
pub open spec fn predicate(s: Seq<char>, pos: int, end: int) -> Option<(int, Predicate)> {
    match event(s, pos, end) {
        Some((e, ev)) => if lit_in(s, e, end, " or "@) {
            match event(s, lit_after(s, e, end, " or "@), end) {
                Some((e2, ev2)) => Some((e2, Predicate::Either(ev, ev2))),
                None => Some((e, Predicate::Single(ev))),
            }
        } else {
            Some((e, Predicate::Single(ev)))
        },
        None => None,
    }
}

/// `you control <count> or more <filter>` or `you have cast <count> <filter> this turn`.
pub open spec fn gate(s: Seq<char>, pos: int, end: int) -> Option<(int, Gate)> {
    if lit_in(s, pos, end, "you control "@) {
        match count(s, lit_after(s, pos, end, "you control "@), end) {
            Ok((e, c)) => if lit_in(s, e, end, " or more "@) {
                match filter(s, lit_after(s, e, end, " or more "@), end) {
                    Some((e2, f)) => Some((e2, Gate::Count { filter: f, min: c })),
                    None => None,
                }
            } else {
                None
            },
            Err(_) => None,
        }
    } else if lit_in(s, pos, end, "you have cast "@) {
        match count(s, lit_after(s, pos, end, "you have cast "@), end) {
            Ok((e, c)) => if lit_in(s, e, end, " "@) {
                match filter(s, lit_after(s, e, end, " "@), end) {
                    Some((e2, f)) => if lit_in(s, e2, end, " this turn"@) {
                        Some((lit_after(s, e2, end, " this turn"@), Gate::CastThisTurn { filter: f, min: c }))
                    } else {
                        None
                    },
                    None => None,
                }
            } else {
                None
            },
            Err(_) => None,
        }
    } else {
        None
    }
}

/// `if <gate>`, optionally joined to a second gate by `and` or `or`.
pub open spec fn condition(s: Seq<char>, pos: int, end: int) -> Option<(int, Condition)> {
    if lit_in(s, pos, end, "if "@) {
        match gate(s, lit_after(s, pos, end, "if "@), end) {
            Some((e, g)) => if lit_in(s, e, end, " and "@) && gate(s, lit_after(s, e, end, " and "@), end) is Some {
                let (e2, g2) = gate(s, lit_after(s, e, end, " and "@), end).unwrap();
                Some((e2, Condition::Both(g, g2)))
            } else if lit_in(s, e, end, " or "@) && gate(s, lit_after(s, e, end, " or "@), end) is Some {
                let (e2, g2) = gate(s, lit_after(s, e, end, " or "@), end).unwrap();
                Some((e2, Condition::Either(g, g2)))
            } else {
                Some((e, Condition::Single(g)))
            },
            None => None,
        }
    } else {
        None
    }
}

pub open spec fn lift_opt<T>(r: Option<(usize, T)>) -> Option<(int, T)> {
    match r {
        Some((e, v)) => Some((e as int, v)),
        None => None,
    }
}

pub fn parse_element(s: &Vec<char>, pos: usize, end: usize) -> (r: Option<(usize, Element)>)
    requires
        end <= s@.len(),
    ensures
        lift_opt(r) == element(s@, pos as int, end as int),
        r matches Some((e, _)) ==> pos <= e <= end,
{
    if let Some(e) = lit(s, pos, end, "fire ") {
        return Some((e, Element::Fire));
    }
    if let Some(e) = lit(s, pos, end, "ice ") {
        return Some((e, Element::Ice));
    }
    if let Some(e) = lit(s, pos, end, "wind ") {
        return Some((e, Element::Wind));
    }
    if let Some(e) = lit(s, pos, end, "earth ") {
        return Some((e, Element::Earth));
    }
    if let Some(e) = lit(s, pos, end, "lightning ") {
        return Some((e, Element::Lightning));
    }
    if let Some(e) = lit(s, pos, end, "water ") {
        return Some((e, Element::Water));
    }
    if let Some(e) = lit(s, pos, end, "light ") {
        return Some((e, Element::Light));
    }
    if let Some(e) = lit(s, pos, end, "dark ") {
        return Some((e, Element::Dark));
    }
    None
}

pub fn parse_card_kind(s: &Vec<char>, pos: usize, end: usize) -> (r: Option<(usize, CardKind)>)
    requires
        end <= s@.len(),
    ensures
        lift_opt(r) == card_kind(s@, pos as int, end as int),
        r matches Some((e, _)) ==> pos <= e <= end,
{
    if let Some(e) = lit(s, pos, end, "forwards") {
        return Some((e, CardKind::Forward));
    }
    if let Some(e) = lit(s, pos, end, "forward") {
        return Some((e, CardKind::Forward));
    }
    if let Some(e) = lit(s, pos, end, "backups") {
        return Some((e, CardKind::Backup));
    }
    if let Some(e) = lit(s, pos, end, "backup") {
        return Some((e, CardKind::Backup));
    }
    if let Some(e) = lit(s, pos, end, "characters") {
        return Some((e, CardKind::Character));
    }
    if let Some(e) = lit(s, pos, end, "character") {
        return Some((e, CardKind::Character));
    }
    if let Some(e) = lit(s, pos, end, "monsters") {
        return Some((e, CardKind::Monster));
    }
    if let Some(e) = lit(s, pos, end, "monster") {
        return Some((e, CardKind::Monster));
    }
    if let Some(e) = lit(s, pos, end, "summons") {
        return Some((e, CardKind::Summon));
    }
    if let Some(e) = lit(s, pos, end, "summon") {
        return Some((e, CardKind::Summon));
    }
    if let Some(e) = lit(s, pos, end, "cards") {
        return Some((e, CardKind::Card));
    }
    if let Some(e) = lit(s, pos, end, "card") {
        return Some((e, CardKind::Card));
    }
    None
}

pub fn parse_filter(s: &Vec<char>, pos: usize, end: usize) -> (r: Option<(usize, Filter)>)
    requires
        end <= s@.len(),
    ensures
        lift_opt(r) == filter(s@, pos as int, end as int),
        r matches Some((e, _)) ==> pos <= e <= end,
{
    match parse_element(s, pos, end) {
        Some((e, el)) => match parse_card_kind(s, e, end) {
            Some((k, c)) => Some((k, Filter { element: Some(el), kind: c })),
            None => None,
        },
        None => match parse_card_kind(s, pos, end) {
            Some((k, c)) => Some((k, Filter { element: None, kind: c })),
            None => None,
        },
    }
}

pub fn parse_controller(s: &Vec<char>, pos: usize, end: usize) -> (r: (usize, Controller))
    requires
        pos <= end <= s@.len(),
    ensures
        (r.0 as int, r.1) == controller(s@, pos as int, end as int),
        pos <= r.0 <= end,
{
    if let Some(e) = lit(s, pos, end, " your opponent controls") {
        return (e, Controller::Opponent);
    }
    if let Some(e) = lit(s, pos, end, " you control") {
        return (e, Controller::You);
    }
    (pos, Controller::Anyone)
}

fn parse_group(s: &Vec<char>, pos: usize, end: usize, card: Cardinality) -> (r: Option<(usize, Target)>)
    requires
        pos <= end <= s@.len(),
    ensures
        lift_opt(r) == group(s@, pos as int, end as int, card),
        r matches Some((e, _)) ==> pos <= e <= end,
{
    match parse_filter(s, pos, end) {
        Some((e, f)) => {
            let (e2, c) = parse_controller(s, e, end);
            Some((e2, Target::Group { cardinality: card, filter: f, controller: c }))
        },
        None => None,
    }
}

fn parse_counted_group(s: &Vec<char>, pos: usize, end: usize, up_to: bool) -> (r: Option<(usize, Target)>)
    requires
        pos <= end <= s@.len(),
    ensures
        lift_opt(r) == counted_group(s@, pos as int, end as int, up_to),
        r matches Some((e, _)) ==> pos <= e <= end,
{
    match parse_count(s, pos, end) {
        Ok((e, c)) => match lit(s, e, end, " ") {
            Some(e1) => {
                let card = if up_to { Cardinality::UpTo(c) } else { Cardinality::Exactly(c) };
                parse_group(s, e1, end, card)
            },
            None => None,
        },
        Err(_) => None,
    }
}

pub fn parse_card_name_ref(s: &Vec<char>, pos: usize, end: usize) -> (r: Option<(usize, Target)>)
    requires
        pos <= end <= s@.len(),
    ensures
        lift_opt(r) == card_name_ref(s@, pos as int, end as int),
        r matches Some((e, _)) ==> pos <= e <= end,
{
    let p = match lit(s, pos, end, "[card name (") {
        Some(p) => p,
        None => return None,
    };
    let k = find_lit(s, p, end, ")]");
    if p < k && k < end {
        proof {
            lemma_find_bounds(s@, p as int, end as int, ")]"@);
        }
        match lit(s, k, end, ")]") {
            Some(e) => Some((e, Target::Named { name: Span { start: p, end: k } })),
            None => None,
        }
    } else {
        None
    }
}

pub fn parse_target(s: &Vec<char>, pos: usize, end: usize) -> (r: Option<(usize, Target)>)
    requires
        pos <= end <= s@.len(),
    ensures
        lift_opt(r) == target(s@, pos as int, end as int),
        r matches Some((e, _)) ==> pos <= e <= end,
{
    if lit(s, pos, end, "[card name (").is_some() {
        return parse_card_name_ref(s, pos, end);
    }
    if let Some(e) = lit(s, pos, end, "them") {
        return Some((e, Target::Them));
    }
    if let Some(e) = lit(s, pos, end, "it") {
        return Some((e, Target::It));
    }
    if let Some(e) = lit(s, pos, end, "all the ") {
        return parse_group(s, e, end, Cardinality::All);
    }
    if let Some(e) = lit(s, pos, end, "all ") {
        return parse_group(s, e, end, Cardinality::All);
    }
    if let Some(e) = lit(s, pos, end, "the ") {
        return parse_group(s, e, end, Cardinality::All);
    }
    if let Some(e) = lit(s, pos, end, "up to ") {
        return parse_counted_group(s, e, end, true);
    }
    parse_counted_group(s, pos, end, false)
}

pub fn parse_event(s: &Vec<char>, pos: usize, end: usize) -> (r: Option<(usize, Event)>)
    requires
        end <= s@.len(),
    ensures
        lift_opt(r) == event(s@, pos as int, end as int),
        r matches Some((e, _)) ==> pos <= e <= end,
{
    if let Some(e) = lit(s, pos, end, "enters the field") {
        return Some((e, Event::EntersTheField));
    }
    if let Some(e) = lit(s, pos, end, "attacks") {
        return Some((e, Event::Attacks));
    }
    if let Some(e) = lit(s, pos, end, "leaves the field") {
        return Some((e, Event::LeavesTheField));
    }
    if let Some(e) = lit(s, pos, end, "is chosen by your opponent's ability") {
        return Some((e, Event::IsChosen));
    }
    if let Some(e) = lit(s, pos, end, "is put from the field into the break zone") {
        return Some((e, Event::IsPutIntoBreakZone));
    }
    if let Some(e) = lit(s, pos, end, "is cast") {
        return Some((e, Event::IsCast));
    }
    None
}

pub fn parse_predicate(s: &Vec<char>, pos: usize, end: usize) -> (r: Option<(usize, Predicate)>)
    requires
        end <= s@.len(),
    ensures
        lift_opt(r) == predicate(s@, pos as int, end as int),
        r matches Some((e, _)) ==> pos <= e <= end,
{
    match parse_event(s, pos, end) {
        Some((e, ev)) => match lit(s, e, end, " or ") {
            Some(o) => match parse_event(s, o, end) {
                Some((e2, ev2)) => Some((e2, Predicate::Either(ev, ev2))),
                None => Some((e, Predicate::Single(ev))),
            },
            None => Some((e, Predicate::Single(ev))),
        },
        None => None,
    }
}

pub fn parse_gate(s: &Vec<char>, pos: usize, end: usize) -> (r: Option<(usize, Gate)>)
    requires
        end <= s@.len(),
    ensures
        lift_opt(r) == gate(s@, pos as int, end as int),
        r matches Some((e, _)) ==> pos <= e <= end,
{
    if let Some(p) = lit(s, pos, end, "you control ") {
        return match parse_count(s, p, end) {
            Ok((e, c)) => match lit(s, e, end, " or more ") {
                Some(m) => match parse_filter(s, m, end) {
                    Some((e2, f)) => Some((e2, Gate::Count { filter: f, min: c })),
                    None => None,
                },
                None => None,
            },
            Err(_) => None,
        };
    }
    if let Some(p) = lit(s, pos, end, "you have cast ") {
        return match parse_count(s, p, end) {
            Ok((e, c)) => match lit(s, e, end, " ") {
                Some(m) => match parse_filter(s, m, end) {
                    Some((e2, f)) => match lit(s, e2, end, " this turn") {
                        Some(e3) => Some((e3, Gate::CastThisTurn { filter: f, min: c })),
                        None => None,
                    },
                    None => None,
                },
                None => None,
            },
            Err(_) => None,
        };
    }
    None
}

pub fn parse_condition(s: &Vec<char>, pos: usize, end: usize) -> (r: Option<(usize, Condition)>)
    requires
        end <= s@.len(),
    ensures
        lift_opt(r) == condition(s@, pos as int, end as int),
        r matches Some((e, _)) ==> pos <= e <= end,
{
    let p = match lit(s, pos, end, "if ") {
        Some(p) => p,
        None => return None,
    };
    let (e, g) = match parse_gate(s, p, end) {
        Some(x) => x,
        None => return None,
    };
    if let Some(a) = lit(s, e, end, " and ") {
        if let Some((e2, g2)) = parse_gate(s, a, end) {
            return Some((e2, Condition::Both(g, g2)));
        }
    }
    if let Some(o) = lit(s, e, end, " or ") {
        if let Some((e2, g2)) = parse_gate(s, o, end) {
            return Some((e2, Condition::Either(g, g2)));
        }
    }
    Some((e, Condition::Single(g)))
}

} // verus!
