//! The printed form of a draw, and the law that parsing it gives the draw back.
use vstd::prelude::*;

use crate::actions::{action, draw_phrase};
use crate::statement::{statement, consequence, sub_clause};
use crate::lexical::{
    blank_end, count, find, letter_eq, lit_in, digit_value, digits_end, digits_value, is_blank, is_digit, lit_end, lit_from, number, MAX_COUNT,
};
use crate::model::{Action, Count, Diagnostic, ErrorKind, Step, StatementModel};

verus! {

pub open spec fn digit_char(d: nat) -> char {
    if d == 0 {
        '0'
    } else if d == 1 {
        '1'
    } else if d == 2 {
        '2'
    } else if d == 3 {
        '3'
    } else if d == 4 {
        '4'
    } else if d == 5 {
        '5'
    } else if d == 6 {
        '6'
    } else if d == 7 {
        '7'
    } else if d == 8 {
        '8'
    } else {
        '9'
    }
}

/// The decimal digits of `n`, without leading zeros.
pub open spec fn digits_of(n: nat) -> Seq<char>
    decreases n,
{
    if n < 10 {
        seq![digit_char(n)]
    } else {
        digits_of(n / 10).push(digit_char(n % 10))
    }
}

/// A count as printed: its digits, or `_`.
pub open spec fn count_text(c: Count) -> Seq<char> {
    match c {
        Count::Exactly(n) => digits_of(n as nat),
        Count::Unspecified => seq!['_'],
    }
}

/// The printed draw: `draw <count> cards`.
pub open spec fn draw_text(c: Count) -> Seq<char> {
    "draw "@ + count_text(c) + " cards"@
}

/// A template with no tab and no two spaces in a row.
pub open spec fn single_spaced(w: Seq<char>) -> bool {
    &&& forall|k: int| 0 <= k < w.len() ==> #[trigger] w[k] != '\t'
    &&& forall|k: int| 0 <= k && k + 1 < w.len() && #[trigger] w[k] == ' ' ==> w[k + 1] != ' '
}

proof fn lemma_digit_char(d: nat)
    requires
        d < 10,
    ensures
        is_digit(digit_char(d)),
        digit_value(digit_char(d)) == d,
{
}

proof fn lemma_digits_of(n: nat)
    ensures
        digits_of(n).len() >= 1,
        forall|i: int| 0 <= i < digits_of(n).len() ==> is_digit(#[trigger] digits_of(n)[i]),
    decreases n,
{
    if n < 10 {
        lemma_digit_char(n);
    } else {
        lemma_digits_of(n / 10);
        lemma_digit_char(n % 10);
        assert forall|i: int| 0 <= i < digits_of(n).len() implies is_digit(#[trigger] digits_of(n)[i]) by {
            if i < digits_of(n / 10).len() {
                assert(digits_of(n)[i] == digits_of(n / 10)[i]);
            }
        }
    }
}

proof fn lemma_digits_value(s: Seq<char>, a: int, n: nat)
    requires
        0 <= a,
        a + digits_of(n).len() <= s.len(),
        s.subrange(a, a + digits_of(n).len()) == digits_of(n),
    ensures
        digits_value(s, a, a + digits_of(n).len()) == n,
    decreases n,
{
    let e = a + digits_of(n).len();
    assert(s[e - 1] == digits_of(n)[digits_of(n).len() - 1]);
    if n < 10 {
        lemma_digit_char(n);
        assert(digits_value(s, a, a) == 0);
    } else {
        let m = n / 10;
        lemma_digit_char(n % 10);
        assert(s.subrange(a, a + digits_of(m).len()) =~= digits_of(m)) by {
            assert forall|i: int| 0 <= i < digits_of(m).len() implies s.subrange(a, a + digits_of(m).len())[i]
                == digits_of(m)[i] by {
                assert(s[a + i] == digits_of(n)[i]);
            }
        }
        lemma_digits_value(s, a, m);
        assert(n == m * 10 + n % 10);
    }
}

proof fn lemma_digits_end(s: Seq<char>, i: int, e: int, end: int)
    requires
        0 <= i <= e <= end <= s.len(),
        forall|j: int| i <= j < e ==> is_digit(#[trigger] s[j]),
        e == end || !is_digit(s[e]),
    ensures
        digits_end(s, i, end) == e,
    decreases e - i,
{
    if i < e {
        lemma_digits_end(s, i + 1, e, end);
    }
}

/// A printed count reads back as that count.
proof fn lemma_count_text(s: Seq<char>, pos: int, end: int, c: Count)
    requires
        0 <= pos,
        pos + count_text(c).len() <= end <= s.len(),
        s.subrange(pos, pos + count_text(c).len()) == count_text(c),
        pos + count_text(c).len() == end || !is_digit(s[pos + count_text(c).len()]),
    ensures
        count(s, pos, end) == Ok::<(int, Count), ErrorKind>((pos + count_text(c).len(), c)),
        !is_blank(s[pos]),
{
    let t = count_text(c);
    assert(s[pos] == t[0]);
    match c {
        Count::Exactly(n) => {
            lemma_digits_of(n as nat);
            lemma_digit_char(0);
            assert forall|j: int| pos <= j < pos + t.len() implies is_digit(#[trigger] s[j]) by {
                assert(s[j] == t[j - pos]);
            }
            lemma_digits_end(s, pos, pos + t.len(), end);
            lemma_digits_value(s, pos, n as nat);
            assert(number(s, pos, end, MAX_COUNT as nat) == Ok::<(int, nat), ErrorKind>((pos + t.len(), n as nat)));
        },
        Count::Unspecified => {},
    }
}

proof fn lemma_lit_from_at(s: Seq<char>, pos: int, end: int, w: Seq<char>, j: int)
    requires
        0 <= pos,
        0 <= j <= w.len(),
        pos + w.len() <= end <= s.len(),
        s.subrange(pos, pos + w.len()) == w,
        single_spaced(w),
        w.len() > 0 && w[w.len() - 1] == ' ' ==> pos + w.len() < end && !is_blank(s[pos + w.len()]),
    ensures
        lit_from(s, pos + j, end, w, j) == Some(pos + w.len()),
    decreases w.len() - j,
{
    if j < w.len() {
        assert(s[pos + j] == s.subrange(pos, pos + w.len())[j]);
        if w[j] == ' ' {
            if j + 1 < w.len() {
                assert(s[pos + j + 1] == s.subrange(pos, pos + w.len())[j + 1]);
            }
            assert(blank_end(s, pos + j + 1, end) == pos + j + 1);
        }
        lemma_lit_from_at(s, pos, end, w, j + 1);
    }
}

/// A single-spaced template stands where its own characters stand, when a
/// trailing space is not followed by another blank.
proof fn lemma_lit_at(s: Seq<char>, pos: int, end: int, w: Seq<char>)
    requires
        0 <= pos,
        pos + w.len() <= end <= s.len(),
        s.subrange(pos, pos + w.len()) == w,
        single_spaced(w),
        w.len() > 0 && w[w.len() - 1] == ' ' ==> pos + w.len() < end && !is_blank(s[pos + w.len()]),
    ensures
        lit_end(s, pos, end, w) == Some(pos + w.len()),
{
    lemma_lit_from_at(s, pos, end, w, 0);
}

proof fn lemma_draw_head(c: Count)
    ensures
        crate::lexical::lit_after(draw_text(c), 0, draw_text(c).len() as int, "draw "@) == 5,
        crate::lexical::lit_in(draw_text(c), 0, draw_text(c).len() as int, "draw "@),
        crate::actions::draw_head(draw_text(c), 5, draw_text(c).len() as int) == Ok::<(int, Count), Diagnostic>(
            (draw_text(c).len() as int, c),
        ),
{
    reveal_strlit("draw ");
    reveal_strlit(" cards");
    assert("draw "@ =~= seq!['d', 'r', 'a', 'w', ' ']);
    assert(" cards"@ =~= seq![' ', 'c', 'a', 'r', 'd', 's']);
    assert(single_spaced("draw "@));
    assert(single_spaced(" cards"@));
    let s = draw_text(c);
    let end = s.len() as int;
    let t = count_text(c);
    let k = (5 + t.len()) as int;
    assert(s.subrange(5, k) =~= t);
    assert(s[k] == ' ');
    lemma_count_text(s, 5, end, c);
    assert(s.subrange(0, 5) =~= "draw "@);
    lemma_lit_at(s, 0, end, "draw "@);
    assert(s.subrange(k, end) =~= " cards"@);
    lemma_lit_at(s, k, end, " cards"@);
}

/// Parsing the printed draw consumes all of it and gives back its count,
/// both as a phrase and as an action sub-clause.
pub proof fn lemma_draw_round_trip(c: Count)
    ensures
        draw_phrase(draw_text(c), 0, draw_text(c).len() as int) == Ok::<(int, Count), Diagnostic>(
            (draw_text(c).len() as int, c),
        ),
        action(draw_text(c), 0, draw_text(c).len() as int) == Ok::<Action, Diagnostic>(Action::Draw { count: c }),
{
    lemma_draw_head(c);
    reveal(action);
}

/// A template whose first character is no space does not stand at `pos`
/// when that character differs there.
proof fn lemma_not_first(s: Seq<char>, pos: int, end: int, w: Seq<char>)
    requires
        0 <= pos < end <= s.len(),
        w.len() > 0,
        w[0] != ' ',
        !letter_eq(s[pos], w[0]),
    ensures
        !lit_in(s, pos, end, w),
{
}

/// `find` reaches `end` when the separator's first character, which is no
/// letter and no space, occurs nowhere in `[pos, end)`.
proof fn lemma_find_none(s: Seq<char>, pos: int, end: int, w: Seq<char>)
    requires
        0 <= pos <= end <= s.len(),
        w.len() > 0,
        w[0] != ' ',
        !('a' <= w[0] && w[0] <= 'z'),
        forall|i: int| pos <= i < end ==> #[trigger] s[i] != w[0],
    ensures
        find(s, pos, end, w) == end,
    decreases end - pos,
{
    if pos < end {
        lemma_not_first(s, pos, end, w);
        lemma_find_none(s, pos + 1, end, w);
    }
}

/// The printed draw holds no `,` or `:`, starts with `d`, and ends in no
/// ` instead`.
proof fn lemma_draw_text_chars(c: Count)
    ensures
        forall|i: int| 0 <= i < draw_text(c).len() ==> #[trigger] draw_text(c)[i] != ',' && draw_text(c)[i] != ':',
        draw_text(c).len() > 5,
        draw_text(c)[0] == 'd',
        !crate::statement::instead_at(draw_text(c), 0, draw_text(c).len() as int),
{
    reveal_strlit("draw ");
    reveal_strlit(" cards");
    reveal_strlit(" instead");
    assert("draw "@ =~= seq!['d', 'r', 'a', 'w', ' ']);
    assert(" cards"@ =~= seq![' ', 'c', 'a', 'r', 'd', 's']);
    assert(" instead"@ =~= seq![' ', 'i', 'n', 's', 't', 'e', 'a', 'd']);
    let s = draw_text(c);
    let t = count_text(c);
    let end = s.len() as int;
    let k = (5 + t.len()) as int;
    match c {
        Count::Exactly(n) => lemma_digits_of(n as nat),
        Count::Unspecified => {},
    }
    assert forall|i: int| 0 <= i < s.len() implies #[trigger] s[i] != ',' && s[i] != ':' by {
        if 5 <= i < k {
            assert(s[i] == t[i - 5]);
        }
    }
    if end - 8 >= 0 {
        let p = end - 8;
        if t.len() == 1 {
            assert(s[p] == ' ');
            assert(s[5] == t[0]);
            assert(blank_end(s, p + 1, end) == 5);
            assert(lit_from(s, 5, end, " instead"@, 1) is None);
        } else {
            assert(s[p] == t[p - 5]);
            assert(lit_from(s, p, end, " instead"@, 0) is None);
        }
    }
}

/// A printed draw, parsed as a whole statement, is a static ability with
/// exactly that draw.
pub proof fn lemma_draw_statement_round_trip(c: Count)
    ensures
        statement(draw_text(c), 0, draw_text(c).len() as int) == Ok::<StatementModel, Diagnostic>(
            StatementModel::Static {
                condition: None,
                effect: seq![Step { action: Action::Draw { count: c }, optional: false }],
            },
        ),
{
    let s = draw_text(c);
    let end = s.len() as int;
    lemma_draw_round_trip(c);
    lemma_draw_text_chars(c);
    reveal_strlit("whenever ");
    reveal_strlit("when ");
    reveal_strlit("you may ");
    reveal_strlit("if ");
    reveal_strlit(": ");
    reveal_strlit(", then ");
    assert("whenever "@[0] == 'w');
    assert("when "@[0] == 'w');
    assert("you may "@[0] == 'y');
    assert("if "@[0] == 'i');
    assert(": "@[0] == ':');
    assert(", then "@[0] == ',');
    lemma_not_first(s, 0, end, "whenever "@);
    lemma_not_first(s, 0, end, "when "@);
    lemma_not_first(s, 0, end, "you may "@);
    lemma_not_first(s, 0, end, "if "@);
    lemma_find_none(s, 0, end, ": "@);
    lemma_find_none(s, 0, end, ", then "@);
    assert(sub_clause(s, 0, end) == Ok::<Step, Diagnostic>(Step { action: Action::Draw { count: c }, optional: false }));
    assert(consequence(s, 0, end) == Ok::<Seq<Step>, Diagnostic>(seq![Step { action: Action::Draw { count: c }, optional: false }]));
}

} // verus!
