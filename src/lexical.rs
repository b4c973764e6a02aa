//! Lexical primitives: literals, numbers, counts and words over a window
//! `[pos, end)` of the text's characters.
use vstd::prelude::*;

use crate::model::{Count, ErrorKind};

verus! {

/// The largest count that the game's templates use.
pub const MAX_COUNT: u32 = 255;

/// Converts an executable position result to its spec counterpart.
pub open spec fn opt_int(r: Option<usize>) -> Option<int> {
    match r {
        Some(e) => Some(e as int),
        None => None,
    }
}

/// Converts an executable parse result to its spec counterpart.
pub open spec fn lift<T>(r: Result<(usize, T), ErrorKind>) -> Result<(int, T), ErrorKind> {
    match r {
        Ok((e, v)) => Ok((e as int, v)),
        Err(k) => Err(k),
    }
}

pub open spec fn lift_number(r: Result<(usize, u32), ErrorKind>) -> Result<(int, nat), ErrorKind> {
    match r {
        Ok((e, v)) => Ok((e as int, v as nat)),
        Err(k) => Err(k),
    }
}

/// `c` is the letter `w` (lower case in templates), in either case.
pub open spec fn letter_eq(c: char, w: char) -> bool {
    c == w || ('a' <= w && w <= 'z' && c as u32 + 32 == w as u32)
}

/// A space or a tab.
pub open spec fn is_blank(c: char) -> bool {
    c == ' ' || c == '\t'
}

/// The end of the run of blanks that starts at `pos`.
pub open spec fn blank_end(s: Seq<char>, pos: int, end: int) -> int
    decreases end - pos,
{
    if 0 <= pos < end && is_blank(s[pos]) {
        blank_end(s, pos + 1, end)
    } else {
        pos
    }
}

/// Matches `w[j..]` at `pos` inside `[pos, end)`: a letter matches itself in
/// either case, and a space matches a whole run of one or more spaces or tabs.
pub open spec fn lit_from(s: Seq<char>, pos: int, end: int, w: Seq<char>, j: int) -> Option<int>
    decreases w.len() - j,
{
    if j >= w.len() {
        if 0 <= pos <= end && end <= s.len() {
            Some(pos)
        } else {
            None
        }
    } else if !(0 <= pos < end && end <= s.len()) {
        None
    } else if w[j] == ' ' {
        if is_blank(s[pos]) {
            lit_from(s, blank_end(s, pos + 1, end), end, w, j + 1)
        } else {
            None
        }
    } else if letter_eq(s[pos], w[j]) {
        lit_from(s, pos + 1, end, w, j + 1)
    } else {
        None
    }
}

/// Where the template `w` ends when it stands at `pos`.
pub open spec fn lit_end(s: Seq<char>, pos: int, end: int, w: Seq<char>) -> Option<int> {
    lit_from(s, pos, end, w, 0)
}

/// The template `w` stands at `pos` inside `[pos, end)`.
pub open spec fn lit_in(s: Seq<char>, pos: int, end: int, w: Seq<char>) -> bool {
    lit_end(s, pos, end, w) is Some
}

/// The position after the template `w` at `pos` (`pos` itself when it does not stand there).
pub open spec fn lit_after(s: Seq<char>, pos: int, end: int, w: Seq<char>) -> int {
    match lit_end(s, pos, end, w) {
        Some(e) => e,
        None => pos,
    }
}

pub proof fn lemma_blank_end_bounds(s: Seq<char>, pos: int, end: int)
    ensures
        pos <= end ==> pos <= blank_end(s, pos, end) <= end,
    decreases end - pos,
{
    if 0 <= pos < end && is_blank(s[pos]) {
        lemma_blank_end_bounds(s, pos + 1, end);
    }
}

pub proof fn lemma_lit_from_bounds(s: Seq<char>, pos: int, end: int, w: Seq<char>, j: int)
    requires
        0 <= j <= w.len(),
    ensures
        lit_from(s, pos, end, w, j) matches Some(e) ==> pos + (w.len() - j) <= e <= end && end <= s.len(),
    decreases w.len() - j,
{
    if j < w.len() && 0 <= pos < end && end <= s.len() {
        if w[j] == ' ' {
            lemma_blank_end_bounds(s, pos + 1, end);
            lemma_lit_from_bounds(s, blank_end(s, pos + 1, end), end, w, j + 1);
        } else {
            lemma_lit_from_bounds(s, pos + 1, end, w, j + 1);
        }
    }
}

/// A template ends after at least as many characters as it has, and inside the window.
pub proof fn lemma_lit_bounds(s: Seq<char>, pos: int, end: int, w: Seq<char>)
    ensures
        lit_end(s, pos, end, w) matches Some(e) ==> pos + w.len() <= e <= end && end <= s.len(),
        lit_in(s, pos, end, w) ==> pos + w.len() <= lit_after(s, pos, end, w) <= end,
{
    lemma_lit_from_bounds(s, pos, end, w, 0);
}

/// The first position `i >= pos` where `w` stands inside `[pos, end)`, or `end`.
pub open spec fn find(s: Seq<char>, pos: int, end: int, w: Seq<char>) -> int
    decreases end - pos,
{
    if pos >= end {
        end
    } else if lit_in(s, pos, end, w) {
        pos
    } else {
        find(s, pos + 1, end, w)
    }
}

pub open spec fn is_digit(c: char) -> bool {
    '0' <= c && c <= '9'
}

pub open spec fn digit_value(c: char) -> nat {
    (c as u32 - '0' as u32) as nat
}

/// The end of the run of digits that starts at `pos`.
pub open spec fn digits_end(s: Seq<char>, pos: int, end: int) -> int
    decreases end - pos,
{
    if 0 <= pos < end && is_digit(s[pos]) {
        digits_end(s, pos + 1, end)
    } else {
        pos
    }
}

/// The decimal value of the characters in `[a, e)`.
pub open spec fn digits_value(s: Seq<char>, a: int, e: int) -> nat
    decreases e - a,
{
    if e <= a {
        0
    } else {
        digits_value(s, a, e - 1) * 10 + digit_value(s[e - 1])
    }
}

/// An unsigned number of at most `max`: one or more digits. A larger value is
/// `CountOutOfRange`, never a truncation.
pub open spec fn number(s: Seq<char>, pos: int, end: int, max: nat) -> Result<(int, nat), ErrorKind> {
    let e = digits_end(s, pos, end);
    if e == pos {
        Err(ErrorKind::SyntaxMismatch)
    } else if digits_value(s, pos, e) > max {
        Err(ErrorKind::CountOutOfRange)
    } else {
        Ok((e, digits_value(s, pos, e)))
    }
}

/// A count: `_` is the unspecified count, otherwise a number of at most `MAX_COUNT`.
pub open spec fn count(s: Seq<char>, pos: int, end: int) -> Result<(int, Count), ErrorKind> {
    if 0 <= pos < end && s[pos] == '_' {
        Ok((pos + 1, Count::Unspecified))
    } else {
        match number(s, pos, end, MAX_COUNT as nat) {
            Ok((e, v)) => Ok((e, Count::Exactly(v as u8))),
            Err(k) => Err(k),
        }
    }
}

pub open spec fn is_word_char(c: char) -> bool {
    ('a' <= c && c <= 'z') || ('A' <= c && c <= 'Z') || c == '\'' || c == '-'
}

/// The end of the run of word characters that starts at `pos`.
pub open spec fn word_end(s: Seq<char>, pos: int, end: int) -> int
    decreases end - pos,
{
    if 0 <= pos < end && is_word_char(s[pos]) {
        word_end(s, pos + 1, end)
    } else {
        pos
    }
}

pub proof fn lemma_find_bounds(s: Seq<char>, pos: int, end: int, w: Seq<char>)
    requires
        pos <= end,
    ensures
        pos <= find(s, pos, end, w) <= end,
        find(s, pos, end, w) < end ==> lit_in(s, find(s, pos, end, w), end, w),
    decreases end - pos,
{
    if pos < end && !lit_in(s, pos, end, w) {
        lemma_find_bounds(s, pos + 1, end, w);
    }
}

pub proof fn lemma_digits_end_bounds(s: Seq<char>, pos: int, end: int)
    ensures
        pos <= end ==> pos <= digits_end(s, pos, end) <= end,
    decreases end - pos,
{
    if 0 <= pos < end && is_digit(s[pos]) {
        lemma_digits_end_bounds(s, pos + 1, end);
    }
}

pub proof fn lemma_word_end_bounds(s: Seq<char>, pos: int, end: int)
    ensures
        pos <= end ==> pos <= word_end(s, pos, end) <= end,
    decreases end - pos,
{
    if 0 <= pos < end && is_word_char(s[pos]) {
        lemma_word_end_bounds(s, pos + 1, end);
    }
}

proof fn lemma_digits_value_mono(s: Seq<char>, a: int, i: int, e: int)
    requires
        a <= i <= e,
    ensures
        digits_value(s, a, i) <= digits_value(s, a, e),
    decreases e - i,
{
    if i < e {
        lemma_digits_value_mono(s, a, i, e - 1);
    }
}

/// The end of the run of blanks that starts at `pos`.
pub fn skip_blanks(s: &Vec<char>, pos: usize, end: usize) -> (r: usize)
    requires
        pos <= end <= s@.len(),
    ensures
        r as int == blank_end(s@, pos as int, end as int),
        pos <= r <= end,
{
    proof {
        lemma_blank_end_bounds(s@, pos as int, end as int);
    }
    let mut i = pos;
    while i < end && (s[i] == ' ' || s[i] == '\t')
        invariant
            pos <= i <= end <= s@.len(),
            blank_end(s@, i as int, end as int) == blank_end(s@, pos as int, end as int),
        decreases end - i,
    {
        i += 1;
    }
    i
}

/// Matches the template `w` (written in lower case) at `pos`.
pub fn lit(s: &Vec<char>, pos: usize, end: usize, w: &str) -> (r: Option<usize>)
    requires
        end <= s@.len(),
    ensures
        opt_int(r) == lit_end(s@, pos as int, end as int, w@),
        r matches Some(e) ==> pos + w@.len() <= e <= end,
{
    proof {
        lemma_lit_bounds(s@, pos as int, end as int, w@);
    }
    let n = w.unicode_len();
    if pos > end {
        return None;
    }
    let mut i = pos;
    let mut j: usize = 0;
    while j < n
        invariant
            n == w@.len(),
            pos <= i <= end <= s@.len(),
            j <= n,
            lit_from(s@, i as int, end as int, w@, j as int) == lit_end(s@, pos as int, end as int, w@),
        decreases n - j,
    {
        if i >= end {
            return None;
        }
        let c = s[i];
        let d = w.get_char(j);
        if d == ' ' {
            if c == ' ' || c == '\t' {
                i = skip_blanks(s, i + 1, end);
            } else {
                return None;
            }
        } else if c == d || ('a' <= d && d <= 'z' && c as u32 == (d as u32) - 32) {
            i += 1;
        } else {
            return None;
        }
        j += 1;
    }
    Some(i)
}

/// Finds the first position at or after `pos` where `w` stands, or `end`.
pub fn find_lit(s: &Vec<char>, pos: usize, end: usize, w: &str) -> (r: usize)
    requires
        pos <= end <= s@.len(),
    ensures
        r as int == find(s@, pos as int, end as int, w@),
        pos <= r <= end,
{
    proof {
        lemma_find_bounds(s@, pos as int, end as int, w@);
    }
    let mut i = pos;
    while i < end
        invariant
            pos <= i <= end,
            end <= s@.len(),
            find(s@, i as int, end as int, w@) == find(s@, pos as int, end as int, w@),
        decreases end - i,
    {
        if lit(s, i, end, w).is_some() {
            return i;
        }
        i += 1;
    }
    i
}

/// The largest damage or stat amount accepted.
pub const MAX_AMOUNT: u32 = 99_999;

/// Parses a number of at most `max`.
pub fn parse_number(s: &Vec<char>, pos: usize, end: usize, max: u32) -> (r: Result<(usize, u32), ErrorKind>)
    requires
        pos <= end <= s@.len(),
        max <= 429_496_728,
    ensures
        lift_number(r) == number(s@, pos as int, end as int, max as nat),
        r matches Ok((e, _)) ==> pos < e <= end,
{
    let ghost full = digits_end(s@, pos as int, end as int);
    proof {
        lemma_digits_end_bounds(s@, pos as int, end as int);
    }
    let mut i = pos;
    let mut v: u32 = 0;
    while i < end && '0' <= s[i] && s[i] <= '9'
        invariant
            pos <= i <= end,
            end <= s@.len(),
            full == digits_end(s@, pos as int, end as int),
            digits_end(s@, i as int, end as int) == full,
            i <= full,
            v as nat == digits_value(s@, pos as int, i as int),
            v <= max,
            max <= 429_496_728,
        decreases end - i,
    {
        let d = (s[i] as u32) - ('0' as u32);
        let nv = v * 10 + d;
        proof {
            lemma_digits_end_bounds(s@, i as int + 1, end as int);
            assert(digits_end(s@, i as int, end as int) == digits_end(s@, i as int + 1, end as int));
            assert(digits_value(s@, pos as int, i as int + 1) == nv as nat);
        }
        if nv > max {
            proof {
                lemma_digits_value_mono(s@, pos as int, i as int + 1, full);
                assert(full != pos);
                assert(digits_value(s@, pos as int, full) > max);
            }
            return Err(ErrorKind::CountOutOfRange);
        }
        v = nv;
        i += 1;
    }
    if i == pos {
        Err(ErrorKind::SyntaxMismatch)
    } else {
        Ok((i, v))
    }
}

/// Parses a count: `_` or a number of at most `MAX_COUNT`.
pub fn parse_count(s: &Vec<char>, pos: usize, end: usize) -> (r: Result<(usize, Count), ErrorKind>)
    requires
        pos <= end <= s@.len(),
    ensures
        lift(r) == count(s@, pos as int, end as int),
        r matches Ok((e, _)) ==> pos < e <= end,
{
    if pos < end && s[pos] == '_' {
        return Ok((pos + 1, Count::Unspecified));
    }
    match parse_number(s, pos, end, MAX_COUNT) {
        Ok((e, v)) => Ok((e, Count::Exactly(v as u8))),
        Err(k) => Err(k),
    }
}

/// The end of the word that starts at `pos` (equal to `pos` when none does).
pub fn scan_word(s: &Vec<char>, pos: usize, end: usize) -> (r: usize)
    requires
        pos <= end <= s@.len(),
    ensures
        r as int == word_end(s@, pos as int, end as int),
        pos <= r <= end,
{
    proof {
        lemma_word_end_bounds(s@, pos as int, end as int);
    }
    let mut i = pos;
    while i < end && (('a' <= s[i] && s[i] <= 'z') || ('A' <= s[i] && s[i] <= 'Z') || s[i] == '\''
        || s[i] == '-')
        invariant
            pos <= i <= end,
            end <= s@.len(),
            word_end(s@, i as int, end as int) == word_end(s@, pos as int, end as int),
        decreases end - i,
    {
        i += 1;
    }
    i
}

} // verus!
