//! PGN game records: the seven required tag pairs (Event, Site, Date,
//! Round, White, Black, Result), their rendering as `[Name "Value"]`
//! lines, and the movetext with its 80-column soft wrap.

use vstd::prelude::*;
use vstd::string::StrSliceExecFns;
use vstd::string::StringExecFns;
use crate::chess_common::ChessTurn;
use crate::chess_move::{spec_format_move, format_move, ChessMove};
use crate::move_list::{MoveList, PgnMove};
use crate::text::{
    dec_digits, find_char, is_ws, leading_ws_end, parse_u32_range, parse_u32_spec, push_char,
    trailing_ws_start, trim_spec, u64_to_string,
};

verus! {

broadcast use vstd::seq::group_seq_axioms;

/// The outcome recorded in a game's Result tag.
#[derive(Clone, Copy, Debug, PartialEq, Eq, Structural)]
pub enum PgnResult {
    WhiteWin,
    BlackWin,
    Draw,
    Unknown,
}

impl PgnResult {
    /// The result token: `1-0`, `0-1`, `1/2-1/2`, or `*` when unknown.
    pub open spec fn spec_text(self) -> Seq<char> {
        match self {
            PgnResult::WhiteWin => seq!['1', '-', '0'],
            PgnResult::BlackWin => seq!['0', '-', '1'],
            PgnResult::Draw => seq!['1', '/', '2', '-', '1', '/', '2'],
            PgnResult::Unknown => seq!['*'],
        }
    }

    pub fn to_text(&self) -> (r: String)
        ensures
            r@ == self.spec_text(),
    {
        let mut out = String::new();
        match self {
            PgnResult::WhiteWin => {
                push_char(&mut out, '1');
                push_char(&mut out, '-');
                push_char(&mut out, '0');
            },
            PgnResult::BlackWin => {
                push_char(&mut out, '0');
                push_char(&mut out, '-');
                push_char(&mut out, '1');
            },
            PgnResult::Draw => {
                push_char(&mut out, '1');
                push_char(&mut out, '/');
                push_char(&mut out, '2');
                push_char(&mut out, '-');
                push_char(&mut out, '1');
                push_char(&mut out, '/');
                push_char(&mut out, '2');
            },
            PgnResult::Unknown => {
                push_char(&mut out, '*');
            },
        }
        assert(out@ =~= self.spec_text());
        out
    }
}

/// A numeral padded with leading zeros up to the given width.
pub open spec fn zero_padded(s: Seq<char>, width: int) -> Seq<char> {
    if s.len() >= width {
        s
    } else {
        Seq::new((width - s.len()) as nat, |i: int| '0') + s
    }
}

/// Writes `n` in decimal, zero-padded to at least `width` characters.
fn push_padded_u64(out: &mut String, n: u64, width: usize)
    ensures
        final(out)@ == old(out)@ + zero_padded(dec_digits(n as int), width as int),
{
    let ghost base = out@;
    let digits = u64_to_string(n);
    let len = digits.as_str().unicode_len();
    let ghost padded = zero_padded(dec_digits(n as int), width as int);
    if len < width {
        let mut k: usize = 0;
        while k < width - len
            invariant
                0 <= k <= width - len,
                len == dec_digits(n as int).len(),
                len < width,
                out@ == base + Seq::new(k as nat, |i: int| '0'),
            decreases width - len - k,
        {
            push_char(out, '0');
            assert(out@ =~= base + Seq::new((k + 1) as nat, |i: int| '0'));
            k += 1;
        }
        out.append(digits.as_str());
        assert(out@ =~= base + padded);
    } else {
        out.append(digits.as_str());
        assert(out@ =~= base + padded);
    }
}

/// The date recorded in a game's Date tag; unknown components render
/// as question marks.
#[derive(Clone, Copy, Debug, PartialEq, Eq, Structural)]
pub struct PgnDate {
    pub year: Option<i32>,
    pub month: Option<u8>,
    pub day: Option<u8>,
}

/// The text of a year: at least four digits, sign first when negative.
pub open spec fn year_text(y: i32) -> Seq<char> {
    if y >= 0 {
        zero_padded(dec_digits(y as int), 4)
    } else {
        seq!['-'] + zero_padded(dec_digits(-(y as int)), 3)
    }
}

impl PgnDate {
    /// The tag text of this date: `YYYY.MM.DD` with `????` and `??`
    /// standing for unknown components.
    pub open spec fn spec_text(self) -> Seq<char> {
        (match self.year {
            Some(y) => year_text(y),
            None => seq!['?', '?', '?', '?'],
        }) + seq!['.'] + (match self.month {
            Some(m) => zero_padded(dec_digits(m as int), 2),
            None => seq!['?', '?'],
        }) + seq!['.'] + (match self.day {
            Some(d) => zero_padded(dec_digits(d as int), 2),
            None => seq!['?', '?'],
        })
    }

    pub fn new(year: Option<i32>, month: Option<u8>, day: Option<u8>) -> (r: PgnDate)
        ensures
            r == (PgnDate { year, month, day }),
    {
        PgnDate { year, month, day }
    }

    pub fn to_text(&self) -> (r: String)
        ensures
            r@ == self.spec_text(),
    {
        let mut out = String::new();
        match self.year {
            Some(y) => {
                if y >= 0 {
                    push_padded_u64(&mut out, y as u64, 4);
                    assert(out@ =~= year_text(y));
                } else {
                    push_char(&mut out, '-');
                    let a = -(y as i64);
                    push_padded_u64(&mut out, a as u64, 3);
                    assert(out@ =~= year_text(y));
                }
            },
            None => {
                push_char(&mut out, '?');
                push_char(&mut out, '?');
                push_char(&mut out, '?');
                push_char(&mut out, '?');
                assert(out@ =~= seq!['?', '?', '?', '?']);
            },
        }
        let ghost part1 = out@;
        push_char(&mut out, '.');
        match self.month {
            Some(m) => {
                push_padded_u64(&mut out, m as u64, 2);
            },
            None => {
                push_char(&mut out, '?');
                push_char(&mut out, '?');
            },
        }
        let ghost part2 = out@;
        assert(part2 =~= part1 + seq!['.'] + (match self.month {
            Some(m) => zero_padded(dec_digits(m as int), 2),
            None => seq!['?', '?'],
        }));
        push_char(&mut out, '.');
        match self.day {
            Some(d) => {
                push_padded_u64(&mut out, d as u64, 2);
            },
            None => {
                push_char(&mut out, '?');
                push_char(&mut out, '?');
            },
        }
        assert(out@ =~= part2 + seq!['.'] + (match self.day {
            Some(d) => zero_padded(dec_digits(d as int), 2),
            None => seq!['?', '?'],
        }));
        assert(out@ =~= self.spec_text());
        out
    }

    /// The date of the local clock, or a fully unknown date when the
    /// local offset cannot be determined.
    pub fn now() -> (r: PgnDate)
        ensures
            r.year is Some <==> r.month is Some,
            r.year is Some <==> r.day is Some,
            r.month is Some ==> 1 <= r.month->0 <= 12,
            r.day is Some ==> 1 <= r.day->0 <= 31,
    {
        match current_local_date() {
            Some((y, m, d)) => PgnDate { year: Some(y), month: Some(m), day: Some(d) },
            None => PgnDate { year: None, month: None, day: None },
        }
    }
}

/// Relies on `time::OffsetDateTime::now_local` and its `year`, `month`
/// and `day` accessors: `month` is one of twelve calendar months,
/// numbered 1 to 12, and `day` is documented to lie in 1 to 31. Nothing
/// else is taken from the clock's answer, which depends on when and
/// where it runs.
#[verifier::external_body]
fn current_local_date() -> (r: Option<(i32, u8, u8)>)
    ensures
        r is Some ==> 1 <= (r->0).1 <= 12 && 1 <= (r->0).2 <= 31,
{
    match time::OffsetDateTime::now_local() {
        Ok(t) => Some((t.year(), t.month() as u8, t.day())),
        Err(_) => None,
    }
}

/// Why a round string was rejected: a piece of it is not an unsigned
/// number.
#[derive(Clone, Copy, Debug, PartialEq, Eq, Structural)]
pub enum PgnRoundParseError {
    InvalidNumber,
}

/// The round recorded in a game's Round tag: one or more numbers
/// separated by dots for a multi-stage event, or a marker for an
/// unknown or inappropriate round.
#[derive(Debug)]
pub enum PgnRound {
    Known(Vec<u32>),
    Unknown,
    Inappropriate,
}

/// The text of a round list: the numbers joined by dots.
pub open spec fn rounds_text(rs: Seq<u32>) -> Seq<char>
    decreases rs.len(),
{
    if rs.len() == 0 {
        Seq::empty()
    } else if rs.len() == 1 {
        dec_digits(rs[0] as int)
    } else {
        rounds_text(rs.drop_last()) + seq!['.'] + dec_digits(rs.last() as int)
    }
}

/// How a round string is read, after trimming: dot-separated pieces,
/// each of which must parse as an unsigned number.
pub open spec fn parse_rounds_from(s: Seq<char>, i: int) -> Option<Seq<u32>>
    decreases s.len() - i,
    via parse_rounds_from_decreases
{
    if !(0 <= i <= s.len()) {
        None
    } else {
        let j = find_char(s, i, '.');
        if j >= s.len() {
            match parse_u32_spec(s.subrange(i, s.len() as int)) {
                Some(v) => Some(seq![v]),
                None => None,
            }
        } else {
            match parse_u32_spec(s.subrange(i, j)) {
                Some(v) => match parse_rounds_from(s, j + 1) {
                    Some(rest) => Some(seq![v] + rest),
                    None => None,
                },
                None => None,
            }
        }
    }
}

#[via_fn]
proof fn parse_rounds_from_decreases(s: Seq<char>, i: int) {
    if 0 <= i <= s.len() {
        crate::text::lemma_find_char_bounds(s, i, '.');
    }
}

impl PgnRound {
    /// The tag text of this round: the numbers joined by dots, `?` when
    /// unknown, `-` when a round is inappropriate.
    pub open spec fn spec_text(self) -> Seq<char> {
        match self {
            PgnRound::Known(rounds) => rounds_text(rounds@),
            PgnRound::Unknown => seq!['?'],
            PgnRound::Inappropriate => seq!['-'],
        }
    }

    pub fn to_text(&self) -> (r: String)
        ensures
            r@ == self.spec_text(),
    {
        let mut out = String::new();
        match self {
            PgnRound::Known(rounds) => {
                let n = rounds.len();
                let mut i: usize = 0;
                while i < n
                    invariant
                        0 <= i <= n,
                        n == rounds@.len(),
                        out@ == rounds_text(rounds@.subrange(0, i as int)),
                    decreases n - i,
                {
                    if i > 0 {
                        push_char(&mut out, '.');
                    }
                    let digits = u64_to_string(rounds[i] as u64);
                    out.append(digits.as_str());
                    proof {
                        let pre = rounds@.subrange(0, i as int);
                        let pre1 = rounds@.subrange(0, (i + 1) as int);
                        assert(pre1.drop_last() =~= pre);
                        if i == 0 {
                            assert(out@ =~= rounds_text(pre1));
                        } else {
                            assert(out@ =~= rounds_text(pre1));
                        }
                    }
                    i += 1;
                }
                assert(rounds@.subrange(0, n as int) =~= rounds@);
            },
            PgnRound::Unknown => {
                push_char(&mut out, '?');
                assert(out@ =~= seq!['?']);
            },
            PgnRound::Inappropriate => {
                push_char(&mut out, '-');
                assert(out@ =~= seq!['-']);
            },
        }
        out
    }

    /// Parses a round string: trimmed, then split on dots, every piece
    /// an unsigned number.
    pub fn from(round_str: &str) -> (r: Result<PgnRound, PgnRoundParseError>)
        ensures
            match r {
                Ok(round) => round matches PgnRound::Known(v) && parse_rounds_from(
                    trim_spec(round_str@),
                    0,
                ) == Some(v@),
                Err(e) => e == PgnRoundParseError::InvalidNumber && parse_rounds_from(
                    trim_spec(round_str@),
                    0,
                ) is None,
            },
    {
        let ghost s = round_str@;
        let len = round_str.unicode_len();
        let mut a: usize = 0;
        while a < len && is_ws(round_str.get_char(a))
            invariant
                0 <= a <= len,
                len == s.len(),
                s == round_str@,
                leading_ws_end(s, 0) == leading_ws_end(s, a as int),
            decreases len - a,
        {
            a += 1;
        }
        assert(leading_ws_end(s, 0) == a as int);
        let mut b: usize = len;
        while b > 0 && is_ws(round_str.get_char(b - 1))
            invariant
                0 <= b <= len,
                len == s.len(),
                s == round_str@,
                trailing_ws_start(s, len as int) == trailing_ws_start(s, b as int),
            decreases b,
        {
            b -= 1;
        }
        assert(trailing_ws_start(s, len as int) == b as int);
        let ghost t = trim_spec(s);
        if a >= b {
            // all whitespace: the single empty piece is no number
            proof {
                assert(t =~= Seq::<char>::empty());
                assert(find_char(t, 0, '.') == 0);
                assert(t.subrange(0, 0) =~= Seq::<char>::empty());
                assert(parse_u32_spec(Seq::<char>::empty()) is None);
                assert(parse_rounds_from(t, 0) is None);
            }
            return Err(PgnRoundParseError::InvalidNumber);
        }
        assert(t == s.subrange(a as int, b as int));
        assert(t.len() == b - a);
        let mut rounds: Vec<u32> = Vec::new();
        let mut i: usize = a;
        proof {
            if parse_rounds_from(t, 0) is Some {
                assert(Seq::<u32>::empty() + parse_rounds_from(t, 0)->0 =~= parse_rounds_from(
                    t,
                    0,
                )->0);
            }
        }
        loop
            invariant
                a <= i <= b <= len,
                len == s.len(),
                s == round_str@,
                t == trim_spec(s),
                t == s.subrange(a as int, b as int),
                t.len() == b - a,
                parse_rounds_from(t, 0) == (match parse_rounds_from(t, i - a) {
                    Some(rest) => Some(rounds@ + rest),
                    None => None::<Seq<u32>>,
                }),
            decreases b - i,
        {
            let mut j = i;
            let mut found = false;
            while j < b && !found
                invariant
                    a <= i <= j <= b <= len,
                    len == s.len(),
                    s == round_str@,
                    t == s.subrange(a as int, b as int),
                    t.len() == b - a,
                    find_char(t, i - a, '.') == find_char(t, j - a, '.'),
                    found ==> find_char(t, j - a, '.') == j - a,
                decreases b - j, (if found { 0int } else { 1int }),
            {
                assert(t[j - a] == s[j as int]);
                if round_str.get_char(j) == '.' {
                    found = true;
                } else {
                    j += 1;
                }
            }
            assert(find_char(t, i - a, '.') == j - a);
            proof {
                assert(s.subrange(i as int, j as int) =~= t.subrange(i - a, j - a));
            }
            match parse_u32_range(round_str, i, j) {
                None => {
                    return Err(PgnRoundParseError::InvalidNumber);
                },
                Some(v) => {
                    rounds.push(v);
                    let ghost pre = rounds@.drop_last();
                    assert(rounds@ =~= pre + seq![v]);
                    if j >= b {
                        assert(parse_rounds_from(t, 0) == Some(rounds@));
                        return Ok(PgnRound::Known(rounds));
                    }
                    proof {
                        let rest0 = parse_rounds_from(t, j + 1 - a);
                        if rest0 is Some {
                            assert(pre + (seq![v] + rest0->0) =~= rounds@ + rest0->0);
                        }
                    }
                    i = j + 1;
                },
            }
        }
    }
}

/// One `[Name "Value"]` tag pair.
#[derive(Debug)]
pub struct PgnTagPair<T> {
    pub tag_name: String,
    pub tag_value: T,
}

impl<T> PgnTagPair<T> {
    pub fn new(tag_name: String, tag_value: T) -> (r: PgnTagPair<T>)
        ensures
            r.tag_name == tag_name,
            r.tag_value == tag_value,
    {
        PgnTagPair { tag_name, tag_value }
    }

    pub fn set_value(&mut self, tag_value: T)
        ensures
            final(self).tag_value == tag_value,
            final(self).tag_name == old(self).tag_name,
    {
        self.tag_value = tag_value;
    }

    pub fn get_value(&self) -> (v: &T)
        ensures
            v == &self.tag_value,
    {
        &self.tag_value
    }

    pub fn get_name(&self) -> (n: &String)
        ensures
            n == &self.tag_name,
    {
        &self.tag_name
    }
}

/// The text of one tag pair: the name and the quoted value in
/// brackets.
pub open spec fn tag_line(name: Seq<char>, value: Seq<char>) -> Seq<char> {
    seq!['['] + name + seq![' ', '"'] + value + seq!['"', ']']
}

/// Writes one tag pair line and ends it with a newline.
fn push_tag_line(out: &mut String, name: &str, value: &str)
    ensures
        final(out)@ == old(out)@ + tag_line(name@, value@) + seq!['\n'],
{
    push_char(out, '[');
    out.append(name);
    push_char(out, ' ');
    push_char(out, '"');
    out.append(value);
    push_char(out, '"');
    push_char(out, ']');
    push_char(out, '\n');
    assert(final(out)@ =~= old(out)@ + tag_line(name@, value@) + seq!['\n']);
}

/// The movetext tokens of one pair: its number with a dot, the white
/// half-move's text, and the black half-move's text when both are
/// present.
pub open spec fn pair_tokens(p: PgnMove, num: int) -> Seq<Seq<char>> {
    seq![dec_digits(num) + seq!['.']] + (match (p.white_move, p.black_move) {
        (Some(w), Some(b)) => seq![spec_format_move(w), spec_format_move(b)],
        (Some(w), None) => seq![spec_format_move(w)],
        (None, _) => seq![],
    })
}

/// The movetext tokens of a whole pair list, numbered from one.
pub open spec fn move_tokens(pairs: Seq<PgnMove>) -> Seq<Seq<char>>
    decreases pairs.len(),
{
    if pairs.len() == 0 {
        Seq::empty()
    } else {
        move_tokens(pairs.drop_last()) + pair_tokens(pairs.last(), pairs.len() as int)
    }
}

/// The greedy 80-column soft wrap: a token joins the current line when
/// the line would stay under eighty columns, and otherwise starts a new
/// one; tokens are never split.
pub open spec fn wrap_from(tokens: Seq<Seq<char>>, k: int, line: Seq<char>) -> Seq<char>
    decreases tokens.len() - k,
{
    if !(0 <= k < tokens.len()) {
        line
    } else {
        let tok = tokens[k];
        if line.len() == 0 {
            wrap_from(tokens, k + 1, tok)
        } else if line.len() + 1 + tok.len() < 80 {
            wrap_from(tokens, k + 1, line + seq![' '] + tok)
        } else {
            line + seq!['\n'] + wrap_from(tokens, k + 1, tok)
        }
    }
}

/// Joins tokens into lines under the 80-column budget.
fn wrap_tokens(tokens: &Vec<String>) -> (r: String)
    ensures
        r@ == wrap_from(tokens.deep_view(), 0, Seq::empty()),
{
    let ghost dv = tokens.deep_view();
    let mut out = String::new();
    let mut line = String::new();
    let n = tokens.len();
    let mut k: usize = 0;
    while k < n
        invariant
            0 <= k <= n,
            n == dv.len(),
            dv == tokens.deep_view(),
            wrap_from(dv, 0, Seq::empty()) == out@ + wrap_from(dv, k as int, line@),
        decreases n - k,
    {
        let tok = &tokens[k];
        assert(tok@ == dv[k as int]);
        let line_len = line.as_str().unicode_len();
        let tok_len = tok.as_str().unicode_len();
        if line_len == 0 {
            line = tok.clone();
        } else if line_len < 79 && tok_len < 79 - line_len {
            let ghost line0 = line@;
            push_char(&mut line, ' ');
            line.append(tok.as_str());
            assert(line@ =~= line0 + seq![' '] + tok@);
        } else {
            let ghost out0 = out@;
            let ghost line0 = line@;
            out.append(line.as_str());
            push_char(&mut out, '\n');
            line = tok.clone();
            assert(out@ =~= out0 + line0 + seq!['\n']);
        }
        k += 1;
    }
    out.append(line.as_str());
    out
}

/// The movetext of a pair list, wrapped; `extra` tokens (the result
/// marker) take part in the same wrap.
pub open spec fn movetext(pairs: Seq<PgnMove>, extra: Seq<Seq<char>>) -> Seq<char> {
    wrap_from(move_tokens(pairs) + extra, 0, Seq::empty())
}

/// Builds the movetext tokens of the list's pairs, numbered from one.
fn move_list_tokens(l: &MoveList) -> (toks: Vec<String>)
    ensures
        toks.deep_view() == move_tokens(l.moves@),
{
    let mut toks: Vec<String> = Vec::new();
    let n = l.moves.len();
    let mut i: usize = 0;
    while i < n
        invariant
            0 <= i <= n,
            n == l.moves@.len(),
            toks.deep_view() =~~= move_tokens(l.moves@.subrange(0, i as int)),
        decreases n - i,
    {
        let ghost pre = l.moves@.subrange(0, i as int);
        let ghost pre1 = l.moves@.subrange(0, (i + 1) as int);
        let pair = &l.moves[i];
        let mut num = u64_to_string((i + 1) as u64);
        push_char(&mut num, '.');
        assert(num@ =~= dec_digits((i + 1) as int) + seq!['.']);
        toks.push(num);
        if let Some(w) = &pair.white_move {
            toks.push(format_move(w));
            if let Some(b) = &pair.black_move {
                toks.push(format_move(b));
            }
        }
        proof {
            assert(pre1.drop_last() =~= pre);
            assert(pre1.last() == l.moves@[i as int]);
            assert(toks.deep_view() =~~= move_tokens(pre) + pair_tokens(
                l.moves@[i as int],
                (i + 1) as int,
            ));
        }
        i += 1;
    }
    proof {
        assert(l.moves@.subrange(0, n as int) =~= l.moves@);
    }
    toks
}

impl MoveList {
    /// The movetext of this list alone, without a result marker.
    pub fn to_text(&self) -> (r: String)
        ensures
            r@ == movetext(self.moves@, Seq::empty()),
    {
        let toks = move_list_tokens(self);
        let r = wrap_tokens(&toks);
        proof {
            assert(toks.deep_view() + Seq::<Seq<char>>::empty() =~= toks.deep_view());
        }
        r
    }
}

/// A complete game record: the seven required tag pairs and the move
/// list.
#[derive(Debug)]
pub struct PgnGame {
    pub event: PgnTagPair<String>,
    pub site: PgnTagPair<String>,
    pub date: PgnTagPair<PgnDate>,
    pub round: PgnTagPair<PgnRound>,
    pub white: PgnTagPair<String>,
    pub black: PgnTagPair<String>,
    pub result: PgnTagPair<PgnResult>,
    pub moves: MoveList,
}

/// The full text of a game: the seven tag lines, a blank line, then
/// the movetext with the result token wrapped into its final line.
pub open spec fn spec_format_game(g: PgnGame) -> Seq<char> {
    tag_line(g.event.tag_name@, g.event.tag_value@) + seq!['\n'] + tag_line(
        g.site.tag_name@,
        g.site.tag_value@,
    ) + seq!['\n'] + tag_line(g.date.tag_name@, g.date.tag_value.spec_text()) + seq!['\n']
        + tag_line(g.round.tag_name@, g.round.tag_value.spec_text()) + seq!['\n'] + tag_line(
        g.white.tag_name@,
        g.white.tag_value@,
    ) + seq!['\n'] + tag_line(g.black.tag_name@, g.black.tag_value@) + seq!['\n'] + tag_line(
        g.result.tag_name@,
        g.result.tag_value.spec_text(),
    ) + seq!['\n'] + seq!['\n'] + movetext(
        g.moves.moves@,
        seq![g.result.tag_value.spec_text()],
    )
}

impl PgnGame {
    /// A fresh game: empty tag values, today's date, an unknown round
    /// and result, and no moves.
    pub fn new() -> (g: PgnGame)
        ensures
            g.moves.wf(),
            g.moves.spec_plies() == Seq::<ChessMove>::empty(),
            g.event.tag_name@ == "Event"@ && g.event.tag_value@ == Seq::<char>::empty(),
            g.site.tag_name@ == "Site"@ && g.site.tag_value@ == Seq::<char>::empty(),
            g.date.tag_name@ == "Date"@,
            g.date.tag_value.year is Some <==> g.date.tag_value.month is Some,
            g.date.tag_value.year is Some <==> g.date.tag_value.day is Some,
            g.date.tag_value.month is Some ==> 1 <= g.date.tag_value.month->0 <= 12,
            g.date.tag_value.day is Some ==> 1 <= g.date.tag_value.day->0 <= 31,
            g.round.tag_name@ == "Round"@ && g.round.tag_value is Unknown,
            g.white.tag_name@ == "White"@ && g.white.tag_value@ == Seq::<char>::empty(),
            g.black.tag_name@ == "Black"@ && g.black.tag_value@ == Seq::<char>::empty(),
            g.result.tag_name@ == "Result"@ && g.result.tag_value == PgnResult::Unknown,
    {
        PgnGame {
            event: PgnTagPair::new(String::from_str("Event"), String::new()),
            site: PgnTagPair::new(String::from_str("Site"), String::new()),
            date: PgnTagPair::new(String::from_str("Date"), PgnDate::now()),
            round: PgnTagPair::new(String::from_str("Round"), PgnRound::Unknown),
            white: PgnTagPair::new(String::from_str("White"), String::new()),
            black: PgnTagPair::new(String::from_str("Black"), String::new()),
            result: PgnTagPair::new(String::from_str("Result"), PgnResult::Unknown),
            moves: MoveList::new(),
        }
    }

    pub fn set_event(&mut self, event: String)
        ensures
            *final(self) == (PgnGame {
                event: PgnTagPair { tag_name: old(self).event.tag_name, tag_value: event },
                ..*old(self)
            }),
    {
        self.event.set_value(event);
    }

    pub fn get_event(&self) -> (v: &String)
        ensures
            v == &self.event.tag_value,
    {
        self.event.get_value()
    }

    pub fn set_site(&mut self, site: String)
        ensures
            *final(self) == (PgnGame {
                site: PgnTagPair { tag_name: old(self).site.tag_name, tag_value: site },
                ..*old(self)
            }),
    {
        self.site.set_value(site);
    }

    pub fn get_site(&self) -> (v: &String)
        ensures
            v == &self.site.tag_value,
    {
        self.site.get_value()
    }

    pub fn set_date(&mut self, date: PgnDate)
        ensures
            *final(self) == (PgnGame {
                date: PgnTagPair { tag_name: old(self).date.tag_name, tag_value: date },
                ..*old(self)
            }),
    {
        self.date.set_value(date);
    }

    pub fn get_date(&self) -> (v: &PgnDate)
        ensures
            v == &self.date.tag_value,
    {
        self.date.get_value()
    }

    pub fn set_round(&mut self, round: PgnRound)
        ensures
            final(self).round.tag_value == round,
            final(self).round.tag_name == old(self).round.tag_name,
            final(self).event == old(self).event,
            final(self).site == old(self).site,
            final(self).date == old(self).date,
            final(self).white == old(self).white,
            final(self).black == old(self).black,
            final(self).result == old(self).result,
            final(self).moves == old(self).moves,
    {
        self.round.set_value(round);
    }

    pub fn get_round(&self) -> (v: &PgnRound)
        ensures
            v == &self.round.tag_value,
    {
        self.round.get_value()
    }

    pub fn set_white(&mut self, white: String)
        ensures
            *final(self) == (PgnGame {
                white: PgnTagPair { tag_name: old(self).white.tag_name, tag_value: white },
                ..*old(self)
            }),
    {
        self.white.set_value(white);
    }

    pub fn get_white(&self) -> (v: &String)
        ensures
            v == &self.white.tag_value,
    {
        self.white.get_value()
    }

    pub fn set_black(&mut self, black: String)
        ensures
            *final(self) == (PgnGame {
                black: PgnTagPair { tag_name: old(self).black.tag_name, tag_value: black },
                ..*old(self)
            }),
    {
        self.black.set_value(black);
    }

    pub fn get_black(&self) -> (v: &String)
        ensures
            v == &self.black.tag_value,
    {
        self.black.get_value()
    }

    pub fn set_result(&mut self, result: PgnResult)
        ensures
            *final(self) == (PgnGame {
                result: PgnTagPair { tag_name: old(self).result.tag_name, tag_value: result },
                ..*old(self)
            }),
    {
        self.result.set_value(result);
    }

    pub fn get_result(&self) -> (v: &PgnResult)
        ensures
            v == &self.result.tag_value,
    {
        self.result.get_value()
    }

    /// Appends one half-move to the game's move list.
    pub fn push_move(&mut self, new_move: ChessMove)
        requires
            old(self).moves.wf(),
        ensures
            final(self).moves.wf(),
            final(self).moves.spec_plies() == old(self).moves.spec_plies().push(new_move),
            final(self).event == old(self).event,
            final(self).site == old(self).site,
            final(self).date == old(self).date,
            final(self).round == old(self).round,
            final(self).white == old(self).white,
            final(self).black == old(self).black,
            final(self).result == old(self).result,
    {
        self.moves.push_move(new_move);
    }

    /// Removes and returns the game's most recent half-move.
    pub fn pop_move(&mut self) -> (removed: Option<ChessMove>)
        requires
            old(self).moves.wf(),
        ensures
            final(self).moves.wf(),
            old(self).moves.spec_plies().len() == 0 ==> removed is None && final(self).moves
                == old(self).moves,
            old(self).moves.spec_plies().len() > 0 ==> removed == Some(
                old(self).moves.spec_plies().last(),
            ) && final(self).moves.spec_plies() == old(self).moves.spec_plies().drop_last(),
            final(self).event == old(self).event,
            final(self).site == old(self).site,
            final(self).date == old(self).date,
            final(self).round == old(self).round,
            final(self).white == old(self).white,
            final(self).black == old(self).black,
            final(self).result == old(self).result,
    {
        self.moves.pop_move()
    }

    /// Whose turn it is to move.
    pub fn get_turn(&self) -> (t: ChessTurn)
        ensures
            t == self.moves.spec_turn(),
    {
        self.moves.get_turn()
    }

    /// The full PGN text of this game.
    pub fn to_text(&self) -> (r: String)
        ensures
            r@ == spec_format_game(*self),
    {
        format_game(self)
    }
}

/// Renders a whole game as PGN text: tag pairs, a blank line, and the
/// wrapped movetext ending in the result token.
pub fn format_game(g: &PgnGame) -> (r: String)
    ensures
        r@ == spec_format_game(*g),
{
    let mut out = String::new();
    push_tag_line(&mut out, g.event.tag_name.as_str(), g.event.tag_value.as_str());
    push_tag_line(&mut out, g.site.tag_name.as_str(), g.site.tag_value.as_str());
    let date_text = g.date.tag_value.to_text();
    push_tag_line(&mut out, g.date.tag_name.as_str(), date_text.as_str());
    let round_text = g.round.tag_value.to_text();
    push_tag_line(&mut out, g.round.tag_name.as_str(), round_text.as_str());
    push_tag_line(&mut out, g.white.tag_name.as_str(), g.white.tag_value.as_str());
    push_tag_line(&mut out, g.black.tag_name.as_str(), g.black.tag_value.as_str());
    let result_text = g.result.tag_value.to_text();
    push_tag_line(&mut out, g.result.tag_name.as_str(), result_text.as_str());
    push_char(&mut out, '\n');
    let mut toks = move_list_tokens(&g.moves);
    toks.push(g.result.tag_value.to_text());
    proof {
        assert(toks.deep_view() =~~= move_tokens(g.moves.moves@) + seq![
            g.result.tag_value.spec_text(),
        ]);
    }
    let body = wrap_tokens(&toks);
    out.append(body.as_str());
    assert(out@ =~= spec_format_game(*g));
    out
}

} // verus!
