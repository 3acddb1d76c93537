//! The round-trip law of the notation layer: parsing the formatter's
//! own output reproduces the move exactly. The parser accepts some
//! strings the formatter never emits (non-minimal disambiguations), so
//! the law runs from moves to text and back, not the other way.

use vstd::prelude::*;
use vstd::utf8::is_ascii_chars;
use crate::chess_common::{ChessCastle, ChessCoordinate, ChessFile, ChessPiece, ChessRank};
use crate::chess_move::{
    fmt_capture, fmt_castle, fmt_checks, fmt_destination, fmt_origin, fmt_piece, fmt_promotion,
    move_wf, spec_format_move, ChessMove, ChessMoveBuildError, ChessMoveBuilder,
};
use crate::move_parse::{
    castle_prefix_end, collect_coord, count_o, scan_capture, scan_checks, scan_destination,
    scan_move, scan_origin, scan_piece, scan_promotion, spec_parse_move,
};
use crate::text::{is_ws_char, leading_ws_end, trailing_ws_start, trim_spec};

verus! {

broadcast use vstd::seq::group_seq_axioms;

/// The moves whose canonical text parses back to the move itself:
/// every move the builder accepts, except
/// - a castle move carrying anything the castle token does not show
///   (a piece other than the king, a coordinate, a check or checkmate
///   marker: the scanner consumes the character after the castle token,
///   so a trailing marker would be dropped),
/// - an origin hint that the formatter does not render in full (a
///   pawn's origin rank is never shown, an empty origin never is), and
/// - a promotion to a pawn, which has no letter to parse back.
pub open spec fn round_trippable(m: ChessMove) -> bool {
    &&& move_wf(m)
    &&& (m.castle is Some ==> m.moving_piece == Some(ChessPiece::King) && m.origin is None
        && m.destination is None && !m.is_check && !m.is_check_mate)
    &&& (m.castle is None && m.origin is Some ==> m.origin->0.file is Some || (m.origin->0.rank
        is Some && m.moving_piece != Some(ChessPiece::Pawn)))
    &&& (m.castle is None && m.moving_piece == Some(ChessPiece::Pawn) && m.origin is Some
        ==> m.origin->0.rank is None)
    &&& (m.promotion is Some ==> m.promotion->0 != ChessPiece::Pawn)
}

/// When a suffix of `t` is the concatenation `a + b`, the characters
/// of `a` stand in `t` right at the suffix's start.
proof fn lemma_suffix_head(t: Seq<char>, i: int, a: Seq<char>, b: Seq<char>, q: int)
    requires
        0 <= i <= t.len(),
        t.subrange(i, t.len() as int) == a + b,
        0 <= q < a.len(),
    ensures
        t[i + q] == a[q],
        i + q < t.len(),
{
    let n = t.len() as int;
    assert(t.subrange(i, n).len() == (a + b).len());
    assert((a + b)[q] == a[q]);
    assert(t.subrange(i, n)[q] == t[i + q]);
}

/// When a suffix of `t` is the concatenation `a + b`, the suffix that
/// starts after `a` is `b`.
proof fn lemma_suffix_shift(t: Seq<char>, i: int, a: Seq<char>, b: Seq<char>)
    requires
        0 <= i <= t.len(),
        t.subrange(i, t.len() as int) == a + b,
    ensures
        i + a.len() <= t.len(),
        t.subrange(i + a.len() as int, t.len() as int) == b,
{
    let n = t.len() as int;
    let al = a.len() as int;
    assert(t.subrange(i, n).len() == (a + b).len());
    assert forall|q: int| 0 <= q < b.len() implies t.subrange(i + al, n)[q] == b[q] by {
        assert((a + b)[al + q] == b[q]);
        assert(t.subrange(i, n)[al + q] == t[i + al + q]);
        assert(t.subrange(i + al, n)[q] == t[i + al + q]);
    }
    assert(t.subrange(i + al, n) =~= b);
}

/// Concatenating an empty sequence on the left changes nothing.
proof fn lemma_empty_concat(a: Seq<char>, b: Seq<char>)
    requires
        a.len() == 0,
    ensures
        a + b == b,
{
    assert(a + b =~= b);
}

/// A character the formatter may emit: printable ASCII, never
/// whitespace.
spec fn glyph(c: char) -> bool {
    '\0' <= c <= '\u{7f}' && !is_ws_char(c)
}

spec fn all_glyphs(s: Seq<char>) -> bool {
    forall|i: int| 0 <= i < s.len() ==> glyph(#[trigger] s[i])
}

proof fn lemma_glyph_concat(a: Seq<char>, b: Seq<char>)
    requires
        all_glyphs(a),
        all_glyphs(b),
    ensures
        all_glyphs(a + b),
{
    assert forall|i: int| 0 <= i < (a + b).len() implies glyph(#[trigger] (a + b)[i]) by {
        if i < a.len() {
            assert((a + b)[i] == a[i]);
        } else {
            assert((a + b)[i] == b[i - a.len()]);
        }
    }
}

proof fn lemma_file_char_facts(f: ChessFile)
    ensures
        ChessFile::spec_from(f.spec_char()) == Some(f),
        ChessRank::spec_from(f.spec_char()) is None,
        ChessPiece::spec_from(f.spec_char()) is None,
        f.spec_char() != 'x',
        f.spec_char() != '=',
        f.spec_char() != '+',
        f.spec_char() != '#',
        f.spec_char() != 'O',
        f.spec_char() != '-',
        glyph(f.spec_char()),
{
}

proof fn lemma_rank_char_facts(r: ChessRank)
    ensures
        ChessRank::spec_from(r.spec_char()) == Some(r),
        ChessFile::spec_from(r.spec_char()) is None,
        ChessPiece::spec_from(r.spec_char()) is None,
        r.spec_char() != 'x',
        r.spec_char() != '=',
        r.spec_char() != '+',
        r.spec_char() != '#',
        r.spec_char() != 'O',
        r.spec_char() != '-',
        glyph(r.spec_char()),
{
}

proof fn lemma_piece_char_facts(p: ChessPiece)
    ensures
        p != ChessPiece::Pawn ==> ChessPiece::spec_from(p.spec_char()) == Some(p),
        ChessFile::spec_from(p.spec_char()) is None,
        ChessRank::spec_from(p.spec_char()) is None,
        p.spec_char() != 'x',
        p.spec_char() != '=',
        p.spec_char() != '+',
        p.spec_char() != '#',
        p.spec_char() != 'O',
        p.spec_char() != '-',
        glyph(p.spec_char()),
{
}

/// Everything the formatter emits is printable ASCII without
/// whitespace.
proof fn lemma_format_glyphs(m: ChessMove)
    ensures
        all_glyphs(spec_format_move(m)),
{
    assert(all_glyphs(fmt_checks(m)));
    match m.castle {
        Some(c) => {
            assert(all_glyphs(fmt_castle(c)));
            lemma_glyph_concat(fmt_castle(c), fmt_checks(m));
        },
        None => {
            if m.moving_piece is Some {
                lemma_piece_char_facts(m.moving_piece->0);
            }
            assert(all_glyphs(fmt_piece(m)));
            if m.origin is Some {
                if m.origin->0.file is Some {
                    lemma_file_char_facts(m.origin->0.file->0);
                }
                if m.origin->0.rank is Some {
                    lemma_rank_char_facts(m.origin->0.rank->0);
                }
            }
            assert(all_glyphs(fmt_origin(m)));
            assert(all_glyphs(fmt_capture(m)));
            if m.destination is Some {
                if m.destination->0.file is Some {
                    lemma_file_char_facts(m.destination->0.file->0);
                }
                if m.destination->0.rank is Some {
                    lemma_rank_char_facts(m.destination->0.rank->0);
                }
            }
            assert(all_glyphs(fmt_destination(m)));
            if m.promotion is Some {
                lemma_piece_char_facts(m.promotion->0);
            }
            assert(all_glyphs(fmt_promotion(m)));
            lemma_glyph_concat(fmt_promotion(m), fmt_checks(m));
            lemma_glyph_concat(fmt_destination(m), fmt_promotion(m) + fmt_checks(m));
            lemma_glyph_concat(
                fmt_capture(m),
                fmt_destination(m) + (fmt_promotion(m) + fmt_checks(m)),
            );
            lemma_glyph_concat(
                fmt_origin(m),
                fmt_capture(m) + (fmt_destination(m) + (fmt_promotion(m) + fmt_checks(m))),
            );
            lemma_glyph_concat(
                fmt_piece(m),
                fmt_origin(m) + (fmt_capture(m) + (fmt_destination(m) + (fmt_promotion(m)
                    + fmt_checks(m)))),
            );
        },
    }
}

/// A non-empty sequence without whitespace is its own trimming.
proof fn lemma_trim_id(s: Seq<char>)
    requires
        s.len() > 0,
        all_glyphs(s),
    ensures
        trim_spec(s) == s,
{
    assert(!is_ws_char(s[0]));
    assert(leading_ws_end(s, 0) == 0);
    assert(!is_ws_char(s[s.len() - 1]));
    assert(trailing_ws_start(s, s.len() as int) == s.len() as int);
    assert(s.subrange(0, s.len() as int) =~= s);
}

// The builder states reached by a successful scan of a formatted move.
spec fn with_piece(b: ChessMoveBuilder, m: ChessMove) -> ChessMoveBuilder {
    if m.moving_piece is Some && m.moving_piece->0 != ChessPiece::Pawn {
        ChessMoveBuilder { moving_piece: m.moving_piece, ..b }
    } else {
        b
    }
}

spec fn with_origin(b: ChessMoveBuilder, m: ChessMove) -> ChessMoveBuilder {
    if m.origin is Some {
        ChessMoveBuilder { origin: m.origin, ..b }
    } else {
        b
    }
}

spec fn with_capture(b: ChessMoveBuilder, m: ChessMove) -> ChessMoveBuilder {
    if m.is_capture {
        ChessMoveBuilder { is_capture: true, ..b }
    } else {
        b
    }
}

spec fn with_dest(b: ChessMoveBuilder, m: ChessMove) -> ChessMoveBuilder {
    ChessMoveBuilder { destination: m.destination, ..b }
}

spec fn with_promo(b: ChessMoveBuilder, m: ChessMove) -> ChessMoveBuilder {
    if m.promotion is Some {
        ChessMoveBuilder { promotion: m.promotion, ..b }
    } else {
        b
    }
}

spec fn with_checks(b: ChessMoveBuilder, m: ChessMove) -> ChessMoveBuilder {
    if m.is_check_mate {
        ChessMoveBuilder { is_check_mate: true, ..b }
    } else if m.is_check {
        ChessMoveBuilder { is_check: true, ..b }
    } else {
        b
    }
}

proof fn lemma_scan_checks_tail(t: Seq<char>, i: int, b: ChessMoveBuilder, m: ChessMove)
    requires
        0 <= i <= t.len(),
        t.subrange(i, t.len() as int) == fmt_checks(m),
        !(m.is_check && m.is_check_mate),
    ensures
        scan_checks(t, i, b) == Ok::<ChessMoveBuilder, ChessMoveBuildError>(with_checks(b, m)),
{
    let n = t.len() as int;
    assert(t.subrange(i, n).len() == fmt_checks(m).len());
    if m.is_check_mate {
        assert(t.subrange(i, n)[0] == fmt_checks(m)[0]);
        assert(t.subrange(i, n)[0] == t[i]);
        assert(t[i] == '#');
    } else if m.is_check {
        assert(t.subrange(i, n)[0] == fmt_checks(m)[0]);
        assert(t.subrange(i, n)[0] == t[i]);
        assert(t[i] == '+');
    }
}

proof fn lemma_scan_promotion_tail(t: Seq<char>, i: int, b: ChessMoveBuilder, m: ChessMove)
    requires
        0 <= i <= t.len(),
        t.subrange(i, t.len() as int) == fmt_promotion(m) + fmt_checks(m),
        !(m.is_check && m.is_check_mate),
        m.promotion is Some ==> m.promotion->0 != ChessPiece::Pawn,
    ensures
        scan_promotion(t, i, b) == Ok::<ChessMoveBuilder, ChessMoveBuildError>(
            with_checks(with_promo(b, m), m),
        ),
{
    let n = t.len() as int;
    if m.promotion is Some {
        let p = m.promotion->0;
        lemma_piece_char_facts(p);
        lemma_suffix_head(t, i, fmt_promotion(m), fmt_checks(m), 0);
        assert(t[i] == '=');
        lemma_suffix_head(t, i, fmt_promotion(m), fmt_checks(m), 1);
        assert(t[i + 1] == p.spec_char());
        lemma_suffix_shift(t, i, fmt_promotion(m), fmt_checks(m));
        lemma_scan_checks_tail(t, i + 2, with_promo(b, m), m);
    } else {
        lemma_empty_concat(fmt_promotion(m), fmt_checks(m));
        assert(t.subrange(i, n) == fmt_checks(m));
        if m.is_check || m.is_check_mate {
            assert(t.subrange(i, n).len() == fmt_checks(m).len());
            assert(t.subrange(i, n)[0] == fmt_checks(m)[0]);
            assert(t.subrange(i, n)[0] == t[i]);
            assert(t[i] != '=');
        }
        lemma_scan_checks_tail(t, i, b, m);
    }
}

proof fn lemma_scan_destination_tail(t: Seq<char>, i: int, b: ChessMoveBuilder, m: ChessMove)
    requires
        0 <= i <= t.len(),
        t.subrange(i, t.len() as int) == fmt_destination(m) + (fmt_promotion(m) + fmt_checks(m)),
        m.destination is Some && m.destination->0.spec_is_complete(),
        !(m.is_check && m.is_check_mate),
        m.promotion is Some ==> m.promotion->0 != ChessPiece::Pawn,
    ensures
        scan_destination(t, i, b) == Ok::<ChessMoveBuilder, ChessMoveBuildError>(
            with_checks(with_promo(with_dest(b, m), m), m),
        ),
{
    let n = t.len() as int;
    let d = m.destination->0;
    let df = d.file->0;
    let dr = d.rank->0;
    lemma_file_char_facts(df);
    lemma_rank_char_facts(dr);
    let tail = fmt_promotion(m) + fmt_checks(m);
    assert(fmt_destination(m) =~= seq![df.spec_char(), dr.spec_char()]);
    lemma_suffix_head(t, i, fmt_destination(m), tail, 0);
    assert(t[i] == df.spec_char());
    lemma_suffix_head(t, i, fmt_destination(m), tail, 1);
    assert(t[i + 1] == dr.spec_char());
    lemma_suffix_shift(t, i, fmt_destination(m), tail);
    assert(collect_coord(t, i) == (Some(df), Some(dr), i + 2));
    assert(ChessCoordinate { file: Some(df), rank: Some(dr) } == d);
    let b1 = with_dest(b, m);
    if i + 2 >= n {
        assert(t.subrange(i + 2, n).len() == tail.len());
        assert(fmt_promotion(m).len() == 0 && fmt_checks(m).len() == 0);
        assert(with_checks(with_promo(b1, m), m) == b1);
    } else {
        lemma_scan_promotion_tail(t, i + 2, b1, m);
    }
}

proof fn lemma_scan_capture_tail(t: Seq<char>, i: int, b: ChessMoveBuilder, m: ChessMove)
    requires
        0 <= i <= t.len(),
        t.subrange(i, t.len() as int) == fmt_capture(m) + (fmt_destination(m) + (fmt_promotion(m)
            + fmt_checks(m))),
        m.destination is Some && m.destination->0.spec_is_complete(),
        !(m.is_check && m.is_check_mate),
        m.promotion is Some ==> m.promotion->0 != ChessPiece::Pawn,
    ensures
        scan_capture(t, i, b) == Ok::<ChessMoveBuilder, ChessMoveBuildError>(
            with_checks(with_promo(with_dest(with_capture(b, m), m), m), m),
        ),
{
    let n = t.len() as int;
    let tail = fmt_destination(m) + (fmt_promotion(m) + fmt_checks(m));
    if m.is_capture {
        lemma_suffix_head(t, i, fmt_capture(m), tail, 0);
        assert(t[i] == 'x');
        lemma_suffix_shift(t, i, fmt_capture(m), tail);
        lemma_scan_destination_tail(t, i + 1, with_capture(b, m), m);
    } else {
        lemma_empty_concat(fmt_capture(m), tail);
        assert(t.subrange(i, n) == tail);
        lemma_file_char_facts(m.destination->0.file->0);
        lemma_suffix_head(t, i, fmt_destination(m), fmt_promotion(m) + fmt_checks(m), 0);
        assert(t[i] == m.destination->0.file->0.spec_char());
        assert(t[i] != 'x');
        lemma_scan_destination_tail(t, i, b, m);
    }
}

proof fn lemma_scan_origin_tail(t: Seq<char>, i: int, b: ChessMoveBuilder, m: ChessMove)
    requires
        0 <= i <= t.len(),
        t.subrange(i, t.len() as int) == fmt_origin(m) + (fmt_capture(m) + (fmt_destination(m) + (
        fmt_promotion(m) + fmt_checks(m)))),
        m.castle is None,
        round_trippable(m),
    ensures
        scan_origin(t, i, b) == Ok::<ChessMoveBuilder, ChessMoveBuildError>(
            with_checks(with_promo(with_dest(with_capture(with_origin(b, m), m), m), m), m),
        ),
{
    let n = t.len() as int;
    let pawn = m.moving_piece == Some(ChessPiece::Pawn);
    let d = m.destination->0;
    lemma_file_char_facts(d.file->0);
    lemma_rank_char_facts(d.rank->0);
    let cap_tail = fmt_capture(m) + (fmt_destination(m) + (fmt_promotion(m) + fmt_checks(m)));
    match m.origin {
        None => {
            lemma_empty_concat(fmt_origin(m), cap_tail);
            assert(t.subrange(i, n) == cap_tail);
            if m.is_capture {
                // the `x` stops the collection at once
                lemma_suffix_head(
                    t,
                    i,
                    fmt_capture(m),
                    fmt_destination(m) + (fmt_promotion(m) + fmt_checks(m)),
                    0,
                );
                assert(t[i] == 'x');
                assert(collect_coord(t, i) == (None::<ChessFile>, None::<ChessRank>, i));
                lemma_scan_capture_tail(t, i, b, m);
            } else {
                // the destination is collected here and reinterpreted
                lemma_empty_concat(
                    fmt_capture(m),
                    fmt_destination(m) + (fmt_promotion(m) + fmt_checks(m)),
                );
                assert(t.subrange(i, n) == fmt_destination(m) + (fmt_promotion(m) + fmt_checks(
                    m,
                )));
                let tail = fmt_promotion(m) + fmt_checks(m);
                assert(fmt_destination(m) =~= seq![d.file->0.spec_char(), d.rank->0.spec_char()]);
                lemma_suffix_head(t, i, fmt_destination(m), tail, 0);
                lemma_suffix_head(t, i, fmt_destination(m), tail, 1);
                assert(collect_coord(t, i) == (Some(d.file->0), Some(d.rank->0), i + 2));
                assert(ChessCoordinate { file: Some(d.file->0), rank: Some(d.rank->0) } == d);
                lemma_suffix_shift(t, i, fmt_destination(m), tail);
                if i + 2 >= n {
                    assert(t.subrange(i + 2, n).len() == tail.len());
                    assert(fmt_promotion(m).len() == 0 && fmt_checks(m).len() == 0);
                } else {
                    if m.promotion is Some {
                        lemma_suffix_head(t, i + 2, fmt_promotion(m), fmt_checks(m), 0);
                        assert(t[i + 2] == '=');
                        lemma_scan_promotion_tail(t, i + 2, with_dest(b, m), m);
                    } else {
                        lemma_empty_concat(fmt_promotion(m), fmt_checks(m));
                        assert(t.subrange(i + 2, n) == fmt_checks(m));
                        assert(t.subrange(i + 2, n).len() == fmt_checks(m).len());
                        assert(t.subrange(i + 2, n)[0] == fmt_checks(m)[0]);
                        assert(t.subrange(i + 2, n)[0] == t[i + 2]);
                        assert(t[i + 2] == '+' || t[i + 2] == '#');
                        lemma_scan_checks_tail(t, i + 2, with_dest(b, m), m);
                    }
                }
            }
        },
        Some(o) => {
            // the character after the origin hint: `x` or the
            // destination file, never a rank digit and never a marker
            let stopper = if m.is_capture {
                'x'
            } else {
                d.file->0.spec_char()
            };
            lemma_suffix_shift(t, i, fmt_origin(m), cap_tail);
            if m.is_capture {
                lemma_suffix_head(
                    t,
                    i + fmt_origin(m).len() as int,
                    fmt_capture(m),
                    fmt_destination(m) + (fmt_promotion(m) + fmt_checks(m)),
                    0,
                );
            } else {
                lemma_empty_concat(
                    fmt_capture(m),
                    fmt_destination(m) + (fmt_promotion(m) + fmt_checks(m)),
                );
                lemma_suffix_head(
                    t,
                    i + fmt_origin(m).len() as int,
                    fmt_destination(m),
                    fmt_promotion(m) + fmt_checks(m),
                    0,
                );
            }
            if o.file is Some {
                lemma_file_char_facts(o.file->0);
                if o.rank is Some && !pawn {
                    lemma_rank_char_facts(o.rank->0);
                    assert(fmt_origin(m) =~= seq![o.file->0.spec_char(), o.rank->0.spec_char()]);
                    lemma_suffix_head(t, i, fmt_origin(m), cap_tail, 0);
                    lemma_suffix_head(t, i, fmt_origin(m), cap_tail, 1);
                    lemma_suffix_shift(t, i, fmt_origin(m), cap_tail);
                    assert(t[i + 2] == stopper);
                    assert(collect_coord(t, i) == (Some(o.file->0), Some(o.rank->0), i + 2));
                    assert(ChessCoordinate { file: Some(o.file->0), rank: Some(o.rank->0) } == o);
                    lemma_scan_capture_tail(t, i + 2, with_origin(b, m), m);
                } else {
                    // only the file is rendered
                    assert(o.rank is None || pawn);
                    assert(fmt_origin(m) =~= seq![o.file->0.spec_char()]);
                    lemma_suffix_head(t, i, fmt_origin(m), cap_tail, 0);
                    lemma_suffix_shift(t, i, fmt_origin(m), cap_tail);
                    assert(t[i + 1] == stopper);
                    assert(ChessRank::spec_from(t[i + 1]) is None);
                    assert(collect_coord(t, i) == (Some(o.file->0), None::<ChessRank>, i + 1));
                    // a pawn's origin hint never carries a rank, so
                    // what was collected is the hint itself
                    assert(ChessCoordinate { file: Some(o.file->0), rank: None::<ChessRank> }
                        == o);
                    lemma_scan_capture_tail(t, i + 1, with_origin(b, m), m);
                }
            } else {
                // rank-only hint, non-pawn
                assert(o.rank is Some && !pawn);
                lemma_rank_char_facts(o.rank->0);
                assert(fmt_origin(m) =~= seq![o.rank->0.spec_char()]);
                lemma_suffix_head(t, i, fmt_origin(m), cap_tail, 0);
                lemma_suffix_shift(t, i, fmt_origin(m), cap_tail);
                assert(t[i + 1] == stopper);
                assert(collect_coord(t, i) == (None::<ChessFile>, Some(o.rank->0), i + 1));
                assert(ChessCoordinate { file: None::<ChessFile>, rank: Some(o.rank->0) } == o);
                lemma_scan_capture_tail(t, i + 1, with_origin(b, m), m);
            }
        },
    }
}

proof fn lemma_scan_piece_tail(t: Seq<char>, i: int, b: ChessMoveBuilder, m: ChessMove)
    requires
        0 <= i <= t.len(),
        t.subrange(i, t.len() as int) == fmt_piece(m) + (fmt_origin(m) + (fmt_capture(m) + (
        fmt_destination(m) + (fmt_promotion(m) + fmt_checks(m))))),
        m.castle is None,
        round_trippable(m),
    ensures
        scan_piece(t, i, b) == Ok::<ChessMoveBuilder, ChessMoveBuildError>(
            with_checks(
                with_promo(
                    with_dest(with_capture(with_origin(with_piece(b, m), m), m), m),
                    m,
                ),
                m,
            ),
        ),
{
    let n = t.len() as int;
    let rest = fmt_origin(m) + (fmt_capture(m) + (fmt_destination(m) + (fmt_promotion(m)
        + fmt_checks(m))));
    if m.moving_piece is Some && m.moving_piece->0 != ChessPiece::Pawn {
        let p = m.moving_piece->0;
        lemma_piece_char_facts(p);
        lemma_suffix_head(t, i, fmt_piece(m), rest, 0);
        assert(t[i] == p.spec_char());
        assert(ChessPiece::spec_from(t[i]) == Some(p));
        lemma_suffix_shift(t, i, fmt_piece(m), rest);
        lemma_scan_origin_tail(t, i + 1, with_piece(b, m), m);
    } else {
        // a pawn move: the first character is an origin file (a pawn
        // capture always carries its origin file) or the destination
        // file; neither is a piece letter
        lemma_empty_concat(fmt_piece(m), rest);
        assert(t.subrange(i, n) == rest);
        if m.origin is Some {
            lemma_file_char_facts(m.origin->0.file->0);
            assert(fmt_origin(m) =~= seq![m.origin->0.file->0.spec_char()]);
            lemma_suffix_head(
                t,
                i,
                fmt_origin(m),
                fmt_capture(m) + (fmt_destination(m) + (fmt_promotion(m) + fmt_checks(m))),
                0,
            );
            assert(t[i] == m.origin->0.file->0.spec_char());
        } else {
            lemma_file_char_facts(m.destination->0.file->0);
            lemma_empty_concat(
                fmt_origin(m),
                fmt_capture(m) + (fmt_destination(m) + (fmt_promotion(m) + fmt_checks(m))),
            );
            if m.is_capture {
                lemma_suffix_head(
                    t,
                    i,
                    fmt_capture(m),
                    fmt_destination(m) + (fmt_promotion(m) + fmt_checks(m)),
                    0,
                );
                assert(t[i] == 'x');
            } else {
                lemma_empty_concat(
                    fmt_capture(m),
                    fmt_destination(m) + (fmt_promotion(m) + fmt_checks(m)),
                );
                lemma_suffix_head(
                    t,
                    i,
                    fmt_destination(m),
                    fmt_promotion(m) + fmt_checks(m),
                    0,
                );
                assert(t[i] == m.destination->0.file->0.spec_char());
            }
        }
        assert(i < n);
        assert(ChessPiece::spec_from(t[i]) is None);
        lemma_scan_origin_tail(t, i, with_piece(b, m), m);
    }
}

/// Parsing the formatter's output gives back the move itself, for
/// every move in `round_trippable`.
pub proof fn lemma_format_parse_round_trip(m: ChessMove)
    requires
        round_trippable(m),
    ensures
        spec_parse_move(spec_format_move(m)) == Ok::<ChessMove, ChessMoveBuildError>(m),
{
    let s = spec_format_move(m);
    lemma_format_glyphs(m);
    match m.castle {
        Some(c) => {
            assert(fmt_checks(m).len() == 0);
            lemma_empty_concat(fmt_checks(m), Seq::empty());
            assert(s =~= fmt_castle(c));
            assert(s.len() > 0);
            assert(is_ascii_chars(s));
            lemma_trim_id(s);
            let b = ChessMoveBuilder {
                castle: Some(c),
                moving_piece: Some(ChessPiece::King),
                ..ChessMoveBuilder::spec_empty()
            };
            match c {
                ChessCastle::KingsideCastle => {
                    assert(s =~= seq!['O', '-', 'O']);
                    assert(s[0] == 'O' && s[1] == '-' && s[2] == 'O');
                    assert(castle_prefix_end(s, 3) == 3);
                    assert(castle_prefix_end(s, 2) == 3);
                    assert(castle_prefix_end(s, 1) == 3);
                    assert(castle_prefix_end(s, 0) == 3);
                    assert(count_o(s, 0) == 0);
                    assert(count_o(s, 1) == 1);
                    assert(count_o(s, 2) == 1);
                    assert(count_o(s, 3) == 2);
                    assert(scan_checks(s, 4, b) == Ok::<ChessMoveBuilder, ChessMoveBuildError>(
                        b,
                    ));
                    assert(scan_move(s) == Ok::<ChessMoveBuilder, ChessMoveBuildError>(b));
                },
                ChessCastle::QueensideCastle => {
                    assert(s =~= seq!['O', '-', 'O', '-', 'O']);
                    assert(s[0] == 'O' && s[1] == '-' && s[2] == 'O' && s[3] == '-' && s[4]
                        == 'O');
                    assert(castle_prefix_end(s, 5) == 5);
                    assert(castle_prefix_end(s, 4) == 5);
                    assert(castle_prefix_end(s, 3) == 5);
                    assert(castle_prefix_end(s, 2) == 5);
                    assert(castle_prefix_end(s, 1) == 5);
                    assert(castle_prefix_end(s, 0) == 5);
                    assert(count_o(s, 0) == 0);
                    assert(count_o(s, 1) == 1);
                    assert(count_o(s, 2) == 1);
                    assert(count_o(s, 3) == 2);
                    assert(count_o(s, 4) == 2);
                    assert(count_o(s, 5) == 3);
                    assert(scan_checks(s, 6, b) == Ok::<ChessMoveBuilder, ChessMoveBuildError>(
                        b,
                    ));
                    assert(scan_move(s) == Ok::<ChessMoveBuilder, ChessMoveBuildError>(b));
                },
            }
            assert(b.spec_build() == Ok::<ChessMove, ChessMoveBuildError>(m));
        },
        None => {
            let rest = fmt_origin(m) + (fmt_capture(m) + (fmt_destination(m) + (fmt_promotion(m)
                + fmt_checks(m))));
            assert(s == fmt_piece(m) + rest);
            assert(s.len() == fmt_piece(m).len() + rest.len());
            assert(fmt_destination(m).len() == 2);
            assert(rest.len() >= 2) by {
                assert(rest.len() == fmt_origin(m).len() + (fmt_capture(m) + (fmt_destination(m)
                    + (fmt_promotion(m) + fmt_checks(m)))).len());
                assert((fmt_capture(m) + (fmt_destination(m) + (fmt_promotion(m) + fmt_checks(
                    m,
                )))).len() == fmt_capture(m).len() + (fmt_destination(m) + (fmt_promotion(m)
                    + fmt_checks(m))).len());
                assert((fmt_destination(m) + (fmt_promotion(m) + fmt_checks(m))).len()
                    == fmt_destination(m).len() + (fmt_promotion(m) + fmt_checks(m)).len());
                assert((fmt_promotion(m) + fmt_checks(m)).len() == fmt_promotion(m).len()
                    + fmt_checks(m).len());
            }
            assert(s.len() > 0);
            assert(is_ascii_chars(s));
            lemma_trim_id(s);
            // the first character is a piece letter or a file letter,
            // so the castle prefix is empty
            if m.moving_piece is Some && m.moving_piece->0 != ChessPiece::Pawn {
                lemma_piece_char_facts(m.moving_piece->0);
                assert(s.subrange(0, s.len() as int) =~= s);
                lemma_suffix_head(s, 0, fmt_piece(m), rest, 0);
                assert(s[0] == m.moving_piece->0.spec_char());
            } else {
                assert(s.subrange(0, s.len() as int) =~= s);
                lemma_empty_concat(fmt_piece(m), rest);
                if m.origin is Some {
                    lemma_file_char_facts(m.origin->0.file->0);
                    assert(fmt_origin(m) =~= seq![m.origin->0.file->0.spec_char()]);
                    lemma_suffix_head(
                        s,
                        0,
                        fmt_origin(m),
                        fmt_capture(m) + (fmt_destination(m) + (fmt_promotion(m) + fmt_checks(
                            m,
                        ))),
                        0,
                    );
                } else {
                    lemma_empty_concat(
                        fmt_origin(m),
                        fmt_capture(m) + (fmt_destination(m) + (fmt_promotion(m) + fmt_checks(
                            m,
                        ))),
                    );
                    if m.is_capture {
                        lemma_suffix_head(
                            s,
                            0,
                            fmt_capture(m),
                            fmt_destination(m) + (fmt_promotion(m) + fmt_checks(m)),
                            0,
                        );
                    } else {
                        lemma_empty_concat(
                            fmt_capture(m),
                            fmt_destination(m) + (fmt_promotion(m) + fmt_checks(m)),
                        );
                        lemma_file_char_facts(m.destination->0.file->0);
                        lemma_suffix_head(
                            s,
                            0,
                            fmt_destination(m),
                            fmt_promotion(m) + fmt_checks(m),
                            0,
                        );
                    }
                }
            }
            assert(s[0] != 'O' && s[0] != '-');
            assert(castle_prefix_end(s, 0) == 0);
            assert(count_o(s, 0) == 0);
            lemma_scan_piece_tail(s, 0, ChessMoveBuilder::spec_empty(), m);
            let bf = with_checks(
                with_promo(
                    with_dest(
                        with_capture(
                            with_origin(with_piece(ChessMoveBuilder::spec_empty(), m), m),
                            m,
                        ),
                        m,
                    ),
                    m,
                ),
                m,
            );
            assert(scan_move(s) == Ok::<ChessMoveBuilder, ChessMoveBuildError>(bf));
            assert(bf.spec_build() == Ok::<ChessMove, ChessMoveBuildError>(m));
        },
    }
}

} // verus!
