//! What holds of the line without its colour codes.

use vstd::prelude::*;
use vstd::utf8::decode_utf8;
use vstd::utf8::decode_utf8_split;
use vstd::utf8::is_char_boundary;
use vstd::utf8::is_char_boundary_iff_not_is_continuation_byte;
use vstd::utf8::is_char_boundary_start_end_of_seq;
use vstd::utf8::valid_utf8;
use vstd::utf8::valid_utf8_concat;
use vstd::utf8::valid_utf8_split;
use crate::color::has_marker;
use crate::color::has_reset;
use crate::color::is_marker_at;
use crate::color::lemma_next_marker_found;
use crate::color::lemma_next_marker_none;
use crate::color::lemma_terminator_found;
use crate::color::next_marker;
use crate::color::reset;
use crate::color::scan;
use crate::color::strip;
use crate::color::terminator;
use crate::color::END;
use crate::color::ESC;
use crate::color::TERMINATOR_MAX_OFFSET;
use crate::color::TERMINATOR_MIN_OFFSET;
use crate::search::occurs_at;

verus! {

/// The colour codes of `s` from `from` on, from left to right, each as the
/// index of its escape byte and the index behind its closing `m`. `None`
/// when some marker has no closing `m` in reach.
pub open spec fn escape_runs(s: Seq<u8>, from: int) -> Option<Seq<(int, int)>>
    decreases s.len() - from,
{
    match next_marker(s, from) {
        None => Some(Seq::empty()),
        Some(p) => match terminator(s, p) {
            None => None,
            Some(k) => {
                proof {
                    lemma_next_marker_found(s, from);
                    lemma_terminator_found(s, p);
                }
                match escape_runs(s, k + 1) {
                    Some(runs) => Some(seq![(p, k + 1)] + runs),
                    None => None,
                }
            },
        },
    }
}

/// The bytes of `s` from `from` on that lie outside the ranges `runs`, the
/// pieces between the ranges joined in their order.
pub open spec fn without_runs(s: Seq<u8>, from: int, runs: Seq<(int, int)>) -> Seq<u8>
    decreases runs.len(),
{
    if runs.len() == 0 {
        s.subrange(from, s.len() as int)
    } else {
        s.subrange(from, runs[0].0) + without_runs(s, runs[0].1, runs.drop_first())
    }
}

/// The ranges `runs` are colour codes of `s` that follow one another from
/// `from` on: each begins with the first marker behind the one before it and
/// ends behind the `m` that closes it, and no marker stands behind the last.
pub open spec fn are_runs_from(s: Seq<u8>, from: int, runs: Seq<(int, int)>) -> bool
    decreases runs.len(),
{
    if runs.len() == 0 {
        forall|j: int| from <= j ==> !is_marker_at(s, j)
    } else {
        let (a, b) = runs[0];
        &&& from <= a
        &&& forall|j: int| from <= j < a ==> !is_marker_at(s, j)
        &&& is_marker_at(s, a)
        &&& a + TERMINATOR_MIN_OFFSET < b <= a + TERMINATOR_MAX_OFFSET + 1
        &&& b <= s.len()
        &&& s[b - 1] == END
        &&& forall|j: int| a + TERMINATOR_MIN_OFFSET <= j < b - 1 ==> s[j] != END
        &&& are_runs_from(s, b, runs.drop_first())
    }
}

/// The colour codes that the scan finds are codes indeed: each starts at the
/// first marker behind the previous one, ends with its closing `m`, and
/// nothing that starts a code is left outside them.
pub proof fn lemma_escape_runs_are_runs(s: Seq<u8>, from: int)
    requires
        0 <= from <= s.len(),
    ensures
        escape_runs(s, from) matches Some(runs) ==> are_runs_from(s, from, runs),
    decreases s.len() - from,
{
    lemma_next_marker_found(s, from);
    lemma_next_marker_none(s, from);
    match next_marker(s, from) {
        None => {},
        Some(p) => {
            lemma_terminator_found(s, p);
            match terminator(s, p) {
                None => {},
                Some(k) => {
                    lemma_escape_runs_are_runs(s, k + 1);
                    match escape_runs(s, k + 1) {
                        Some(rest) => {
                            let runs = seq![(p, k + 1)] + rest;
                            assert(runs.drop_first() =~= rest);
                            assert(runs[0] == (p, k + 1));
                        },
                        None => {},
                    }
                },
            }
        },
    }
}

/// Removing the colour codes and joining what remains is what the scan
/// yields: its result is the line from `from` on without the codes that it
/// finds, and it fails exactly when some marker is not closed.
pub proof fn lemma_scan_removes_runs(s: Seq<u8>, from: int)
    requires
        0 <= from <= s.len(),
    ensures
        scan(s, from) == match escape_runs(s, from) {
            Some(runs) => Some(without_runs(s, from, runs)),
            None => None,
        },
    decreases s.len() - from,
{
    match next_marker(s, from) {
        None => {},
        Some(p) => {
            lemma_next_marker_found(s, from);
            lemma_terminator_found(s, p);
            match terminator(s, p) {
                None => {},
                Some(k) => {
                    lemma_scan_removes_runs(s, k + 1);
                    match escape_runs(s, k + 1) {
                        Some(rest) => {
                            let runs = seq![(p, k + 1)] + rest;
                            assert(runs.drop_first() =~= rest);
                            assert(runs[0] == (p, k + 1));
                        },
                        None => {},
                    }
                },
            }
        },
    }
}

/// The stripped line is the line without its colour codes, the remaining
/// pieces joined in their order. Nothing is removed from a line without the
/// reset code or with a marker that is not closed.
pub proof fn lemma_strip_removes_runs(s: Seq<u8>)
    ensures
        strip(s) == if has_reset(s) && escape_runs(s, 0) is Some {
            without_runs(s, 0, escape_runs(s, 0).unwrap())
        } else {
            s
        },
{
    lemma_scan_removes_runs(s, 0);
}

/// What the scan yields is no longer than what it read, and shorter by at
/// least a whole colour code where it met a marker.
pub proof fn lemma_scan_len(s: Seq<u8>, from: int)
    requires
        0 <= from <= s.len(),
    ensures
        scan(s, from) matches Some(out) ==> {
            &&& out.len() <= s.len() - from
            &&& next_marker(s, from) is Some ==> out.len() + TERMINATOR_MIN_OFFSET + 1 <= s.len()
                - from
        },
    decreases s.len() - from,
{
    match next_marker(s, from) {
        None => {},
        Some(p) => {
            lemma_next_marker_found(s, from);
            lemma_terminator_found(s, p);
            match terminator(s, p) {
                None => {},
                Some(k) => {
                    lemma_scan_len(s, k + 1);
                },
            }
        },
    }
}

/// The stripped line is never longer than the line.
pub proof fn lemma_strip_len(s: Seq<u8>)
    ensures
        strip(s).len() <= s.len(),
{
    lemma_scan_len(s, 0);
}

/// The reset code begins with the marker.
pub proof fn lemma_reset_has_marker(s: Seq<u8>)
    requires
        has_reset(s),
    ensures
        has_marker(s),
{
    let i = choose|i: int| occurs_at(s, reset(), i);
    let found = s.subrange(i, i + 4);
    assert(found[0] == s[i]);
    assert(found[1] == s[i + 1]);
    assert(is_marker_at(s, i));
}

/// A line that holds no marker `ESC [` is left as it is.
pub proof fn lemma_strip_without_marker(s: Seq<u8>)
    requires
        !has_marker(s),
    ensures
        strip(s) == s,
        scan(s, 0) == Some(s),
{
    if has_reset(s) {
        lemma_reset_has_marker(s);
    }
    lemma_next_marker_found(s, 0);
    assert(s.subrange(0, s.len() as int) =~= s);
}

/// Stripping changes the line: it holds the reset code and every marker in
/// it is closed.
pub open spec fn is_changed_by_strip(s: Seq<u8>) -> bool {
    has_reset(s) && scan(s, 0) is Some
}

/// A line is left as it is exactly when it holds no reset code or some
/// marker in it is not closed.
pub proof fn lemma_strip_fixed_point(s: Seq<u8>)
    ensures
        strip(s) == s <==> !is_changed_by_strip(s),
{
    if is_changed_by_strip(s) {
        lemma_reset_has_marker(s);
        lemma_next_marker_none(s, 0);
        lemma_scan_len(s, 0);
    }
}

/// Stripping a second time changes nothing, unless the first pass has left
/// a line that stripping changes. That happens only where the bytes on both
/// sides of a removed code join into a code of their own.
pub proof fn lemma_strip_idempotent(s: Seq<u8>)
    requires
        !is_changed_by_strip(strip(s)),
    ensures
        strip(strip(s)) == strip(s),
{
    lemma_strip_fixed_point(strip(s));
}

/// Every escape byte of `s` is followed by `[`.
pub open spec fn escapes_open_markers(s: Seq<u8>) -> bool {
    forall|i: int| 0 <= i < s.len() && s[i] == ESC ==> is_marker_at(s, i)
}

/// Where every escape byte opens a marker, the scan leaves no escape byte.
pub proof fn lemma_scan_drops_escapes(s: Seq<u8>, from: int)
    requires
        0 <= from <= s.len(),
        escapes_open_markers(s),
    ensures
        scan(s, from) matches Some(out) ==> forall|i: int| 0 <= i < out.len() ==> out[i] != ESC,
    decreases s.len() - from,
{
    lemma_next_marker_found(s, from);
    lemma_next_marker_none(s, from);
    match next_marker(s, from) {
        None => {},
        Some(p) => {
            lemma_terminator_found(s, p);
            match terminator(s, p) {
                None => {},
                Some(k) => {
                    lemma_scan_drops_escapes(s, k + 1);
                },
            }
        },
    }
}

/// Where every escape byte of the line is followed by `[`, stripping a
/// second time changes nothing.
pub proof fn lemma_strip_idempotent_on_terminal_text(s: Seq<u8>)
    requires
        escapes_open_markers(s),
    ensures
        strip(strip(s)) == strip(s),
{
    if is_changed_by_strip(s) {
        lemma_scan_drops_escapes(s, 0);
        lemma_strip_without_marker(strip(s));
    }
}

/// In valid UTF-8 text a byte below `0x80` is a character of its own:
/// a character begins at it and another one, or the end, follows it.
pub proof fn lemma_ascii_byte_boundaries(s: Seq<u8>, i: int)
    requires
        valid_utf8(s),
        0 <= i < s.len(),
        s[i] < 0x80,
    ensures
        is_char_boundary(s, i),
        is_char_boundary(s, i + 1),
{
    is_char_boundary_iff_not_is_continuation_byte(s, i);
    if i + 1 == s.len() {
        is_char_boundary_start_end_of_seq(s);
    } else {
        valid_utf8_split(s, i);
        let tail = s.subrange(i, s.len() as int);
        assert(tail[0] == s[i]);
        let rest = s.subrange(i + 1, s.len() as int);
        assert(rest =~= tail.subrange(1, tail.len() as int));
        assert(valid_utf8(rest));
        assert(rest[0] == s[i + 1]);
        is_char_boundary_iff_not_is_continuation_byte(s, i + 1);
    }
}

/// The bytes between two character boundaries of valid UTF-8 text are valid
/// UTF-8.
pub proof fn lemma_piece_is_utf8(s: Seq<u8>, a: int, b: int)
    requires
        valid_utf8(s),
        0 <= a <= b <= s.len(),
        is_char_boundary(s, a),
        is_char_boundary(s, b),
    ensures
        valid_utf8(s.subrange(a, b)),
{
    valid_utf8_split(s, b);
    let head = s.subrange(0, b);
    if a == b {
        assert(s.subrange(a, b) =~= Seq::<u8>::empty());
    } else {
        is_char_boundary_iff_not_is_continuation_byte(s, a);
        assert(head[a] == s[a]);
        is_char_boundary_iff_not_is_continuation_byte(head, a);
        valid_utf8_split(head, a);
        assert(head.subrange(a, head.len() as int) =~= s.subrange(a, b));
    }
}

/// Two valid UTF-8 texts joined are valid UTF-8 and decode to the
/// characters of the first followed by those of the second.
pub proof fn lemma_decode_joined(a: Seq<u8>, b: Seq<u8>)
    requires
        valid_utf8(a),
        valid_utf8(b),
    ensures
        valid_utf8(a + b),
        decode_utf8(a + b) == decode_utf8(a) + decode_utf8(b),
{
    valid_utf8_concat(a, b);
    let joined = a + b;
    if b.len() == 0 {
        is_char_boundary_start_end_of_seq(joined);
    } else {
        assert(joined[a.len() as int] == b[0]);
        is_char_boundary_iff_not_is_continuation_byte(joined, a.len() as int);
    }
    decode_utf8_split(joined, a.len() as int);
    assert(joined.subrange(0, a.len() as int) =~= a);
    assert(joined.subrange(a.len() as int, joined.len() as int) =~= b);
}

/// The characters of `s` from `from` on outside the ranges `runs`, each
/// remaining piece decoded by itself.
pub open spec fn text_without_runs(s: Seq<u8>, from: int, runs: Seq<(int, int)>) -> Seq<char>
    decreases runs.len(),
{
    if runs.len() == 0 {
        decode_utf8(s.subrange(from, s.len() as int))
    } else {
        decode_utf8(s.subrange(from, runs[0].0)) + text_without_runs(
            s,
            runs[0].1,
            runs.drop_first(),
        )
    }
}

/// `at` is a character boundary of `s`, and so are both ends of each range
/// of `runs`.
pub open spec fn cuts_on_boundaries(s: Seq<u8>, at: int, runs: Seq<(int, int)>) -> bool {
    &&& is_char_boundary(s, at)
    &&& forall|i: int|
        0 <= i < runs.len() ==> is_char_boundary(s, (#[trigger] runs[i]).0) && is_char_boundary(
            s,
            runs[i].1,
        )
}

/// In valid UTF-8 text every colour code begins and ends on a character
/// boundary, so that no character is split: each piece that remains is valid
/// UTF-8, and the remaining bytes decode to the characters of the pieces in
/// their order.
pub proof fn lemma_scan_keeps_characters(s: Seq<u8>, from: int)
    requires
        valid_utf8(s),
        0 <= from <= s.len(),
        is_char_boundary(s, from),
    ensures
        escape_runs(s, from) matches Some(runs) ==> {
            &&& cuts_on_boundaries(s, from, runs)
            &&& valid_utf8(without_runs(s, from, runs))
            &&& decode_utf8(without_runs(s, from, runs)) == text_without_runs(s, from, runs)
        },
    decreases s.len() - from,
{
    is_char_boundary_start_end_of_seq(s);
    match next_marker(s, from) {
        None => {
            lemma_piece_is_utf8(s, from, s.len() as int);
        },
        Some(p) => {
            lemma_next_marker_found(s, from);
            lemma_terminator_found(s, p);
            match terminator(s, p) {
                None => {},
                Some(k) => {
                    lemma_ascii_byte_boundaries(s, p);
                    lemma_ascii_byte_boundaries(s, k);
                    lemma_scan_keeps_characters(s, k + 1);
                    match escape_runs(s, k + 1) {
                        Some(rest) => {
                            let runs = seq![(p, k + 1)] + rest;
                            assert(runs.drop_first() =~= rest);
                            assert(runs[0] == (p, k + 1));
                            assert forall|i: int| 0 <= i < runs.len() implies is_char_boundary(
                                s,
                                (#[trigger] runs[i]).0,
                            ) && is_char_boundary(s, runs[i].1) by {
                                if i > 0 {
                                    assert(runs[i] == rest[i - 1]);
                                }
                            }
                            lemma_piece_is_utf8(s, from, p);
                            lemma_decode_joined(
                                s.subrange(from, p),
                                without_runs(s, k + 1, rest),
                            );
                        },
                        None => {},
                    }
                },
            }
        },
    }
}

/// Stripping valid UTF-8 text splits no character: what comes back is
/// valid UTF-8, and where codes were removed, each began and ended on a
/// character boundary and the characters that come back are those of the
/// remaining pieces in their order.
pub proof fn lemma_strip_keeps_utf8(s: Seq<u8>)
    requires
        valid_utf8(s),
    ensures
        valid_utf8(strip(s)),
        is_changed_by_strip(s) ==> {
            let runs = escape_runs(s, 0).unwrap();
            &&& cuts_on_boundaries(s, 0, runs)
            &&& decode_utf8(strip(s)) == text_without_runs(s, 0, runs)
        },
{
    is_char_boundary_start_end_of_seq(s);
    lemma_scan_removes_runs(s, 0);
    lemma_scan_keeps_characters(s, 0);
}

} // verus!
