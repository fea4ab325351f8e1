//! Removing terminal colour codes from a line of bytes.
//!
//! A colour code is the two bytes `ESC [`, up to four parameter bytes and a
//! closing `m`. The line is treated as plain bytes throughout.

use std::borrow::Cow;
use vstd::prelude::*;
use vstd::slice::slice_to_vec;
use crate::color_laws::lemma_strip_fixed_point;
use crate::search::find;
use crate::search::is_search_result;
use crate::search::occurs_at;
use crate::text::bytes_equal;

verus! {

/// The escape byte that opens a colour code.
pub const ESC: u8 = 0x1b;

/// `[`, the second byte of the marker.
pub const OPEN: u8 = 0x5b;

/// `0`, the parameter of the code that switches colours off.
pub const ZERO: u8 = 0x30;

/// `m`, the byte that closes a colour code.
pub const END: u8 = 0x6d;

/// Distance from the escape byte to the first place where the closing `m`
/// is looked for.
pub const TERMINATOR_MIN_OFFSET: usize = 3;

/// Distance from the escape byte to the last place where the closing `m`
/// is looked for.
pub const TERMINATOR_MAX_OFFSET: usize = 6;

/// The marker `ESC [` that opens every colour code.
pub open spec fn marker() -> Seq<u8> {
    seq![ESC, OPEN]
}

/// The code `ESC [ 0 m` that switches colours off.
pub open spec fn reset() -> Seq<u8> {
    seq![ESC, OPEN, ZERO, END]
}

/// The marker stands at index `i` of `s`.
pub open spec fn is_marker_at(s: Seq<u8>, i: int) -> bool {
    0 <= i && i + 2 <= s.len() && s[i] == ESC && s[i + 1] == OPEN
}

/// `s` holds the reset code somewhere.
pub open spec fn has_reset(s: Seq<u8>) -> bool {
    exists|i: int| occurs_at(s, reset(), i)
}

/// `s` holds the marker somewhere.
pub open spec fn has_marker(s: Seq<u8>) -> bool {
    exists|i: int| is_marker_at(s, i)
}

/// Index of the first marker of `s` at or after `from`.
pub open spec fn next_marker(s: Seq<u8>, from: int) -> Option<int>
    decreases s.len() - from,
{
    if from < 0 || from + 2 > s.len() {
        None
    } else if is_marker_at(s, from) {
        Some(from)
    } else {
        next_marker(s, from + 1)
    }
}

/// Index of the first `m` among the bytes of `s` at the offsets `off` to
/// `TERMINATOR_MAX_OFFSET` from `p`.
pub open spec fn terminator_from(s: Seq<u8>, p: int, off: int) -> Option<int>
    decreases TERMINATOR_MAX_OFFSET + 1 - off,
{
    if off > TERMINATOR_MAX_OFFSET || p + off >= s.len() {
        None
    } else if s[p + off] == END {
        Some(p + off)
    } else {
        terminator_from(s, p, off + 1)
    }
}

/// Index of the `m` that closes the colour code whose marker stands at `p`:
/// the first `m` at an offset from `TERMINATOR_MIN_OFFSET` to
/// `TERMINATOR_MAX_OFFSET`, if the line has one there.
pub open spec fn terminator(s: Seq<u8>, p: int) -> Option<int> {
    terminator_from(s, p, TERMINATOR_MIN_OFFSET as int)
}

/// `rest` with `head` put in front of it, where there is a `rest`.
pub open spec fn prepend(head: Seq<u8>, rest: Option<Seq<u8>>) -> Option<Seq<u8>> {
    match rest {
        Some(tail) => Some(head + tail),
        None => None,
    }
}

/// The bytes of `s` from `from` on with every colour code taken out, read
/// from left to right: what precedes the next marker is kept, the code from
/// its marker to its closing `m` is dropped, and the scan goes on behind the
/// `m`. `None` when some marker has no closing `m` in reach.
pub open spec fn scan(s: Seq<u8>, from: int) -> Option<Seq<u8>>
    decreases s.len() - from,
{
    match next_marker(s, from) {
        None => Some(s.subrange(from, s.len() as int)),
        Some(p) => match terminator(s, p) {
            None => None,
            Some(k) => {
                proof {
                    lemma_next_marker_found(s, from);
                    lemma_terminator_found(s, p);
                }
                prepend(s.subrange(from, p), scan(s, k + 1))
            },
        },
    }
}

/// The line without its colour codes. A line without the reset code is left
/// as it is, and so is a line in which some marker has no closing `m` in
/// reach.
pub open spec fn strip(s: Seq<u8>) -> Seq<u8> {
    if has_reset(s) {
        match scan(s, 0) {
            Some(out) => out,
            None => s,
        }
    } else {
        s
    }
}

/// A marker that `next_marker` finds stands at or after `from`, and no
/// marker stands between `from` and it.
pub proof fn lemma_next_marker_found(s: Seq<u8>, from: int)
    ensures
        next_marker(s, from) matches Some(p) ==> {
            &&& from <= p
            &&& is_marker_at(s, p)
            &&& forall|j: int| from <= j < p ==> !is_marker_at(s, j)
        },
    decreases s.len() - from,
{
    if from < 0 || from + 2 > s.len() {
    } else if is_marker_at(s, from) {
    } else {
        lemma_next_marker_found(s, from + 1);
    }
}

/// Where `next_marker` finds nothing, no marker stands at or after `from`.
pub proof fn lemma_next_marker_none(s: Seq<u8>, from: int)
    requires
        0 <= from,
    ensures
        next_marker(s, from) is None ==> forall|j: int| from <= j ==> !is_marker_at(s, j),
    decreases s.len() - from,
{
    if from + 2 > s.len() {
    } else if is_marker_at(s, from) {
    } else {
        lemma_next_marker_found(s, from + 1);
        lemma_next_marker_none(s, from + 1);
    }
}

/// The first marker at or after `from` is what `next_marker` returns.
pub proof fn lemma_next_marker_is_first(s: Seq<u8>, from: int, p: int)
    requires
        0 <= from <= p,
        is_marker_at(s, p),
        forall|j: int| from <= j < p ==> !is_marker_at(s, j),
    ensures
        next_marker(s, from) == Some(p),
    decreases p - from,
{
    if from < p {
        lemma_next_marker_is_first(s, from + 1, p);
    }
}

/// A closing `m` that `terminator_from` finds stands in the window, inside
/// the line, and no `m` stands in the window before it.
pub proof fn lemma_terminator_from_found(s: Seq<u8>, p: int, off: int)
    ensures
        terminator_from(s, p, off) matches Some(k) ==> {
            &&& p + off <= k <= p + TERMINATOR_MAX_OFFSET
            &&& k < s.len()
            &&& s[k] == END
            &&& forall|j: int| p + off <= j < k ==> s[j] != END
        },
    decreases TERMINATOR_MAX_OFFSET + 1 - off,
{
    if off > TERMINATOR_MAX_OFFSET || p + off >= s.len() {
    } else if s[p + off] == END {
    } else {
        lemma_terminator_from_found(s, p, off + 1);
    }
}

/// The closing `m` of a colour code stands three to six bytes behind the
/// escape byte and inside the line.
pub proof fn lemma_terminator_found(s: Seq<u8>, p: int)
    ensures
        terminator(s, p) matches Some(k) ==> {
            &&& p + TERMINATOR_MIN_OFFSET <= k <= p + TERMINATOR_MAX_OFFSET
            &&& k < s.len()
            &&& s[k] == END
            &&& forall|j: int| p + TERMINATOR_MIN_OFFSET <= j < k ==> s[j] != END
        },
{
    lemma_terminator_from_found(s, p, TERMINATOR_MIN_OFFSET as int);
}

/// A search for the marker in the bytes of `s` from `from` on tells what
/// `next_marker` returns.
pub proof fn lemma_search_finds_next_marker(s: Seq<u8>, from: int, r: Option<usize>)
    requires
        0 <= from <= s.len(),
        is_search_result(s.subrange(from, s.len() as int), marker(), r),
    ensures
        next_marker(s, from) == match r {
            Some(i) => Some(from + i),
            None => None,
        },
{
    let tail = s.subrange(from, s.len() as int);
    assert forall|j: int| from <= j implies (is_marker_at(s, j) <==> occurs_at(
        tail,
        marker(),
        j - from,
    )) by {
        if is_marker_at(s, j) {
            assert(tail.subrange(j - from, j - from + 2) =~= marker());
        }
        if occurs_at(tail, marker(), j - from) {
            let found = tail.subrange(j - from, j - from + 2);
            assert(found[0] == tail[j - from]);
            assert(found[1] == tail[j - from + 1]);
        }
    }
    match r {
        Some(i) => {
            lemma_next_marker_is_first(s, from, from + i);
        },
        None => {
            lemma_next_marker_found(s, from);
        },
    }
}

/// Looks for the `m` that closes the colour code whose marker stands at `p`.
fn find_terminator(line: &[u8], p: usize) -> (r: Option<usize>)
    requires
        p <= line@.len(),
    ensures
        terminator(line@, p as int) == match r {
            Some(k) => Some(k as int),
            None => None,
        },
{
    let len: usize = line.len();
    let room: usize = len - p;
    let mut off: usize = TERMINATOR_MIN_OFFSET;
    while off <= TERMINATOR_MAX_OFFSET && off < room
        invariant
            len == line@.len(),
            p <= len,
            room == len - p,
            TERMINATOR_MIN_OFFSET <= off <= TERMINATOR_MAX_OFFSET + 1,
            terminator(line@, p as int) == terminator_from(line@, p as int, off as int),
        decreases TERMINATOR_MAX_OFFSET + 1 - off,
    {
        if line[p + off] == END {
            return Some(p + off);
        }
        off += 1;
    }
    None
}

/// Takes the colour codes out of `line`.
///
/// A line without the reset code `ESC [ 0 m` comes back borrowed and
/// untouched. Otherwise the line is read from left to right; each marker
/// `ESC [` must be closed by an `m` three to six bytes behind the escape
/// byte, and the bytes from the marker to that `m` are dropped. If some
/// marker is not closed in that window, the whole line comes back unchanged.
pub fn eliminate_color<'a>(line: &'a [u8]) -> (r: Cow<'a, [u8]>)
    ensures
        r@ == strip(line@),
        r@.len() <= line@.len(),
        r is Borrowed <==> !has_reset(line@),
{
    let reset_code: [u8; 4] = [ESC, OPEN, ZERO, END];
    let marker_code: [u8; 2] = [ESC, OPEN];
    assert(reset_code@ =~= reset());
    assert(marker_code@ =~= marker());
    let len: usize = line.len();
    if find(line, reset_code.as_slice()).is_none() {
        return Cow::Borrowed(line);
    }
    let mut buf: Vec<u8> = Vec::with_capacity(len);
    let mut start: usize = 0;
    loop
        invariant_except_break
            start <= len,
            buf@.len() <= start,
            scan(line@, 0) == prepend(buf@, scan(line@, start as int)),
        invariant
            len == line@.len(),
            marker_code@ == marker(),
            has_reset(line@),
        ensures
            scan(line@, 0) == Some(buf@),
            buf@.len() <= len,
        decreases len - start,
    {
        let found = find(&line[start..len], marker_code.as_slice());
        proof {
            lemma_search_finds_next_marker(line@, start as int, found);
        }
        match found {
            None => {
                let ghost kept = buf@;
                buf.extend_from_slice(&line[start..len]);
                assert(buf@ =~= kept + line@.subrange(start as int, len as int));
                break ;
            },
            Some(index) => {
                let p: usize = start + index;
                let ghost kept = buf@;
                buf.extend_from_slice(&line[start..p]);
                assert(buf@ =~= kept + line@.subrange(start as int, p as int));
                match find_terminator(line, p) {
                    None => {
                        return Cow::Owned(slice_to_vec(line));
                    },
                    Some(k) => {
                        proof {
                            lemma_terminator_found(line@, p as int);
                            let rest = scan(line@, k + 1);
                            if rest is Some {
                                assert(kept + (line@.subrange(start as int, p as int)
                                    + rest.unwrap()) =~= buf@ + rest.unwrap());
                            }
                        }
                        start = k + 1;
                    },
                }
                if start == len {
                    assert(line@.subrange(start as int, len as int) =~= Seq::<u8>::empty());
                    assert(buf@ + Seq::<u8>::empty() =~= buf@);
                    break ;
                }
            },
        }
    }
    Cow::Owned(buf)
}

/// Tells whether `stripped` is `line` given back whole: owned, with the
/// bytes of `line`. Of what `eliminate_color` returns for `line` this says
/// that some marker was not closed, so that the line had to be left as it
/// is.
pub fn gave_up(line: &[u8], stripped: &Cow<'_, [u8]>) -> (r: bool)
    ensures
        r == (stripped is Owned && stripped@ == line@),
        stripped@ == strip(line@) && (stripped is Borrowed <==> !has_reset(line@)) ==> r == (
        has_reset(line@) && scan(line@, 0) is None),
{
    proof {
        lemma_strip_fixed_point(line@);
    }
    match stripped {
        Cow::Owned(kept) => bytes_equal(kept.as_slice(), line),
        Cow::Borrowed(_) => false,
    }
}

} // verus!
