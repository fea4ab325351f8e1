//! Shaping the text of a desktop notification.

use vstd::prelude::*;
use vstd::string::StringExecFns;
use crate::text::push_char;

verus! {

/// Number of characters of the content that a notification shows.
pub const SHOW_LEN: usize = 80;

/// What follows the content where it was cut.
pub const ELLIPSIS: &'static str = "...";

/// `c` is a control code: one of the characters up to `U+001F` or from
/// `U+007F` to `U+009F`.
pub open spec fn is_control(c: char) -> bool {
    c <= '\u{1f}' || '\u{7f}' <= c <= '\u{9f}'
}

/// The characters of `s` that are no control codes.
pub open spec fn visible(s: Seq<char>) -> Seq<char> {
    s.filter(|c: char| !is_control(c))
}

/// The body of the notification for `content`: its visible characters, and
/// where there are more than `SHOW_LEN` of them, the first `SHOW_LEN`
/// followed by an ellipsis.
pub open spec fn notice_body(content: Seq<char>) -> Seq<char> {
    let shown = visible(content);
    if shown.len() > SHOW_LEN {
        shown.take(SHOW_LEN as int) + ELLIPSIS@
    } else {
        shown
    }
}

/// What a notification says.
#[derive(Debug, PartialEq, Eq)]
pub struct Notice {
    pub summary: String,
    pub body: String,
}

/// Tells whether `c` is a control code.
pub fn is_control_char(c: char) -> (r: bool)
    ensures
        r == is_control(c),
{
    c <= '\u{1f}' || ('\u{7f}' <= c && c <= '\u{9f}')
}

/// Shapes the notification that tells `content` under the heading `title`:
/// control codes are left out of the body, and a body of more than
/// `SHOW_LEN` visible characters is cut behind the first `SHOW_LEN` and ends
/// in an ellipsis.
pub fn inform(content: &str, title: &str) -> (r: Notice)
    ensures
        r.summary@ == title@,
        r.body@ == notice_body(content@),
{
    let mut body = String::new();
    let mut shown: usize = 0;
    let mut cut = false;
    for c in it: content.chars()
        invariant
            it.seq() == content@,
            shown <= SHOW_LEN,
            !cut ==> shown == visible(content@.take(it.index() as int)).len() && body@
                == visible(content@.take(it.index() as int)),
            cut ==> shown == SHOW_LEN && visible(content@.take(it.index() as int)).len()
                > SHOW_LEN && body@ == visible(content@.take(it.index() as int)).take(
                SHOW_LEN as int,
            ),
    {
        let ghost before = content@.take(it.index() as int);
        let ghost now = content@.take(it.index() + 1);
        proof {
            reveal(Seq::filter);
            assert(now.drop_last() =~= before);
            assert(now.last() == c);
            if !is_control(c) {
                assert(visible(now) == visible(before).push(c));
                if visible(before).len() >= SHOW_LEN {
                    assert(visible(now).take(SHOW_LEN as int) =~= visible(before).take(
                        SHOW_LEN as int,
                    ));
                }
            } else {
                assert(visible(now) == visible(before));
            }
        }
        if !is_control_char(c) {
            if shown < SHOW_LEN {
                push_char(&mut body, c);
                shown += 1;
            } else {
                assert(!cut ==> visible(before).take(SHOW_LEN as int) =~= visible(before));
                cut = true;
            }
        }
    }
    assert(content@.take(content@.len() as int) =~= content@);
    if cut {
        body.append(ELLIPSIS);
    }
    Notice { summary: String::from_str(title), body }
}

} // verus!
