//! Telling image files by their names.

use vstd::prelude::*;
use crate::text::push_char;
use crate::text::str_equal;

verus! {

/// What follows the last dot of `name`; the whole name where it has no dot.
pub open spec fn extension(name: Seq<char>) -> Seq<char>
    decreases name.len(),
{
    if name.len() == 0 {
        name
    } else if name.last() == '.' {
        Seq::empty()
    } else {
        extension(name.drop_last()).push(name.last())
    }
}

/// The small letter for a capital from `A` to `Z`; any other character as
/// it is.
pub open spec fn lowered(c: char) -> char {
    if 'A' <= c <= 'Z' {
        ((c as u8) + 32) as char
    } else {
        c
    }
}

/// `s` with its capitals from `A` to `Z` made small.
pub open spec fn lower(s: Seq<char>) -> Seq<char> {
    s.map_values(|c: char| lowered(c))
}

/// `ext`, capitals or not, is one of the extensions that image files have.
pub open spec fn is_img_ext(ext: Seq<char>) -> bool {
    let e = lower(ext);
    e == "jpg"@ || e == "jpeg"@ || e == "png"@ || e == "gif"@ || e == "bmp"@ || e == "webp"@ || e
        == "ico"@
}

/// The small letter for a capital from `A` to `Z`; any other character as
/// it is.
pub fn lower_char(c: char) -> (r: char)
    ensures
        r == lowered(c),
{
    if 'A' <= c && c <= 'Z' {
        ((c as u8) + 32) as char
    } else {
        c
    }
}

/// Tells whether `name` ends in the extension of an image file: `jpg`,
/// `jpeg`, `png`, `gif`, `bmp`, `webp` or `ico`, in capitals or not. A name
/// without a dot counts as its own extension.
pub fn has_img_ext(name: &str) -> (r: bool)
    ensures
        r == is_img_ext(extension(name@)),
{
    let mut ext = String::new();
    for c in it: name.chars()
        invariant
            it.seq() == name@,
            ext@ == lower(extension(name@.take(it.index() as int))),
    {
        let ghost before = name@.take(it.index() as int);
        let ghost now = name@.take(it.index() + 1);
        assert(now.drop_last() =~= before);
        if c == '.' {
            ext = String::new();
            assert(lower(Seq::<char>::empty()) =~= Seq::<char>::empty());
        } else {
            push_char(&mut ext, lower_char(c));
            assert(lower(extension(before).push(c)) =~= lower(extension(before)).push(lowered(c)));
        }
    }
    assert(name@.take(name@.len() as int) =~= name@);
    let e = ext.as_str();
    str_equal(e, "jpg") || str_equal(e, "jpeg") || str_equal(e, "png") || str_equal(e, "gif")
        || str_equal(e, "bmp") || str_equal(e, "webp") || str_equal(e, "ico")
}

} // verus!
