//! The clipboard's format registry: which of the formats that the clipboard
//! offers stands for a compressed form of the bitmap it holds. The size of
//! that entry is what is reported as the size of the original; it is an
//! approximation, and there may be no such entry at all.

use crate::paths::{chars_of, is_image_ext, is_image_extension, lower, lowered};
use vstd::prelude::*;
use vstd::slice::slice_subrange;

verus! {

/// Whether `tag` names a compressed image format: `image/` and a recognized
/// image type (png, jpg, jpeg, bmp, tiff, webp), in any mix of upper and
/// lower case.
pub open spec fn is_image_format(tag: Seq<char>) -> bool {
    &&& tag.len() >= 6
    &&& lowered(tag.take(6)) == seq!['i', 'm', 'a', 'g', 'e', '/']
    &&& is_image_extension(tag.skip(6))
}

/// Whether `at` is the place of the best-matching format in `tags`: the
/// first image format in clipboard order, or nowhere if there is none.
pub open spec fn is_best_format(tags: Seq<Seq<char>>, at: Option<int>) -> bool {
    match at {
        Some(i) => 0 <= i < tags.len() && is_image_format(tags[i]) && forall|j: int|
            0 <= j < i ==> !is_image_format(#[trigger] tags[j]),
        None => forall|j: int| 0 <= j < tags.len() ==> !is_image_format(#[trigger] tags[j]),
    }
}

/// Whether `tag` names a compressed image format.
pub fn names_image_format(tag: &str) -> (known: bool)
    ensures
        known == is_image_format(tag@),
{
    let t: Vec<char> = chars_of(tag);
    let len: usize = t.len();
    if len < 6 {
        return false;
    }
    let a: char = lower(t[0]);
    let b: char = lower(t[1]);
    let c: char = lower(t[2]);
    let d: char = lower(t[3]);
    let e: char = lower(t[4]);
    let f: char = lower(t[5]);
    proof {
        let head = lowered(tag@.take(6));
        let word = seq!['i', 'm', 'a', 'g', 'e', '/'];
        assert(word.len() == 6 && word[0] == 'i' && word[1] == 'm' && word[2] == 'a' && word[3]
            == 'g' && word[4] == 'e' && word[5] == '/');
        assert(head.len() == 6 && head[0] == a && head[1] == b && head[2] == c && head[3] == d
            && head[4] == e && head[5] == f);
        if a == 'i' && b == 'm' && c == 'a' && d == 'g' && e == 'e' && f == '/' {
            assert(head =~= word);
        }
    }
    if !(a == 'i' && b == 'm' && c == 'a' && d == 'g' && e == 'e' && f == '/') {
        return false;
    }
    let kind: &[char] = slice_subrange(t.as_slice(), 6, len);
    assert(kind@ =~= tag@.skip(6));
    is_image_ext(kind)
}

/// The place of the best-matching format among the names that the clipboard
/// offers, in clipboard order.
pub fn best_format(tags: &Vec<String>) -> (at: Option<usize>)
    ensures
        is_best_format(
            tags.deep_view(),
            match at {
                Some(i) => Some(i as int),
                None => None,
            },
        ),
{
    let mut i: usize = 0;
    while i < tags.len()
        invariant
            i <= tags.len(),
            forall|j: int| 0 <= j < i ==> !is_image_format(#[trigger] tags.deep_view()[j]),
        decreases tags.len() - i,
    {
        assert(tags.deep_view()[i as int] == tags[i as int]@);
        if names_image_format(tags[i].as_str()) {
            return Some(i);
        }
        i = i + 1;
    }
    None
}

} // verus!
