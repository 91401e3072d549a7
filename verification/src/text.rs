use vstd::prelude::*;

verus! {

/// The lowercase form of a text, as the standard library computes it for
/// every Unicode character.
pub uninterp spec fn lowercase(s: Seq<char>) -> Seq<char>;

/// `needle` occurs in `hay` as a run of consecutive characters. The empty
/// text occurs in every text.
pub open spec fn is_substring(needle: Seq<char>, hay: Seq<char>) -> bool {
    exists|i: int|
        0 <= i && i + needle.len() <= hay.len() && #[trigger] hay.subrange(i, i + needle.len())
            == needle
}

/// `str::to_lowercase` returns the lowercase form of its argument. The result
/// depends on the argument alone, so it is given the name `lowercase`; nothing
/// else is claimed of it.
pub assume_specification[ str::to_lowercase ](s: &str) -> (r: String)
    ensures
        r@ == lowercase(s@),
;

/// `String::push` appends one character to the text.
pub assume_specification[ String::push ](s: &mut String, c: char)
    ensures
        final(s)@ == old(s)@.push(c),
;

/// `str::contains`, called with a text as the pattern, tells whether that
/// text occurs in `hay` as a run of consecutive characters.
#[verifier::external_body]
pub(crate) fn str_contains(hay: &str, needle: &str) -> (found: bool)
    ensures
        found == is_substring(needle@, hay@),
{
    hay.contains(needle)
}

} // verus!
