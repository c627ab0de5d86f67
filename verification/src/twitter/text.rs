//! The text of Tweets.

use vstd::prelude::*;

use crate::strings::{chars_of, string_of};

verus! {

/// The weight that a Tweet may have.
pub const MAX_WEIGHTED_TWEET_LENGTH: usize = 280;

/// The weight of a URL, whatever its length.
pub const TRANSFORMED_URL_LENGTH: usize = 23;

/// What stands for the rest of a text.
pub const ELLIPSIS: char = '\u{2026}';

/// A text, cut to a weight if every character may weigh two.
pub open spec fn sanitized(s: Seq<char>, max_len: usize) -> Seq<char> {
    let n = (max_len / 2) as int;
    if s.len() > n {
        s.take(n - 1).push(ELLIPSIS)
    } else {
        s
    }
}

/// Cuts a text to a weight.
pub fn sanitize(s: &mut String, max_len: usize)
    requires
        max_len >= 2 || old(s)@.len() == 0,
    ensures
        final(s)@ == sanitized(old(s)@, max_len),
{
    let max_len: usize = max_len / 2;
    let chars = chars_of(s.as_str());
    if chars.len() > max_len {
        *s = string_of(&chars, 0, max_len - 1);
        assert(s@ == old(s)@.take(max_len - 1));
        s.push(ELLIPSIS);
    }
}

/// A text that was cut is short enough, and is not cut again.
pub proof fn sanitized_is_short(s: Seq<char>, max_len: usize)
    requires
        max_len >= 2,
    ensures
        2 * sanitized(s, max_len).len() <= max_len,
        sanitized(sanitized(s, max_len), max_len) == sanitized(s, max_len),
{
}

/// A text that is short enough is left alone, and of a longer one the beginning is kept.
pub proof fn sanitized_keeps_the_beginning(s: Seq<char>, max_len: usize)
    requires
        max_len >= 2,
    ensures
        2 * s.len() <= max_len ==> sanitized(s, max_len) == s,
        forall|i: int|
            0 <= i < sanitized(s, max_len).len() - 1 ==> sanitized(s, max_len)[i] == s[i],
{
}

/// A text is cut only where it may be too heavy, and then to as many characters as it may have: its
/// beginning and an ellipsis for the rest.
pub proof fn cut_texts_end_in_an_ellipsis(s: Seq<char>, max_len: usize)
    requires
        max_len >= 2,
    ensures
        2 * s.len() > max_len && s.len() > max_len / 2 ==> {
            &&& sanitized(s, max_len).len() == max_len / 2
            &&& sanitized(s, max_len).last() == '\u{2026}'
            &&& sanitized(s, max_len).drop_last().is_prefix_of(s)
        },
{
    if s.len() > max_len / 2 {
        let r = sanitized(s, max_len);
        assert(r.drop_last() == s.subrange(0, r.len() - 1));
    }
}

} // verus!
