//! Helpers on bytes.

use vstd::prelude::*;

#[allow(unused_imports)]
use crate::strings::{first_position, first_position_found, first_position_is_first};

verus! {

/// Tells whether two byte strings are equal.
pub fn bytes_eq(a: &[u8], b: &[u8]) -> (r: bool)
    ensures
        r == (a@ == b@),
{
    if a.len() != b.len() {
        return false;
    }
    let mut i: usize = 0;
    while i < a.len()
        invariant
            i <= a@.len(),
            a@.len() == b@.len(),
            forall|j: int| 0 <= j < i ==> a@[j] == b@[j],
        decreases a@.len() - i,
    {
        if a[i] != b[i] {
            return false;
        }
        i += 1;
    }
    assert(a@ == b@);
    true
}

/// Returns the position of the first `b` in `s`.
pub fn find_byte(s: &[u8], b: u8) -> (r: Option<usize>)
    ensures
        match r {
            Some(i) => first_position(s@, b) == Some(i as int) && i < s@.len(),
            None => first_position(s@, b) is None,
        },
{
    let mut i: usize = 0;
    while i < s.len()
        invariant
            i <= s@.len(),
            forall|j: int| 0 <= j < i ==> s@[j] != b,
        decreases s@.len() - i,
    {
        if s[i] == b {
            proof {
                first_position_found(s@, b, i as int);
            }
            return Some(i);
        }
        i += 1;
    }
    proof {
        first_position_is_first(s@, b);
    }
    None
}

/// Tells whether a byte may stand in the text of a header: visible ASCII, a space or a tab.
pub open spec fn is_header_char(b: u8) -> bool {
    32 <= b < 127 || b == 9
}

/// The text of a header's value, if it is one.
pub open spec fn header_value(bytes: Seq<u8>) -> Option<Seq<char>> {
    if forall|i: int| 0 <= i < bytes.len() ==> #[trigger] is_header_char(bytes[i]) {
        Some(Seq::new(bytes.len(), |i: int| bytes[i] as char))
    } else {
        None
    }
}

/// Returns the text of a header's value, if it is one.
pub fn header_text(bytes: &[u8]) -> (r: Option<String>)
    ensures
        crate::strings::opt_view(r) == header_value(bytes@),
{
    let mut text = String::new();
    let mut i: usize = 0;
    while i < bytes.len()
        invariant
            i <= bytes@.len(),
            text@ == Seq::new(i as nat, |j: int| bytes@[j] as char),
            forall|j: int| 0 <= j < i ==> #[trigger] is_header_char(bytes@[j]),
        decreases bytes@.len() - i,
    {
        let b = bytes[i];
        if !(32 <= b && b < 127 || b == 9) {
            assert(!is_header_char(bytes@[i as int]));
            return None;
        }
        text.push(b as char);
        i += 1;
    }
    Some(text)
}

/// The value of a header is a text exactly where all of its bytes are visible ASCII, spaces or tabs, and
/// the text has a character for each of them.
pub proof fn headers_are_ascii(bytes: Seq<u8>, i: int)
    ensures
        header_value(bytes) matches Some(text) ==> text.len() == bytes.len() && (0 <= i < bytes.len()
            ==> text[i] as int == bytes[i] && (bytes[i] == 9 || 32 <= bytes[i] <= 126)),
        (forall|j: int|
            0 <= j < bytes.len() ==> (#[trigger] bytes[j]) == 9 || 32 <= bytes[j] <= 126)
            ==> header_value(bytes) is Some,
        0 <= i < bytes.len() && bytes[i] != 9 && (bytes[i] < 32 || bytes[i] > 126) ==> header_value(
            bytes,
        ) is None,
{
    if 0 <= i < bytes.len() {
        assert(is_header_char(bytes[i]) <==> bytes[i] == 9 || 32 <= bytes[i] <= 126);
    }
}

} // verus!
