//! The WebSub subscriber.

pub mod discovery;
pub mod hub;
pub mod renewer;
pub mod scheduler;
pub mod service;
pub mod store;
pub mod subscriber;

use vstd::prelude::*;
use vstd::string::*;
use vstd::utf8::*;

use crate::encoding::{decode_base64url, encode_base64url};
#[allow(unused_imports)]
use crate::encoding::{base64url, base64url_decoded, base64url_len, is_base64url_char};

verus! {

/// The number that bytes denote in little endian.
pub open spec fn le_value(bytes: Seq<u8>) -> nat
    decreases bytes.len(),
{
    if bytes.len() == 0 {
        0
    } else {
        bytes[0] as nat + 256 * le_value(bytes.skip(1))
    }
}

/// `bytes` without the zeros at their end, which are the most significant in little endian.
pub open spec fn without_high_zeros(bytes: Seq<u8>) -> Seq<u8>
    decreases bytes.len(),
{
    if bytes.len() > 0 && bytes.last() == 0 {
        without_high_zeros(bytes.drop_last())
    } else {
        bytes
    }
}

/// The ID that a callback path segment denotes.
pub open spec fn callback_id(text: Seq<char>) -> Option<u64> {
    match base64url_decoded(text) {
        Some(bytes) => if encode_utf8(text).len() <= 11 && bytes.len() <= 8 {
            Some(le_value(bytes) as u64)
        } else {
            None
        },
        None => None,
    }
}

/// The bytes of a number below a power of 256 denote it.
pub open spec fn pow256(n: nat) -> nat
    decreases n,
{
    if n == 0 {
        1
    } else {
        256 * pow256((n - 1) as nat)
    }
}

/// `n` bytes denote a number below the `n`th power of 256.
pub proof fn le_value_bound(bytes: Seq<u8>)
    ensures
        le_value(bytes) < pow256(bytes.len()),
    decreases bytes.len(),
{
    if bytes.len() > 0 {
        le_value_bound(bytes.skip(1));
    }
}

/// Eight bytes or fewer denote a 64-bit number.
proof fn le_value_fits(bytes: Seq<u8>)
    requires
        bytes.len() <= 8,
    ensures
        le_value(bytes) <= u64::MAX,
{
    le_value_bound(bytes);
    reveal_with_fuel(pow256, 9);
    assert(pow256(8) == 0x1_0000_0000_0000_0000);
    assert(pow256(bytes.len()) <= pow256(8));
}

/// A further most significant byte adds its share.
proof fn le_value_push(bytes: Seq<u8>, b: u8)
    ensures
        le_value(bytes.push(b)) == le_value(bytes) + b * pow256(bytes.len()),
    decreases bytes.len(),
{
    reveal_with_fuel(le_value, 2);
    if bytes.len() == 0 {
        assert(bytes.push(b).skip(1) == Seq::<u8>::empty());
        assert(b * pow256(0) == b) by (nonlinear_arith)
            requires
                pow256(0) == 1,
        ;
    } else {
        let rest = bytes.skip(1);
        assert(bytes.push(b).skip(1) == rest.push(b));
        le_value_push(rest, b);
        assert(256 * (b * pow256(rest.len())) == b * (256 * pow256(rest.len())))
            by (nonlinear_arith);
    }
}

/// High zeros do not change the number that bytes denote.
proof fn high_zeros_add_nothing(bytes: Seq<u8>)
    ensures
        le_value(without_high_zeros(bytes)) == le_value(bytes),
        without_high_zeros(bytes).len() <= bytes.len(),
        without_high_zeros(bytes).is_prefix_of(bytes),
    decreases bytes.len(),
{
    if bytes.len() > 0 && bytes.last() == 0 {
        high_zeros_add_nothing(bytes.drop_last());
        le_value_push(bytes.drop_last(), 0);
        assert(bytes.drop_last().push(0) == bytes);
        assert(0 * pow256(bytes.drop_last().len()) == 0) by (nonlinear_arith);
    }
}

/// Writes a number in little endian.
pub fn le_bytes(n: u64) -> (r: Vec<u8>)
    ensures
        r@.len() == 8,
        le_value(r@) == n,
{
    let mut r: Vec<u8> = Vec::new();
    let mut rest: u64 = n;
    let mut i: usize = 0;
    proof {
        assert(rest * pow256(0) == rest) by (nonlinear_arith)
            requires
                pow256(0) == 1,
        ;
    }
    while i < 8
        invariant
            i <= 8,
            r@.len() == i,
            le_value(r@) + rest * pow256(i as nat) == n,
        decreases 8 - i,
    {
        let b: u8 = (rest % 256) as u8;
        let ghost before = r@;
        proof {
            le_value_push(before, b);
            let p = pow256(i as nat);
            assert(rest == (rest / 256) * 256 + b);
            assert(rest * p == (rest / 256) * (256 * p) + b * p) by (nonlinear_arith)
                requires
                    rest == (rest / 256) * 256 + b,
            ;
        }
        r.push(b);
        rest = rest / 256;
        i += 1;
    }
    proof {
        reveal_with_fuel(pow256, 9);
        assert(pow256(8) == 0x1_0000_0000_0000_0000);
        assert(rest * pow256(8) >= pow256(8) || rest == 0) by (nonlinear_arith);
        assert(0 * pow256(8) == 0);
    }
    r
}

/// Writes an ID, given as eight bytes in little endian, as a callback path segment.
///
/// What is written is read back by `decode_callback_id` as the ID.
pub fn encode_callback_id(id: &[u8]) -> (r: String)
    requires
        id@.len() == 8,
    ensures
        r@ == base64url(without_high_zeros(id@)),
        forall|i: int| 0 <= i < r@.len() ==> #[trigger] is_base64url_char(r@[i]),
        callback_id(r@) == Some(le_value(id@) as u64),
{
    // Strip the most significant zeroes.
    let mut n: usize = id.len();
    assert(id@.take(n as int) == id@);
    while n > 0 && id[n - 1] == 0
        invariant
            n <= id@.len(),
            id@.len() == 8,
            without_high_zeros(id@.take(n as int)) == without_high_zeros(id@),
        decreases n,
    {
        assert(id@.take(n as int).drop_last() == id@.take(n - 1));
        n -= 1;
    }
    let stripped = vstd::slice::slice_subrange(id, 0, n);
    assert(stripped@ == id@.take(n as int));
    assert(stripped@ == without_high_zeros(id@));
    let r = encode_base64url(stripped);
    proof {
        high_zeros_add_nothing(id@);
        le_value_fits(id@);
        assert(is_ascii_chars(r@)) by {
            assert forall|i: int| 0 <= i < r@.len() implies '\0' <= #[trigger] r@[i] <= '\u{7f}' by {
                assert(is_base64url_char(r@[i]));
            }
        }
        is_ascii_chars_encode_utf8(r@);
        assert(encode_utf8(r@).len() == base64url_len(stripped@.len()));
    }
    r
}

/// Reads an ID from a callback path segment.
pub fn decode_callback_id(id: &str) -> (r: Option<u64>)
    ensures
        r == callback_id(id@),
{
    if id.as_bytes().len() > 11 {
        return None;
    }
    match decode_base64url(id) {
        Some(bytes) => {
            if bytes.len() > 8 {
                return None;
            }
            proof {
                le_value_fits(bytes@);
            }
            Some(read_le(&bytes))
        },
        None => None,
    }
}

/// Reads a number in little endian.
fn read_le(bytes: &Vec<u8>) -> (r: u64)
    requires
        bytes@.len() <= 8,
    ensures
        r == le_value(bytes@),
{
    let mut r: u64 = 0;
    let mut i: usize = bytes.len();
    assert(bytes@.skip(i as int) == Seq::<u8>::empty());
    while i > 0
        invariant
            i <= bytes@.len() <= 8,
            r == le_value(bytes@.skip(i as int)),
        decreases i,
    {
        i -= 1;
        proof {
            assert(bytes@.skip(i as int).skip(1) == bytes@.skip(i + 1));
            assert(bytes@.skip(i as int)[0] == bytes@[i as int]);
            le_value_fits(bytes@.skip(i as int));
        }
        r = r * 256 + bytes[i] as u64;
    }
    assert(bytes@.skip(0) == bytes@);
    r
}

/// Bytes denote the same number with or without zeros at their end, and none is left there.
pub proof fn high_zeros_are_stripped(bytes: Seq<u8>)
    ensures
        le_value(without_high_zeros(bytes)) == le_value(bytes),
        without_high_zeros(bytes).is_prefix_of(bytes),
        without_high_zeros(bytes).len() > 0 ==> without_high_zeros(bytes).last() != 0,
    decreases bytes.len(),
{
    high_zeros_add_nothing(bytes);
    if bytes.len() > 0 && bytes.last() == 0 {
        high_zeros_are_stripped(bytes.drop_last());
    }
}

/// The first byte is the least significant one, and each further one counts 256 times as much as the
/// one before.
pub proof fn bytes_grow_in_significance(b: u8, rest: Seq<u8>)
    ensures
        le_value(seq![b] + rest) == b + 256 * le_value(rest),
        le_value(Seq::empty()) == 0,
{
    assert((seq![b] + rest).skip(1) == rest);
    assert((seq![b] + rest)[0] == b);
}

/// A path segment is read as the number that its bytes denote, where it is Base64 of at most eight
/// bytes in at most eleven bytes of text; nothing else is an ID.
pub proof fn segments_are_read_as_ids(text: Seq<char>, bytes: Seq<u8>)
    ensures
        base64url_decoded(text) is None ==> callback_id(text) is None,
        base64url_decoded(text) == Some(bytes) ==> {
            &&& bytes.len() <= 8 && encode_utf8(text).len() <= 11 ==> callback_id(text) == Some(
                le_value(bytes) as u64,
            )
            &&& bytes.len() > 8 || encode_utf8(text).len() > 11 ==> callback_id(text) is None
        },
{
}

} // verus!
