//! Text encodings and message authentication, as the outside crates compute them.

use hmac::{Hmac, Mac, NewMac};
use sha1::Sha1;
use vstd::prelude::*;

verus! {

/// The URL-safe Base64 text of some bytes, without padding.
pub uninterp spec fn base64url(bytes: Seq<u8>) -> Seq<char>;

/// The bytes of a URL-safe Base64 text, if it is one.
pub uninterp spec fn base64url_decoded(text: Seq<char>) -> Option<Seq<u8>>;

/// The number of characters that `n` bytes take in Base64 without padding.
pub open spec fn base64url_len(n: nat) -> nat {
    n / 3 * 4 + (if n % 3 == 0 {
        0nat
    } else {
        n % 3 + 1
    })
}

/// Tells whether a character is in the URL-safe Base64 alphabet.
pub open spec fn is_base64url_char(c: char) -> bool {
    ('A' <= c && c <= 'Z') || ('a' <= c && c <= 'z') || ('0' <= c && c <= '9') || c == '-' || c
        == '_'
}

/// `base64::encode_config` with `URL_SAFE_NO_PAD`: writes the bytes in the URL-safe alphabet, four
/// characters for three bytes, and `base64::decode_config` reads the same bytes back.
#[verifier::external_body]
pub(crate) fn encode_base64url(bytes: &[u8]) -> (r: String)
    ensures
        r@ == base64url(bytes@),
        r@.len() == base64url_len(bytes@.len()),
        forall|i: int| 0 <= i < r@.len() ==> #[trigger] is_base64url_char(r@[i]),
        base64url_decoded(r@) == Some(bytes@),
{
    base64::encode_config(bytes, base64::URL_SAFE_NO_PAD)
}

/// The bytes of an optional vector.
pub open spec fn opt_bytes(v: Option<Vec<u8>>) -> Option<Seq<u8>> {
    match v {
        Some(v) => Some(v@),
        None => None,
    }
}

/// `base64::decode_config` with `URL_SAFE_NO_PAD`: the bytes of the text, or nothing where it
/// returns an error.
#[verifier::external_body]
pub(crate) fn decode_base64url(text: &str) -> (r: Option<Vec<u8>>)
    ensures
        opt_bytes(r) == base64url_decoded(text@),
{
    base64::decode_config(text, base64::URL_SAFE_NO_PAD).ok()
}

/// The number of bytes of a SHA-1 digest.
pub const DIGEST_LEN: usize = 20;

/// The value of a hexadecimal digit in either case.
pub open spec fn hex_digit(b: u8) -> Option<u8> {
    if 0x30 <= b <= 0x39 {
        Some((b - 0x30) as u8)
    } else if 0x41 <= b <= 0x46 {
        Some((b - 0x41 + 10) as u8)
    } else if 0x61 <= b <= 0x66 {
        Some((b - 0x61 + 10) as u8)
    } else {
        None
    }
}

/// Tells whether `bytes` are what `text` spells with two hexadecimal digits for each byte.
pub open spec fn spells_hex(text: Seq<u8>, bytes: Seq<u8>) -> bool {
    &&& text.len() == 2 * bytes.len()
    &&& forall|i: int|
        0 <= i < bytes.len() ==> {
            &&& hex_digit(text[2 * i]) is Some
            &&& hex_digit(text[2 * i + 1]) is Some
            &&& #[trigger] bytes[i] == hex_digit(text[2 * i])->0 * 16 + hex_digit(
                text[2 * i + 1],
            )->0
        }
}

/// Tells whether a text is made of two hexadecimal digits for each of `n` bytes.
pub open spec fn is_hex_text(text: Seq<u8>, n: nat) -> bool {
    &&& text.len() == 2 * n
    &&& forall|i: int| 0 <= i < text.len() ==> hex_digit(#[trigger] text[i]) is Some
}

/// `hex::decode_to_slice` into a buffer of `n` bytes: succeeds on exactly two hexadecimal digits,
/// of either case, for each byte of the buffer, and fills it with the bytes that they spell.
#[verifier::external_body]
pub(crate) fn decode_hex(text: &[u8], n: usize) -> (r: Option<Vec<u8>>)
    ensures
        r is Some <==> is_hex_text(text@, n as nat),
        r matches Some(bytes) ==> bytes@.len() == n && spells_hex(text@, bytes@),
{
    let mut bytes = vec![0_u8; n];
    hex::decode_to_slice(text, &mut bytes).ok().map(|()| bytes)
}

/// The bytes that hexadecimal digits spell.
pub open spec fn hex_bytes(text: Seq<u8>) -> Seq<u8> {
    Seq::new(
        text.len() / 2,
        |i: int| (hex_digit(text[2 * i])->0 * 16 + hex_digit(text[2 * i + 1])->0) as u8,
    )
}

/// The lowercase hexadecimal digit of a value below sixteen.
pub open spec fn hex_char(v: int) -> u8 {
    if v < 10 {
        (v + 0x30) as u8
    } else {
        (v - 10 + 0x61) as u8
    }
}

/// The lowercase hexadecimal text of some bytes.
pub open spec fn hex_text(bytes: Seq<u8>) -> Seq<u8> {
    Seq::new(
        2 * bytes.len(),
        |i: int|
            if i % 2 == 0 {
                hex_char(bytes[i / 2] as int / 16)
            } else {
                hex_char(bytes[i / 2] as int % 16)
            },
    )
}

/// Bytes are read back from their lowercase hexadecimal text, and no other bytes are.
pub proof fn hex_text_is_read_back(bytes: Seq<u8>, read: Seq<u8>)
    ensures
        is_hex_text(hex_text(bytes), bytes.len()),
        spells_hex(hex_text(bytes), read) <==> read == bytes,
{
    let text = hex_text(bytes);
    assert forall|i: int| 0 <= i < bytes.len() implies {
        &&& hex_digit(text[2 * i]) == Some((bytes[i] as int / 16) as u8)
        &&& hex_digit(text[2 * i + 1]) == Some((bytes[i] as int % 16) as u8)
        &&& #[trigger] bytes[i] == hex_digit(text[2 * i])->0 * 16 + hex_digit(text[2 * i + 1])->0
    } by {
        assert((2 * i) / 2 == i && (2 * i) % 2 == 0);
        assert((2 * i + 1) / 2 == i && (2 * i + 1) % 2 == 1);
    }
    assert forall|i: int| 0 <= i < text.len() implies hex_digit(#[trigger] text[i]) is Some by {
        assert(bytes[i / 2] == bytes[i / 2]);
        assert(i == 2 * (i / 2) || i == 2 * (i / 2) + 1);
    }
    if spells_hex(text, read) {
        assert forall|i: int| 0 <= i < bytes.len() implies read[i] == bytes[i] by {
            assert(bytes[i] == bytes[i]);
            assert(read[i] == read[i]);
        }
        assert(read == bytes);
    }
}

/// The HMAC-SHA1 code of a message under a key.
pub uninterp spec fn hmac_sha1_code(key: Seq<u8>, message: Seq<u8>) -> Seq<u8>;

/// `hmac::Hmac<Sha1>` made of a key of any length, fed with the whole message and finalized: the
/// code of the message, which is as long as a SHA-1 digest.
#[verifier::external_body]
pub(crate) fn hmac_sha1(key: &[u8], message: &[u8]) -> (r: Vec<u8>)
    ensures
        r@ == hmac_sha1_code(key@, message@),
        r@.len() == DIGEST_LEN,
{
    let mut mac = Hmac::<Sha1>::new_varkey(key).unwrap();
    mac.update(message);
    mac.finalize().into_bytes().to_vec()
}

/// A name and a value of a form.
pub type Pair = (Seq<char>, Seq<char>);

/// The characters of the names and values of a form.
pub open spec fn pairs_view(pairs: Seq<(String, String)>) -> Seq<Pair> {
    Seq::new(pairs.len(), |i: int| (pairs[i].0@, pairs[i].1@))
}

/// The characters of the names and values of an optional form.
pub open spec fn opt_pairs_view(pairs: Option<Vec<(String, String)>>) -> Option<Seq<Pair>> {
    match pairs {
        Some(pairs) => Some(pairs_view(pairs@)),
        None => None,
    }
}

/// The `application/x-www-form-urlencoded` text of a form.
pub uninterp spec fn form_text(pairs: Seq<(Seq<char>, Seq<char>)>) -> Seq<char>;

/// The form of an `application/x-www-form-urlencoded` text.
pub uninterp spec fn form_pairs(text: Seq<u8>) -> Option<Seq<(Seq<char>, Seq<char>)>>;

/// `serde_urlencoded::to_string` of a sequence of pairs, which `serde_urlencoded::from_bytes` reads
/// back as the same pairs; it does not fail on pairs of strings.
#[verifier::external_body]
pub(crate) fn encode_form(pairs: &Vec<(String, String)>) -> (r: String)
    ensures
        r@ == form_text(pairs_view(pairs@)),
        form_pairs(vstd::utf8::encode_utf8(r@)) == Some(pairs_view(pairs@)),
{
    serde_urlencoded::to_string(pairs).unwrap()
}

/// `serde_urlencoded::from_bytes` into a sequence of pairs, or nothing where it returns an error.
#[verifier::external_body]
pub(crate) fn decode_form(text: &[u8]) -> (r: Option<Vec<(String, String)>>)
    ensures
        opt_pairs_view(r) == form_pairs(text@),
{
    serde_urlencoded::from_bytes(text).ok()
}

/// The values under a name, in the order of the form.
pub open spec fn values_of(pairs: Seq<Pair>, name: Seq<char>) -> Seq<Seq<char>>
    decreases pairs.len(),
{
    if pairs.len() == 0 {
        Seq::empty()
    } else {
        let rest = values_of(pairs.drop_last(), name);
        if pairs.last().0 == name {
            rest.push(pairs.last().1)
        } else {
            rest
        }
    }
}

/// The value under a name that occurs exactly once.
pub open spec fn only_value(pairs: Seq<Pair>, name: Seq<char>) -> Option<Seq<char>> {
    if values_of(pairs, name).len() == 1 {
        Some(values_of(pairs, name)[0])
    } else {
        None
    }
}

/// Returns the value under a name, if the name occurs exactly once.
pub fn find_only_value(pairs: &Vec<(String, String)>, name: &str) -> (r: Option<String>)
    ensures
        crate::strings::opt_view(r) == only_value(pairs_view(pairs@), name@),
{
    let ghost view = pairs_view(pairs@);
    let mut count: usize = 0;
    let mut found: Option<String> = None;
    let mut i: usize = 0;
    assert(view.take(0) == Seq::<Pair>::empty());
    while i < pairs.len()
        invariant
            i <= pairs@.len(),
            view == pairs_view(pairs@),
            count <= i,
            count == values_of(view.take(i as int), name@).len(),
            count == 0 ==> found is None,
            count == 1 ==> crate::strings::opt_view(found) == Some(
                values_of(view.take(i as int), name@)[0],
            ),
        decreases pairs@.len() - i,
    {
        assert(view.take(i + 1).drop_last() == view.take(i as int));
        assert(view.take(i + 1).last() == view[i as int]);
        if crate::strings::str_eq(pairs[i].0.as_str(), name) {
            if count == 0 {
                found = Some(pairs[i].1.clone());
            }
            count += 1;
        }
        i += 1;
    }
    assert(view.take(i as int) == view);
    if count == 1 {
        found
    } else {
        None
    }
}

/// Adds a field to a form.
pub fn push_field(fields: &mut Vec<(String, String)>, name: &str, value: &str)
    ensures
        pairs_view(final(fields)@) == pairs_view(old(fields)@).push((name@, value@)),
{
    fields.push((name.to_owned(), value.to_owned()));
    assert(pairs_view(fields@) == pairs_view(old(fields)@).push((name@, value@)));
}

/// The values under a name in a form that follows another come behind those of the other, one for each
/// time that the name occurs.
pub proof fn values_keep_the_order_of_the_form(a: Seq<Pair>, b: Seq<Pair>, name: Seq<char>)
    ensures
        values_of(a + b, name) == values_of(a, name) + values_of(b, name),
        b.len() == 1 && b[0].0 == name ==> values_of(b, name) == seq![b[0].1],
        b.len() == 1 && b[0].0 != name ==> values_of(b, name) == Seq::<Seq<char>>::empty(),
        b.len() == 0 ==> values_of(b, name) == Seq::<Seq<char>>::empty(),
    decreases b.len(),
{
    if b.len() == 0 {
        assert(a + b == a);
        assert(values_of(a, name) + values_of(b, name) == values_of(a, name));
    } else {
        let before = b.drop_last();
        values_keep_the_order_of_the_form(a, before, name);
        assert((a + b).drop_last() == a + before);
        assert((a + b).last() == b.last());
        if b.len() == 1 {
            assert(before == Seq::<Pair>::empty());
            assert(b.last() == b[0]);
            assert(values_of(before, name) == Seq::<Seq<char>>::empty());
        }
        assert(values_of(a + b, name) == values_of(a, name) + values_of(b, name));
    }
}

/// There is no value under a name that does not occur.
proof fn absent_names_have_no_values(pairs: Seq<Pair>, name: Seq<char>)
    requires
        forall|i: int| 0 <= i < pairs.len() ==> (#[trigger] pairs[i]).0 != name,
    ensures
        values_of(pairs, name) == Seq::<Seq<char>>::empty(),
    decreases pairs.len(),
{
    if pairs.len() > 0 {
        let before = pairs.drop_last();
        assert forall|i: int| 0 <= i < before.len() implies (#[trigger] before[i]).0 != name by {
            assert(before[i] == pairs[i]);
        }
        absent_names_have_no_values(before, name);
        assert(pairs[pairs.len() - 1] == pairs.last());
    }
}

/// A name that occurs once has the value that stands there, wherever that is. One that does not occur
/// has none, and neither has one that occurs twice.
pub proof fn only_value_is_the_only_one(pairs: Seq<Pair>, name: Seq<char>, i: int, j: int)
    ensures
        0 <= i < pairs.len() && pairs[i].0 == name && (forall|k: int|
            0 <= k < pairs.len() && k != i ==> (#[trigger] pairs[k]).0 != name) ==> only_value(
            pairs,
            name,
        ) == Some(pairs[i].1),
        (forall|k: int| 0 <= k < pairs.len() ==> (#[trigger] pairs[k]).0 != name) ==> only_value(
            pairs,
            name,
        ) is None,
        0 <= i < j < pairs.len() && pairs[i].0 == name && pairs[j].0 == name ==> only_value(
            pairs,
            name,
        ) is None,
{
    if 0 <= i < pairs.len() && pairs[i].0 == name {
        let head = pairs.take(i);
        let tail = pairs.skip(i + 1);
        let one = seq![pairs[i]];
        assert(pairs == (head + one) + tail);
        values_keep_the_order_of_the_form(head + one, tail, name);
        values_keep_the_order_of_the_form(head, one, name);
        if forall|k: int| 0 <= k < pairs.len() && k != i ==> (#[trigger] pairs[k]).0 != name {
            assert forall|k: int| 0 <= k < head.len() implies (#[trigger] head[k]).0 != name by {
                assert(head[k] == pairs[k]);
            }
            assert forall|k: int| 0 <= k < tail.len() implies (#[trigger] tail[k]).0 != name by {
                assert(tail[k] == pairs[i + 1 + k]);
            }
            absent_names_have_no_values(head, name);
            absent_names_have_no_values(tail, name);
        }
        if i < j < pairs.len() && pairs[j].0 == name {
            let front = tail.take(j - i - 1);
            let back = tail.skip(j - i);
            let other = seq![pairs[j]];
            assert(tail == (front + other) + back);
            values_keep_the_order_of_the_form(front + other, back, name);
            values_keep_the_order_of_the_form(front, other, name);
            assert(values_of(pairs, name).len() >= 2);
        }
    }
    if forall|k: int| 0 <= k < pairs.len() ==> (#[trigger] pairs[k]).0 != name {
        absent_names_have_no_values(pairs, name);
    }
}

/// Hexadecimal digits are those of sixteen values, in either case, and nothing else is one.
pub proof fn hex_digits_have_values(v: u8, b: u8)
    ensures
        v < 10 ==> hex_digit((0x30 + v) as u8) == Some(v),
        10 <= v < 16 ==> hex_digit((0x41 + v - 10) as u8) == Some(v) && hex_digit(
            (0x61 + v - 10) as u8,
        ) == Some(v),
        hex_digit(b) matches Some(value) ==> value < 16,
        !(0x30 <= b <= 0x39) && !(0x41 <= b <= 0x46) && !(0x61 <= b <= 0x66) ==> hex_digit(b)
            is None,
{
}

/// The bytes of a hexadecimal text are those that it spells.
pub proof fn hex_bytes_are_spelled(text: Seq<u8>, n: nat)
    requires
        is_hex_text(text, n),
    ensures
        hex_bytes(text).len() == n,
        spells_hex(text, hex_bytes(text)),
        forall|i: int|
            0 <= i < n ==> #[trigger] hex_bytes(text)[i] as int / 16 == hex_digit(text[2 * i])->0
                && hex_bytes(text)[i] as int % 16 == hex_digit(text[2 * i + 1])->0,
{
    assert forall|i: int| 0 <= i < n implies {
        &&& hex_digit(text[2 * i]) is Some
        &&& hex_digit(text[2 * i + 1]) is Some
        &&& #[trigger] hex_bytes(text)[i] == hex_digit(text[2 * i])->0 * 16 + hex_digit(
            text[2 * i + 1],
        )->0
    } by {
        hex_digits_have_values(0, text[2 * i]);
        hex_digits_have_values(0, text[2 * i + 1]);
    }
    assert forall|i: int| 0 <= i < n implies #[trigger] hex_bytes(text)[i] as int / 16 == hex_digit(
        text[2 * i],
    )->0 && hex_bytes(text)[i] as int % 16 == hex_digit(text[2 * i + 1])->0 by {
        hex_digits_have_values(0, text[2 * i]);
        hex_digits_have_values(0, text[2 * i + 1]);
    }
}

/// A field that is added to a form is found under its name, and changes nothing under other names.
pub proof fn added_fields_are_found(
    pairs: Seq<Pair>,
    name: Seq<char>,
    value: Seq<char>,
    asked: Seq<char>,
)
    ensures
        asked == name ==> values_of(pairs.push((name, value)), asked) == values_of(
            pairs,
            asked,
        ).push(value),
        asked != name ==> values_of(pairs.push((name, value)), asked) == values_of(pairs, asked),
{
    let one: Seq<Pair> = seq![(name, value)];
    assert(pairs.push((name, value)) == pairs + one);
    values_keep_the_order_of_the_form(pairs, one, asked);
    assert(values_of(pairs, asked) + seq![value] == values_of(pairs, asked).push(value));
    assert(values_of(pairs, asked) + Seq::<Seq<char>>::empty() == values_of(pairs, asked));
}

} // verus!
