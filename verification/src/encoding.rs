//! Text forms of bytes and identifiers, and the comparison used for secrets.

use vstd::prelude::*;
use vstd::string::*;
use vstd::utf8::*;

verus! {

/// The sixteen hexadecimal digits in lower case.
pub open spec fn hex_digits() -> Seq<char> {
    seq!['0', '1', '2', '3', '4', '5', '6', '7', '8', '9', 'a', 'b', 'c', 'd', 'e', 'f']
}

/// Lower-case hexadecimal text of a byte string: two digits per byte, the
/// high half of each byte first.
pub open spec fn hex_of(bytes: Seq<u8>) -> Seq<char> {
    Seq::new(
        2 * bytes.len(),
        |i: int|
            if i % 2 == 0 {
                hex_digits()[bytes[i / 2] as int / 16]
            } else {
                hex_digits()[bytes[i / 2] as int % 16]
            },
    )
}

/// Different byte strings have different hexadecimal text.
pub proof fn hex_of_is_injective(a: Seq<u8>, b: Seq<u8>)
    requires
        hex_of(a) == hex_of(b),
    ensures
        a == b,
{
    assert(hex_of(a).len() == 2 * a.len());
    assert(hex_of(b).len() == 2 * b.len());
    assert(a.len() == b.len());
    assert forall|k: int| 0 <= k < a.len() implies a[k] == b[k] by {
        let x = a[k] as int;
        let y = b[k] as int;
        assert(hex_of(a)[2 * k] == hex_digits()[x / 16]);
        assert(hex_of(b)[2 * k] == hex_digits()[y / 16]);
        assert(hex_of(a)[2 * k + 1] == hex_digits()[x % 16]);
        assert(hex_of(b)[2 * k + 1] == hex_digits()[y % 16]);
        assert(0 <= x / 16 < 16 && 0 <= y / 16 < 16);
        assert(0 <= x % 16 < 16 && 0 <= y % 16 < 16);
        assert(x / 16 == y / 16);
        assert(x % 16 == y % 16);
        assert(x == 16 * (x / 16) + x % 16);
        assert(y == 16 * (y / 16) + y % 16);
    }
    assert(a =~= b);
}

/// `hex::encode`: the lower-case hexadecimal text of the bytes, two digits
/// for each byte.
#[verifier::external_body]
pub(crate) fn hex_encode(bytes: &[u8]) -> (text: String)
    ensures
        text@ == hex_of(bytes@),
{
    hex::encode(bytes)
}

/// 16 to the power of `e`.
pub open spec fn pow16(e: nat) -> int
    decreases e,
{
    if e == 0 {
        1
    } else {
        16 * pow16((e - 1) as nat)
    }
}

/// The `k`-th of the 32 hexadecimal digits of an identifier, counted from the
/// most significant one.
pub open spec fn id_nibble(id: u128, k: int) -> int {
    (id as int / pow16((31 - k) as nat)) % 16
}

/// Number of hyphens that stand before position `i` of the hyphenated form.
pub open spec fn hyphens_before(i: int) -> int {
    if i < 8 {
        0
    } else if i < 13 {
        1
    } else if i < 18 {
        2
    } else if i < 23 {
        3
    } else {
        4
    }
}

/// The hyphenated lower-case text of an identifier: 32 hexadecimal digits in
/// groups of 8, 4, 4, 4 and 12.
pub open spec fn id_text(id: u128) -> Seq<char> {
    Seq::new(
        36,
        |i: int|
            if i == 8 || i == 13 || i == 18 || i == 23 {
                '-'
            } else {
                hex_digits()[id_nibble(id, i - hyphens_before(i))]
            },
    )
}

/// `Uuid::to_string` on the identifier with this 128-bit value: its
/// hyphenated lower-case form.
#[verifier::external_body]
pub(crate) fn id_to_text(id: u128) -> (text: String)
    ensures
        text@ == id_text(id),
{
    uuid::Uuid::from_u128(id).to_string()
}

/// The identifier that `Uuid::parse_str` reads from a text, as its 128-bit
/// value; `None` where it rejects the text.
pub uninterp spec fn id_of_text(text: Seq<char>) -> Option<u128>;

/// `Uuid::parse_str`: accepts the simple, hyphenated, braced and URN forms.
#[verifier::external_body]
pub(crate) fn parse_id(text: &str) -> (id: Option<u128>)
    ensures
        id == id_of_text(text@),
{
    match uuid::Uuid::parse_str(text) {
        Ok(parsed) => Some(parsed.as_u128()),
        Err(_) => None,
    }
}

/// The RFC 3339 text of the instant that lies `millis` milliseconds after
/// the start of 1970 in UTC, as chrono writes it; `None` for an instant that
/// chrono cannot represent.
pub uninterp spec fn rfc3339_of(millis: i64) -> Option<Seq<char>>;

/// `DateTime::to_rfc3339` on the UTC instant that
/// `DateTime::from_timestamp_millis` makes of the milliseconds. The latter
/// gives no instant for a number out of its range, and then there is no
/// text.
#[verifier::external_body]
pub(crate) fn timestamp_text(millis: i64) -> (text: Option<String>)
    ensures
        text.deep_view() == rfc3339_of(millis),
{
    match chrono::DateTime::from_timestamp_millis(millis) {
        Some(at) => Some(at.to_rfc3339()),
        None => None,
    }
}

/// `Uuid::new_v4`: a random identifier, drawn from the random source of the
/// operating system. Nothing is known of its value.
#[verifier::external_body]
pub(crate) fn fresh_id() -> u128 {
    uuid::Uuid::new_v4().as_u128()
}

/// Compares two byte strings without stopping at the first difference: when
/// the lengths agree every byte of both is read, whatever the bytes hold.
pub fn constant_time_eq(a: &[u8], b: &[u8]) -> (same: bool)
    ensures
        same == (a@ == b@),
{
    if a.len() != b.len() {
        return false;
    }
    let mut diff: u8 = 0;
    let mut i: usize = 0;
    assert(a@.subrange(0, 0) =~= b@.subrange(0, 0));
    while i < a.len()
        invariant
            i <= a.len(),
            a.len() == b.len(),
            diff == 0 <==> a@.subrange(0, i as int) == b@.subrange(0, i as int),
        decreases a.len() - i,
    {
        let x: u8 = a[i];
        let y: u8 = b[i];
        let next: u8 = diff | (x ^ y);
        assert(next == 0 <==> (diff == 0 && x == y)) by (bit_vector)
            requires
                next == diff | (x ^ y),
        ;
        proof {
            let pa = a@.subrange(0, i as int);
            let pb = b@.subrange(0, i as int);
            let qa = a@.subrange(0, i + 1);
            let qb = b@.subrange(0, i + 1);
            assert(qa =~= pa.push(x));
            assert(qb =~= pb.push(y));
            if qa == qb {
                assert(qa.drop_last() == qb.drop_last());
                assert(pa =~= qa.drop_last());
                assert(pb =~= qb.drop_last());
                assert(qa.last() == qb.last());
            }
        }
        diff = next;
        i = i + 1;
    }
    assert(a@.subrange(0, a.len() as int) =~= a@);
    assert(b@.subrange(0, b.len() as int) =~= b@);
    diff == 0
}

/// Compares two byte strings, stopping at the first difference.
pub fn slices_equal(a: &[u8], b: &[u8]) -> (same: bool)
    ensures
        same == (a@ == b@),
{
    if a.len() != b.len() {
        return false;
    }
    let mut i: usize = 0;
    while i < a.len()
        invariant
            i <= a.len(),
            a.len() == b.len(),
            forall|j: int| 0 <= j < i ==> a@[j] == b@[j],
        decreases a.len() - i,
    {
        if a[i] != b[i] {
            return false;
        }
        i = i + 1;
    }
    assert(a@ =~= b@);
    true
}

/// Compares two strings.
pub fn str_eq(a: &str, b: &str) -> (same: bool)
    ensures
        same == (a@ == b@),
{
    broadcast use vstd::utf8::encode_utf8_decode_utf8;

    let same = slices_equal(a.as_bytes(), b.as_bytes());
    proof {
        if encode_utf8(a@) == encode_utf8(b@) {
            assert(decode_utf8(encode_utf8(a@)) == a@);
            assert(decode_utf8(encode_utf8(b@)) == b@);
        }
    }
    same
}

} // verus!
