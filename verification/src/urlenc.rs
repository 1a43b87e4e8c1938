//! Form-urlencoding of query-string values, as the
//! `application/x-www-form-urlencoded` byte serializer does it: the bytes
//! `*`, `-`, `.`, `_`, digits and ASCII letters stay, a space becomes `+`,
//! every other byte of the UTF-8 encoding becomes `%XX` with upper-case hex.

use vstd::prelude::*;
use vstd::string::StrSliceExecFns;
use vstd::utf8::encode_utf8;

verus! {

/// A byte that the serializer passes through unchanged.
pub open spec fn is_unreserved_byte(b: u8) -> bool {
    (0x61 <= b && b <= 0x7a)  // a-z
     || (0x41 <= b && b <= 0x5a)  // A-Z
     || (0x30 <= b && b <= 0x39)  // 0-9
     || b == 0x2a || b == 0x2d || b == 0x2e || b == 0x5f  // * - . _

}

/// The upper-case hex digit for a value below 16.
pub open spec fn hex_digit(n: u8) -> u8 {
    if n < 10 {
        (0x30 + n) as u8
    } else {
        (0x41 + (n - 10)) as u8
    }
}

/// What one byte of input contributes to the encoded output.
pub open spec fn enc_byte(b: u8) -> Seq<u8> {
    if b == 0x20 {
        seq![0x2bu8]  // '+'

    } else if is_unreserved_byte(b) {
        seq![b]
    } else {
        seq![0x25u8, hex_digit(b / 16), hex_digit(b % 16)]  // "%XX"

    }
}

/// The encoded form of a byte string.
pub open spec fn urlencode_bytes(bs: Seq<u8>) -> Seq<u8>
    decreases bs.len(),
{
    if bs.len() == 0 {
        Seq::empty()
    } else {
        enc_byte(bs[0]) + urlencode_bytes(bs.drop_first())
    }
}

/// ASCII bytes read as characters, one for one.
pub open spec fn ascii_seq(bs: Seq<u8>) -> Seq<char> {
    bs.map(|_i: int, b: u8| b as char)
}

/// The encoded form of a text: its UTF-8 bytes serialized, read as characters.
pub open spec fn urlencoded(s: Seq<char>) -> Seq<char> {
    ascii_seq(urlencode_bytes(encode_utf8(s)))
}

proof fn lemma_urlencode_bytes_push(bs: Seq<u8>, b: u8)
    ensures
        urlencode_bytes(bs.push(b)) == urlencode_bytes(bs) + enc_byte(b),
    decreases bs.len(),
{
    if bs.len() == 0 {
        assert(bs.push(b)[0] == b);
        assert(bs.push(b).drop_first() =~= Seq::<u8>::empty());
        assert(enc_byte(b) + urlencode_bytes(Seq::<u8>::empty()) =~= enc_byte(b));
        assert(urlencode_bytes(bs) + enc_byte(b) =~= enc_byte(b));
    } else {
        assert(bs.push(b)[0] == bs[0]);
        assert(bs.push(b).drop_first() =~= bs.drop_first().push(b));
        lemma_urlencode_bytes_push(bs.drop_first(), b);
        assert(enc_byte(bs[0]) + (urlencode_bytes(bs.drop_first()) + enc_byte(b)) =~= (enc_byte(
            bs[0],
        ) + urlencode_bytes(bs.drop_first())) + enc_byte(b));
    }
}

/// Relies on `String::from_utf8`: a vector of ASCII bytes is valid UTF-8 and
/// decodes to those code points, one character per byte.
#[verifier::external_body]
fn ascii_bytes_to_string(v: Vec<u8>) -> (r: String)
    requires
        forall|i: int| 0 <= i < v@.len() ==> v@[i] < 0x80,
    ensures
        r@ == ascii_seq(v@),
{
    match String::from_utf8(v) {
        Ok(s) => s,
        Err(_) => String::new(),
    }
}

fn hex_upper(n: u8) -> (r: u8)
    requires
        n < 16,
    ensures
        r == hex_digit(n),
{
    if n < 10 {
        0x30 + n
    } else {
        0x41 + (n - 10)
    }
}

fn is_unreserved(b: u8) -> (r: bool)
    ensures
        r == is_unreserved_byte(b),
{
    (0x61 <= b && b <= 0x7a) || (0x41 <= b && b <= 0x5a) || (0x30 <= b && b <= 0x39) || b == 0x2a
        || b == 0x2d || b == 0x2e || b == 0x5f
}

/// Form-urlencodes a text for use as a query-string value.
pub fn urlencode(s: &str) -> (r: String)
    ensures
        r@ == urlencoded(s@),
{
    let bytes = s.as_bytes_vec();
    let mut out: Vec<u8> = Vec::new();
    let mut i: usize = 0;
    while i < bytes.len()
        invariant
            bytes@ == encode_utf8(s@),
            i <= bytes@.len(),
            out@ == urlencode_bytes(bytes@.take(i as int)),
            forall|k: int| 0 <= k < out@.len() ==> out@[k] < 0x80,
        decreases bytes@.len() - i,
    {
        let b = bytes[i];
        if b == 0x20 {
            out.push(0x2b);
        } else if is_unreserved(b) {
            out.push(b);
        } else {
            out.push(0x25);
            out.push(hex_upper(b / 16));
            out.push(hex_upper(b % 16));
        }
        proof {
            lemma_urlencode_bytes_push(bytes@.take(i as int), bytes@[i as int]);
            assert(bytes@.take(i + 1) =~= bytes@.take(i as int).push(bytes@[i as int]));
        }
        i = i + 1;
    }
    proof {
        assert(bytes@.take(bytes@.len() as int) =~= bytes@);
    }
    ascii_bytes_to_string(out)
}

} // verus!
