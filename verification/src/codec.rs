//! Percent-coding of target URLs.
//!
//! The relay addresses an upstream resource as `/proxy/<encoded>`, where
//! `<encoded>` is the percent-encoding of the target URL's UTF-8 bytes. A
//! byte is kept when it is unreserved (ASCII alphanumeric or `-`, `_`, `.`,
//! `~`) and written as `%` plus two uppercase hexadecimal digits otherwise.
//! Decoding is strict: a `%` not followed by two hexadecimal digits, or a
//! decoded byte sequence that is not valid UTF-8, is a decode failure.

use vstd::prelude::*;
use vstd::string::StrSliceExecFns;
use vstd::string::StringSliceAdditionalSpecFns;
use vstd::utf8::decode_utf8;
use vstd::utf8::encode_utf8;
use vstd::utf8::encode_utf8_decode_utf8;
use vstd::utf8::encode_utf8_valid_utf8;
use vstd::utf8::is_ascii_chars;
use vstd::utf8::is_ascii_chars_encode_utf8;
use vstd::utf8::valid_utf8;

verus! {

/// A byte that percent-encoding keeps as it is: ASCII alphanumeric or one of
/// `-`, `_`, `.`, `~`.
pub open spec fn is_unreserved_byte(b: u8) -> bool {
    ||| 48 <= b <= 57
    ||| 65 <= b <= 90
    ||| 97 <= b <= 122
    ||| b == 45
    ||| b == 95
    ||| b == 46
    ||| b == 126
}

/// The uppercase hexadecimal digit standing for a value below sixteen.
pub open spec fn hex_upper(n: u8) -> u8
    recommends
        n < 16,
{
    if n < 10 {
        (48 + n) as u8
    } else {
        (55 + n) as u8
    }
}

/// The value of a hexadecimal digit byte, either case, or nothing.
pub open spec fn hex_value(b: u8) -> Option<u8> {
    if 48 <= b <= 57 {
        Some((b - 48) as u8)
    } else if 65 <= b <= 70 {
        Some((b - 55) as u8)
    } else if 97 <= b <= 102 {
        Some((b - 87) as u8)
    } else {
        None
    }
}

/// How one byte is percent-encoded: kept, or `%` and two hexadecimal digits.
pub open spec fn spec_encode_byte(b: u8) -> Seq<u8> {
    if is_unreserved_byte(b) {
        seq![b]
    } else {
        seq![37u8, hex_upper(b / 16), hex_upper(b % 16)]
    }
}

/// The percent-encoding of a byte sequence.
pub open spec fn spec_percent_encode(s: Seq<u8>) -> Seq<u8>
    decreases s.len(),
{
    if s.len() == 0 {
        Seq::empty()
    } else {
        spec_encode_byte(s[0]) + spec_percent_encode(s.drop_first())
    }
}

/// Strict percent-decoding of a byte sequence: every `%` must be followed by
/// two hexadecimal digits; any other byte passes through unchanged.
pub open spec fn spec_percent_decode(s: Seq<u8>) -> Option<Seq<u8>>
    decreases s.len(),
{
    if s.len() == 0 {
        Some(Seq::empty())
    } else if s[0] == 37 {
        if s.len() >= 3 && hex_value(s[1]) is Some && hex_value(s[2]) is Some {
            match spec_percent_decode(s.skip(3)) {
                Some(rest) => Some(
                    seq![(hex_value(s[1])->Some_0 * 16 + hex_value(s[2])->Some_0) as u8] + rest,
                ),
                None => None,
            }
        } else {
            None
        }
    } else {
        match spec_percent_decode(s.skip(1)) {
            Some(rest) => Some(seq![s[0]] + rest),
            None => None,
        }
    }
}

/// What decoding an encoded path segment yields: the percent-decoded bytes
/// read as UTF-8, or nothing when either step fails.
pub open spec fn spec_decode_url(s: Seq<u8>) -> Option<Seq<char>> {
    match spec_percent_decode(s) {
        Some(bytes) => if valid_utf8(bytes) {
            Some(decode_utf8(bytes))
        } else {
            None
        },
        None => None,
    }
}

/// The characters read off a sequence of ASCII bytes, one per byte.
pub open spec fn ascii_chars_of(s: Seq<u8>) -> Seq<char> {
    Seq::new(s.len(), |i: int| s[i] as char)
}

fn unreserved(b: u8) -> (r: bool)
    ensures
        r == is_unreserved_byte(b),
{
    (48 <= b && b <= 57) || (65 <= b && b <= 90) || (97 <= b && b <= 122) || b == 45 || b == 95
        || b == 46 || b == 126
}

fn hex_upper_digit(n: u8) -> (r: u8)
    requires
        n < 16,
    ensures
        r == hex_upper(n),
{
    if n < 10 {
        48 + n
    } else {
        55 + n
    }
}

fn hex_digit_value(b: u8) -> (r: Option<u8>)
    ensures
        r == hex_value(b),
{
    if 48 <= b && b <= 57 {
        Some(b - 48)
    } else if 65 <= b && b <= 70 {
        Some(b - 55)
    } else if 97 <= b && b <= 102 {
        Some(b - 87)
    } else {
        None
    }
}

proof fn lemma_encode_push(s: Seq<u8>, x: u8)
    ensures
        spec_percent_encode(s.push(x)) == spec_percent_encode(s) + spec_encode_byte(x),
    decreases s.len(),
{
    if s.len() == 0 {
        assert(s.push(x).drop_first() =~= Seq::<u8>::empty());
        assert(s.push(x)[0] == x);
        assert(spec_percent_encode(Seq::<u8>::empty()) =~= Seq::<u8>::empty());
        assert(spec_percent_encode(s.push(x)) =~= spec_encode_byte(x) + Seq::<u8>::empty());
        assert(spec_percent_encode(s.push(x)) =~= spec_percent_encode(s) + spec_encode_byte(x));
    } else {
        assert(s.push(x).drop_first() =~= s.drop_first().push(x));
        lemma_encode_push(s.drop_first(), x);
        assert(spec_encode_byte(s[0]) + (spec_percent_encode(s.drop_first()) + spec_encode_byte(x))
            =~= (spec_encode_byte(s[0]) + spec_percent_encode(s.drop_first()))
            + spec_encode_byte(x));
    }
}

/// Percent-encode a sequence of bytes.
pub fn percent_encode(input: &Vec<u8>) -> (r: Vec<u8>)
    ensures
        r@ == spec_percent_encode(input@),
{
    let mut out: Vec<u8> = Vec::new();
    let mut i: usize = 0;
    proof {
        assert(input@.take(0) =~= Seq::<u8>::empty());
    }
    while i < input.len()
        invariant
            i <= input@.len(),
            out@ == spec_percent_encode(input@.take(i as int)),
        decreases input@.len() - i,
    {
        let b = input[i];
        if unreserved(b) {
            out.push(b);
        } else {
            out.push(37);
            out.push(hex_upper_digit(b / 16));
            out.push(hex_upper_digit(b % 16));
        }
        proof {
            assert(input@.take(i + 1) =~= input@.take(i as int).push(input@[i as int]));
            lemma_encode_push(input@.take(i as int), input@[i as int]);
            assert(out@ =~= spec_percent_encode(input@.take(i as int)) + spec_encode_byte(
                input@[i as int],
            ));
        }
        i = i + 1;
    }
    proof {
        assert(input@.take(input@.len() as int) =~= input@);
    }
    out
}

/// Strictly percent-decode a sequence of bytes.
pub fn percent_decode(input: &Vec<u8>) -> (r: Option<Vec<u8>>)
    ensures
        match r {
            Some(v) => spec_percent_decode(input@) == Some(v@),
            None => spec_percent_decode(input@) is None,
        },
{
    let mut out: Vec<u8> = Vec::new();
    let mut i: usize = 0;
    proof {
        assert(input@.skip(0) =~= input@);
    }
    while i < input.len()
        invariant
            i <= input@.len(),
            spec_percent_decode(input@) == match spec_percent_decode(input@.skip(i as int)) {
                Some(rest) => Some(out@ + rest),
                None => None::<Seq<u8>>,
            },
        decreases input@.len() - i,
    {
        let ghost pending = input@.skip(i as int);
        let b = input[i];
        if b == 37 {
            let remaining = input.len() - i;
            if remaining < 3 {
                return None;
            }
            let h1 = hex_digit_value(input[i + 1]);
            let h2 = hex_digit_value(input[i + 2]);
            match (h1, h2) {
                (Some(hi), Some(lo)) => {
                    let ghost out0 = out@;
                    out.push(hi * 16 + lo);
                    proof {
                        assert(pending.skip(3) =~= input@.skip(i + 3));
                        assert(pending[1] == input@[i + 1] && pending[2] == input@[i + 2]);
                        if spec_percent_decode(input@.skip(i + 3)) is Some {
                            let rest = spec_percent_decode(input@.skip(i + 3))->Some_0;
                            assert(spec_percent_decode(pending) == Some(
                                seq![(hi * 16 + lo) as u8] + rest,
                            ));
                            assert(out@ + rest =~= out0 + (seq![(hi * 16 + lo) as u8] + rest));
                        }
                    }
                    i = i + 3;
                },
                _ => {
                    return None;
                },
            }
        } else {
            let ghost out0 = out@;
            out.push(b);
            proof {
                assert(pending.skip(1) =~= input@.skip(i + 1));
                if spec_percent_decode(input@.skip(i + 1)) is Some {
                    let rest = spec_percent_decode(input@.skip(i + 1))->Some_0;
                    assert(out@ + rest =~= out0 + (seq![b] + rest));
                }
            }
            i = i + 1;
        }
    }
    proof {
        assert(input@.skip(input@.len() as int) =~= Seq::<u8>::empty());
        assert(out@ + Seq::<u8>::empty() =~= out@);
    }
    Some(out)
}

/// Law: strict decoding inverts encoding, byte for byte.
pub proof fn lemma_percent_decode_encode(s: Seq<u8>)
    ensures
        spec_percent_decode(spec_percent_encode(s)) == Some(s),
    decreases s.len(),
{
    if s.len() == 0 {
    } else {
        lemma_percent_decode_encode(s.drop_first());
        let e0 = spec_encode_byte(s[0]);
        let rest = spec_percent_encode(s.drop_first());
        let whole = e0 + rest;
        assert(spec_percent_encode(s) == whole);
        if is_unreserved_byte(s[0]) {
            assert(whole[0] == s[0]);
            assert(whole.skip(1) =~= rest);
            assert(seq![s[0]] + s.drop_first() =~= s);
        } else {
            let hi = (s[0] / 16) as u8;
            let lo = (s[0] % 16) as u8;
            assert(whole[0] == 37u8);
            assert(whole.len() >= 3);
            assert(whole[1] == hex_upper(hi) && whole[2] == hex_upper(lo));
            assert(hex_value(hex_upper(hi)) == Some(hi));
            assert(hex_value(hex_upper(lo)) == Some(lo));
            assert(whole.skip(3) =~= rest);
            assert(hi * 16 + lo == s[0]);
            assert(seq![s[0]] + s.drop_first() =~= s);
        }
    }
}

/// Law: every byte an encoding emits is ASCII.
pub proof fn lemma_encode_ascii(s: Seq<u8>)
    ensures
        forall|i: int| 0 <= i < spec_percent_encode(s).len() ==> spec_percent_encode(s)[i] < 128,
    decreases s.len(),
{
    if s.len() == 0 {
    } else {
        lemma_encode_ascii(s.drop_first());
        assert forall|i: int|
            0 <= i < spec_percent_encode(s).len() implies spec_percent_encode(s)[i] < 128 by {
            let e0 = spec_encode_byte(s[0]);
            if i < e0.len() {
                assert(spec_percent_encode(s)[i] == e0[i]);
            } else {
                assert(spec_percent_encode(s)[i] == spec_percent_encode(s.drop_first())[i
                    - e0.len()]);
            }
        }
    }
}

/// Relies on std's `String::from_utf8`: it returns `Ok` exactly when the bytes
/// are valid UTF-8, and the string then reads as the decoding of those bytes.
#[verifier::external_body]
fn utf8_to_string(v: Vec<u8>) -> (r: Option<String>)
    ensures
        r is Some <==> valid_utf8(v@),
        r matches Some(s) ==> s@ == decode_utf8(v@),
{
    match String::from_utf8(v) {
        Ok(s) => Some(s),
        Err(_) => None,
    }
}

/// Turn a vector of ASCII bytes into the string of those characters.
pub fn ascii_to_string(v: Vec<u8>) -> (r: String)
    requires
        forall|i: int| 0 <= i < v@.len() ==> v@[i] < 128,
    ensures
        r@ == ascii_chars_of(v@),
{
    let ghost chars = ascii_chars_of(v@);
    proof {
        assert(is_ascii_chars(chars)) by {
            assert forall|i: int| 0 <= i < chars.len() implies '\0' <= #[trigger] chars[i]
                <= '\u{7f}' by {
                assert(v@[i] < 128);
            }
        }
        is_ascii_chars_encode_utf8(chars);
        assert(encode_utf8(chars) =~= v@);
        encode_utf8_valid_utf8(chars);
        encode_utf8_decode_utf8(chars);
    }
    match utf8_to_string(v) {
        Some(s) => s,
        None => vstd::pervasive::unreached(),
    }
}

/// Percent-encode the UTF-8 bytes of a target URL.
pub fn encode_target_url(url: &str) -> (r: Vec<u8>)
    ensures
        r@ == spec_percent_encode(url.spec_bytes()),
{
    let bytes = url.as_bytes_vec();
    percent_encode(&bytes)
}

/// Decode a percent-encoded path segment back into the target URL, or report
/// the decode failure that the relay answers with a client error.
pub fn decode_target_url(encoded: &str) -> (r: Option<String>)
    ensures
        match r {
            Some(u) => spec_decode_url(encoded.spec_bytes()) == Some(u@),
            None => spec_decode_url(encoded.spec_bytes()) is None,
        },
{
    let bytes = encoded.as_bytes_vec();
    match percent_decode(&bytes) {
        Some(decoded) => utf8_to_string(decoded),
        None => None,
    }
}

/// Law: decoding the encoded form of a URL reconstructs it, byte for byte:
/// the percent-decoding succeeds, the bytes are valid UTF-8, and they read
/// back as the original characters.
pub proof fn lemma_url_round_trip(url: Seq<char>)
    ensures
        spec_decode_url(spec_percent_encode(encode_utf8(url))) == Some(url),
{
    lemma_percent_decode_encode(encode_utf8(url));
    encode_utf8_valid_utf8(url);
    encode_utf8_decode_utf8(url);
}

} // verus!
