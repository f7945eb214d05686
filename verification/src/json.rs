//! The pieces of JSON text that a header block is made of.

use crate::error::DcaError;
use vstd::prelude::*;
use vstd::string::StringSliceAdditionalSpecFns;
use vstd::utf8::{encode_utf8, is_ascii_chars, is_ascii_chars_encode_utf8};

verus! {

/// `serde_json::Error`, why a value could not be written, taken as it is.
#[verifier::external_type_specification]
#[verifier::external_body]
pub struct ExJsonError(serde_json::Error);

/// The lower-case hexadecimal digit of a number below 16, in ASCII.
pub open spec fn hex_digit(n: int) -> u8 {
    if n < 10 {
        (48 + n) as u8
    } else {
        (87 + n) as u8
    }
}

/// One byte of a string as it stands inside a JSON string: the quote, the
/// backslash and the control characters are escaped, every other byte stands
/// for itself.
pub open spec fn escaped_byte(b: u8) -> Seq<u8> {
    if b == 0x22 {
        seq![0x5cu8, 0x22u8]
    } else if b == 0x5c {
        seq![0x5cu8, 0x5cu8]
    } else if b == 0x08 {
        seq![0x5cu8, 0x62u8]
    } else if b == 0x09 {
        seq![0x5cu8, 0x74u8]
    } else if b == 0x0a {
        seq![0x5cu8, 0x6eu8]
    } else if b == 0x0c {
        seq![0x5cu8, 0x66u8]
    } else if b == 0x0d {
        seq![0x5cu8, 0x72u8]
    } else if b < 0x20 {
        seq![0x5cu8, 0x75u8, 0x30u8, 0x30u8, hex_digit(b as int / 16), hex_digit(b as int % 16)]
    } else {
        seq![b]
    }
}

/// The bytes of a string as they stand inside a JSON string.
pub open spec fn escaped(bytes: Seq<u8>) -> Seq<u8>
    decreases bytes.len(),
{
    if bytes.len() == 0 {
        Seq::empty()
    } else {
        escaped_byte(bytes.first()) + escaped(bytes.drop_first())
    }
}

/// The JSON text of a string: its UTF-8 bytes between double quotes, with
/// the quote, the backslash and the control characters escaped.
pub open spec fn json_string(text: Seq<char>) -> Seq<u8> {
    seq![0x22u8] + escaped(encode_utf8(text)) + seq![0x22u8]
}

/// UTF-8 takes at most four bytes for a character.
pub proof fn utf8_len(text: Seq<char>)
    ensures
        encode_utf8(text).len() <= 4 * text.len(),
    decreases text.len(),
{
    if text.len() > 0 {
        utf8_len(text.drop_first());
    }
}

/// Escaping drops no byte and makes at most six of one.
pub proof fn escaped_len(bytes: Seq<u8>)
    ensures
        bytes.len() <= escaped(bytes).len() <= 6 * bytes.len(),
    decreases bytes.len(),
{
    if bytes.len() > 0 {
        escaped_len(bytes.drop_first());
    }
}

/// The JSON text of a string is at most six times as long as the string in
/// UTF-8, and the two quotes.
pub proof fn json_string_len(text: Seq<char>)
    ensures
        encode_utf8(text).len() + 2 <= json_string(text).len() <= 6 * encode_utf8(text).len() + 2,
{
    escaped_len(encode_utf8(text));
}

/// Bytes that need no escape stand inside a JSON string as they are.
pub proof fn escaped_plain(bytes: Seq<u8>)
    requires
        forall|i: int|
            0 <= i < bytes.len() ==> #[trigger] bytes[i] >= 0x20 && bytes[i] != 0x22 && bytes[i]
                != 0x5c,
    ensures
        escaped(bytes) == bytes,
    decreases bytes.len(),
{
    if bytes.len() > 0 {
        let rest = bytes.drop_first();
        assert forall|i: int| 0 <= i < rest.len() implies #[trigger] rest[i] >= 0x20 && rest[i]
            != 0x22 && rest[i] != 0x5c by {
            assert(rest[i] == bytes[i + 1]);
        }
        escaped_plain(rest);
        assert(bytes.first() == bytes[0]);
        assert(escaped(bytes) =~= bytes);
    } else {
        assert(escaped(bytes) =~= bytes);
    }
}

/// Printable ASCII without quote and backslash stands between the two quotes
/// of its JSON text as it is, a byte for a character.
pub proof fn json_string_of_plain_text(text: Seq<char>)
    requires
        forall|i: int|
            0 <= i < text.len() ==> ' ' <= #[trigger] text[i] <= '~' && text[i] != '"' && text[i]
                != '\\',
    ensures
        json_string(text) == seq![0x22u8] + Seq::new(text.len(), |i: int| text[i] as u8)
            + seq![0x22u8],
{
    let bytes = encode_utf8(text);
    assert(is_ascii_chars(text));
    is_ascii_chars_encode_utf8(text);
    assert(bytes =~= Seq::new(text.len(), |i: int| text[i] as u8));
    assert forall|i: int| 0 <= i < bytes.len() implies #[trigger] bytes[i] >= 0x20 && bytes[i]
        != 0x22 && bytes[i] != 0x5c by {
        assert(bytes[i] == text[i] as u8);
    }
    escaped_plain(bytes);
}

/// `serde_json::to_vec` on a string. It writes into a vector, which takes
/// every byte, and a string has nothing in it that cannot be written: so it
/// succeeds, and returns the JSON text of the string.
#[verifier::external_body]
fn quote(text: &str) -> (quoted: Result<Vec<u8>, serde_json::Error>)
    ensures
        quoted is Ok,
        quoted matches Ok(bytes) ==> bytes@ == json_string(text@),
{
    serde_json::to_vec(text)
}

/// The decimal digits of `n` in ASCII, without leading zeros.
pub open spec fn decimal(n: nat) -> Seq<u8>
    decreases n,
{
    if n < 10 {
        seq![(48 + n) as u8]
    } else {
        decimal(n / 10).push((48 + n % 10) as u8)
    }
}

/// Ten to the power of `k`.
pub open spec fn pow10(k: nat) -> nat
    decreases k,
{
    if k == 0 {
        1
    } else {
        10 * pow10((k - 1) as nat)
    }
}

/// A number below ten to the power of `k` has at most `k` digits.
pub proof fn decimal_len(n: nat, k: nat)
    requires
        k >= 1,
        n < pow10(k),
    ensures
        1 <= decimal(n).len() <= k,
    decreases n,
{
    if n >= 10 {
        assert(pow10(1) == 10) by {
            reveal_with_fuel(pow10, 2);
        }
        assert(k >= 2);
        decimal_len(n / 10, (k - 1) as nat);
    }
}

/// A number of 64 bits has at most twenty digits.
pub proof fn decimal_len_u64(n: u64)
    ensures
        1 <= decimal(n as nat).len() <= 20,
{
    assert(pow10(20) == 100000000000000000000) by {
        reveal_with_fuel(pow10, 21);
    }
    decimal_len(n as nat, 20);
}

/// The JSON text of a truth value.
pub open spec fn json_bool(b: bool) -> Seq<u8> {
    if b {
        "true".spec_bytes()
    } else {
        "false".spec_bytes()
    }
}

/// The JSON text of an optional string: `null` where there is none.
pub open spec fn json_opt_string(text: Option<Seq<char>>) -> Seq<u8> {
    match text {
        Some(t) => json_string(t),
        None => "null".spec_bytes(),
    }
}

/// An optional number of any width as a natural number.
pub open spec fn number_of<T: Integer>(n: Option<T>) -> Option<nat> {
    match n {
        Some(k) => Some(k as nat),
        None => None,
    }
}

/// The JSON text of an optional number: `null` where there is none.
pub open spec fn json_opt_number(n: Option<nat>) -> Seq<u8> {
    match n {
        Some(k) => decimal(k),
        None => "null".spec_bytes(),
    }
}

/// A buffer that holds text as it stands.
pub fn text_bytes(text: &str) -> (buf: Vec<u8>)
    ensures
        buf@ == text.spec_bytes(),
{
    let mut buf: Vec<u8> = Vec::new();
    buf.extend_from_slice(text.as_bytes());
    assert(buf@ =~= text.spec_bytes());
    buf
}

/// Appends bytes as they stand.
pub fn push_bytes(buf: &mut Vec<u8>, bytes: &Vec<u8>)
    ensures
        final(buf)@ == old(buf)@ + bytes@,
{
    buf.extend_from_slice(bytes.as_slice());
    assert(buf@ =~= old(buf)@ + bytes@);
}

/// Appends text as it stands.
pub fn push_text(buf: &mut Vec<u8>, text: &str)
    ensures
        final(buf)@ == old(buf)@ + text.spec_bytes(),
{
    buf.extend_from_slice(text.as_bytes());
    assert(buf@ =~= old(buf)@ + text.spec_bytes());
}

/// Appends a number in decimal.
pub fn push_number(buf: &mut Vec<u8>, n: u64)
    ensures
        final(buf)@ == old(buf)@ + decimal(n as nat),
    decreases n,
{
    if n >= 10 {
        push_number(buf, n / 10);
    }
    let digit: u8 = (n % 10) as u8;
    buf.push(48 + digit);
    assert(buf@ =~= old(buf)@ + decimal(n as nat));
}

/// Appends `true` or `false`.
pub fn push_bool(buf: &mut Vec<u8>, b: bool)
    ensures
        final(buf)@ == old(buf)@ + json_bool(b),
{
    if b {
        push_text(buf, "true");
    } else {
        push_text(buf, "false");
    }
}

/// What becomes of the encoder's answer for one string: its bytes are
/// appended, or the failure is reported and nothing is appended.
pub fn push_quoted(buf: &mut Vec<u8>, quoted: Result<Vec<u8>, serde_json::Error>) -> (done: Result<
    (),
    DcaError,
>)
    ensures
        match quoted {
            Ok(bytes) => done == Ok::<(), DcaError>(()) && final(buf)@ == old(buf)@ + bytes@,
            Err(_) => done == Err::<(), DcaError>(DcaError::SerializationFailure) && final(buf)@
                == old(buf)@,
        },
{
    match quoted {
        Ok(bytes) => {
            buf.extend_from_slice(bytes.as_slice());
            assert(buf@ =~= old(buf)@ + bytes@);
            Ok(())
        },
        Err(_) => Err(DcaError::SerializationFailure),
    }
}

/// Appends a string as JSON text.
pub fn push_string(buf: &mut Vec<u8>, text: &str) -> (done: Result<(), DcaError>)
    ensures
        done == Ok::<(), DcaError>(()),
        final(buf)@ == old(buf)@ + json_string(text@),
{
    push_quoted(buf, quote(text))
}

/// Appends an optional number in decimal, `null` where there is none.
pub fn push_opt_number(buf: &mut Vec<u8>, n: Option<u64>)
    ensures
        final(buf)@ == old(buf)@ + json_opt_number(number_of(n)),
{
    match n {
        Some(k) => push_number(buf, k),
        None => push_text(buf, "null"),
    }
}

/// Appends an optional string as JSON text, `null` where there is none.
pub fn push_opt_string(buf: &mut Vec<u8>, text: &Option<String>) -> (done: Result<(), DcaError>)
    ensures
        done == Ok::<(), DcaError>(()),
        final(buf)@ == old(buf)@ + json_opt_string(crate::header::text_of(*text)),
{
    match text {
        Some(t) => push_string(buf, t.as_str()),
        None => {
            push_text(buf, "null");
            Ok(())
        },
    }
}

} // verus!
