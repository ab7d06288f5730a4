//! The notification payload.
//!
//! A notification carries one JSON object, `{"from": <id>, "message":
//! <text>}`, as UTF-8 bytes. The two strings are embedded as JSON string
//! literals: a quote or backslash is escaped with a backslash, and every
//! control character below 0x20 is written in the `\u00XX` form. In valid
//! UTF-8 no byte of a multi-byte character lies below 0x80, so escaping
//! byte by byte touches exactly the characters that JSON requires escaped.

use vstd::prelude::*;
use vstd::string::StringSliceAdditionalSpecFns;

verus! {

/// The lowercase hexadecimal digit for a value below 16, as a byte.
pub open spec fn hex_digit(n: u8) -> u8
    recommends
        n < 16,
{
    if n < 10 {
        (48 + n) as u8
    } else {
        (87 + n) as u8
    }
}

/// How one byte of a string appears inside a JSON string literal: quote and
/// backslash gain a leading backslash, a control byte becomes `\u00XX`, and
/// every other byte stands unchanged.
pub open spec fn escape_byte(b: u8) -> Seq<u8> {
    if b == 34 {  // '"'
        seq![92u8, 34u8]
    } else if b == 92 {  // '\'
        seq![92u8, 92u8]
    } else if b < 32 {
        seq![92u8, 117u8, 48u8, 48u8, hex_digit(b / 16), hex_digit(b % 16)]
    } else {
        seq![b]
    }
}

/// A whole string escaped, byte by byte.
pub open spec fn escape_bytes(s: Seq<u8>) -> Seq<u8>
    decreases s.len(),
{
    if s.len() == 0 {
        Seq::empty()
    } else {
        escape_bytes(s.drop_last()) + escape_byte(s.last())
    }
}

/// The notification body for a sender id and a message, as UTF-8 bytes:
/// the JSON object `{"from": <from>, "message": <message>}` with both
/// strings escaped.
pub open spec fn payload_bytes(from: Seq<char>, message: Seq<char>) -> Seq<u8> {
    ("{\"from\":\"").spec_bytes() + escape_bytes(vstd::utf8::encode_utf8(from)) + (
    "\",\"message\":\"").spec_bytes() + escape_bytes(vstd::utf8::encode_utf8(message)) + (
    "\"}").spec_bytes()
}

/// The lowercase hexadecimal digit for a value below 16.
fn hex_digit_byte(n: u8) -> (r: u8)
    requires
        n < 16,
    ensures
        r == hex_digit(n),
{
    if n < 10 {
        48 + n
    } else {
        87 + n
    }
}

/// Append the escaped form of every byte of `s` to `out`.
fn append_escaped(out: &mut Vec<u8>, s: &Vec<u8>)
    ensures
        final(out)@ == old(out)@ + escape_bytes(s@),
{
    let n = s.len();
    let mut i: usize = 0;
    while i < n
        invariant
            n == s@.len(),
            i <= n,
            out@ == old(out)@ + escape_bytes(s@.take(i as int)),
        decreases n - i,
    {
        let b: u8 = s[i];
        if b == 34 {
            out.push(92);
            out.push(34);
        } else if b == 92 {
            out.push(92);
            out.push(92);
        } else if b < 32 {
            out.push(92);
            out.push(117);
            out.push(48);
            out.push(48);
            out.push(hex_digit_byte(b / 16));
            out.push(hex_digit_byte(b % 16));
        } else {
            out.push(b);
        }
        proof {
            assert(s@.take(i + 1).drop_last() =~= s@.take(i as int));
            assert(s@.take(i + 1).last() == s@[i as int]);
            assert(out@ =~= old(out)@ + escape_bytes(s@.take(i + 1)));
        }
        i += 1;
    }
    proof {
        assert(s@.take(n as int) =~= s@);
    }
}

/// Build the notification body for a sender id and a message: exactly the
/// bytes of `payload_bytes` on the two strings' character sequences.
pub fn build_payload(from: &str, message: &str) -> (r: Vec<u8>)
    ensures
        r@ == payload_bytes(from@, message@),
{
    let mut out: Vec<u8> = Vec::new();
    out.extend_from_slice("{\"from\":\"".as_bytes());
    let from_bytes = from.as_bytes_vec();
    append_escaped(&mut out, &from_bytes);
    out.extend_from_slice("\",\"message\":\"".as_bytes());
    let message_bytes = message.as_bytes_vec();
    append_escaped(&mut out, &message_bytes);
    out.extend_from_slice("\"}".as_bytes());
    proof {
        assert(out@ =~= payload_bytes(from@, message@));
    }
    out
}

} // verus!
