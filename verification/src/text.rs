//! Diagnostic text: decimal rendering of status codes and the one-line
//! messages the host shows for an initialization failure.

use vstd::prelude::*;
use vstd::utf8::{decode_utf8, encode_utf8, is_ascii_chars, valid_utf8};
use crate::messages::InitializationError;

verus! {

/// The ASCII decimal digits of `n`, most significant first, as bytes.
pub open spec fn spec_decimal_bytes(n: nat) -> Seq<u8>
    decreases n,
{
    if n < 10 {
        seq![(n + 48) as u8]
    } else {
        spec_decimal_bytes(n / 10).push((n % 10 + 48) as u8)
    }
}

/// The decimal digits of `n`, most significant first, as characters.
pub open spec fn spec_decimal(n: nat) -> Seq<char> {
    spec_decimal_bytes(n).map_values(|b: u8| b as char)
}

proof fn lemma_decimal_bytes_ascii(n: nat)
    ensures
        forall|i: int| 0 <= i < spec_decimal_bytes(n).len()
            ==> 48 <= #[trigger] spec_decimal_bytes(n)[i] <= 57,
    decreases n,
{
    if n < 10 {
        assert(spec_decimal_bytes(n)[0] == (n + 48) as u8);
    } else {
        lemma_decimal_bytes_ascii(n / 10);
        let p = spec_decimal_bytes(n / 10);
        assert forall|i: int| 0 <= i < spec_decimal_bytes(n).len() implies 48
            <= #[trigger] spec_decimal_bytes(n)[i] <= 57 by {
            if i < p.len() {
                assert(spec_decimal_bytes(n)[i] == p[i]);
            } else {
                assert(spec_decimal_bytes(n)[i] == (n % 10 + 48) as u8);
            }
        }
    }
}

/// Appends the decimal digits of `n` to `out`.
fn push_decimal_bytes(n: u32, out: &mut Vec<u8>)
    ensures
        final(out)@ == old(out)@ + spec_decimal_bytes(n as nat),
    decreases n,
{
    if n < 10 {
        out.push((n + 48) as u8);
        assert(final(out)@ =~= old(out)@ + spec_decimal_bytes(n as nat));
    } else {
        push_decimal_bytes(n / 10, out);
        out.push((n % 10 + 48) as u8);
        assert(final(out)@ =~= old(out)@ + spec_decimal_bytes(n as nat));
    }
}

/// Builds the string holding the given ASCII bytes as its characters.
fn ascii_to_string(bytes: Vec<u8>) -> (r: String)
    requires
        forall|i: int| 0 <= i < bytes@.len() ==> #[trigger] bytes@[i] < 128,
    ensures
        r@ == bytes@.map_values(|b: u8| b as char),
{
    let ghost cs = bytes@.map_values(|b: u8| b as char);
    proof {
        broadcast use vstd::utf8::is_ascii_chars_encode_utf8;
        broadcast use vstd::utf8::encode_utf8_valid_utf8;
        broadcast use vstd::utf8::encode_utf8_decode_utf8;

        assert(forall|i: int| 0 <= i < cs.len() ==> ((#[trigger] cs[i]) as nat) < 128);
        assert(is_ascii_chars(cs));
        assert(encode_utf8(cs) =~= bytes@);
        assert(valid_utf8(bytes@));
        assert(decode_utf8(bytes@) == cs);
    }
    match crate::codec::string_from_utf8(bytes) {
        Some(s) => s,
        None => String::new(),
    }
}

/// The decimal rendering of a 32-bit status code.
pub fn u32_to_decimal(n: u32) -> (r: String)
    ensures
        r@ == spec_decimal(n as nat),
{
    let mut bytes: Vec<u8> = Vec::new();
    push_decimal_bytes(n, &mut bytes);
    proof {
        lemma_decimal_bytes_ascii(n as nat);
        assert(Seq::<u8>::empty() + spec_decimal_bytes(n as nat)
            =~= spec_decimal_bytes(n as nat));
    }
    ascii_to_string(bytes)
}

/// The phrase shown for each decode failure.
pub open spec fn spec_decode_error_text(e: crate::codec::DecodeError) -> Seq<char> {
    match e {
        crate::codec::DecodeError::Truncated => "truncated frame"@,
        crate::codec::DecodeError::UnknownTag => "unknown discriminant"@,
        crate::codec::DecodeError::MalformedString => "malformed string"@,
        crate::codec::DecodeError::TrailingBytes => "trailing bytes"@,
        crate::codec::DecodeError::OversizedFrame => "oversized frame"@,
    }
}

impl crate::codec::DecodeError {
    /// The phrase shown for this decode failure.
    pub fn message(&self) -> (r: String)
        ensures
            r@ == spec_decode_error_text(*self),
    {
        match self {
            crate::codec::DecodeError::Truncated => String::from_str("truncated frame"),
            crate::codec::DecodeError::UnknownTag => String::from_str("unknown discriminant"),
            crate::codec::DecodeError::MalformedString => String::from_str("malformed string"),
            crate::codec::DecodeError::TrailingBytes => String::from_str("trailing bytes"),
            crate::codec::DecodeError::OversizedFrame => String::from_str("oversized frame"),
        }
    }
}

impl InitializationError {
    /// The diagnostic line for this error: the runtime's symbolic name,
    /// then the raw status code in parentheses.
    pub fn message(&self) -> (r: String)
        ensures
            r@ == self.name@ + " ("@ + spec_decimal(self.code as nat) + ")"@,
    {
        let mut s = self.name.clone();
        s.append(" (");
        let digits = u32_to_decimal(self.code);
        s.append(digits.as_str());
        s.append(")");
        s
    }
}

} // verus!
