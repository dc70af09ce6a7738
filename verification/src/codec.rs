//! Codec for the message schema: a deterministic, self-describing tagged
//! encoding. Each `FromAgent` variant carries an explicit one-byte
//! discriminant; strings are length-prefixed UTF-8 (8-byte little-endian byte
//! count); the error code is a 4-byte little-endian word. `encode` / `decode`
//! form a round-trip identity on every constructible message.

use vstd::prelude::*;
use vstd::bytes::{
    spec_u32_from_le_bytes, spec_u32_to_le_bytes, spec_u64_from_le_bytes, spec_u64_to_le_bytes,
    u32_from_le_bytes, u32_to_le_bytes, u64_from_le_bytes, u64_to_le_bytes,
};
use vstd::slice::{slice_index_get, slice_subrange, slice_to_vec};
use vstd::utf8::{decode_utf8, encode_utf8, valid_utf8};
use crate::messages::{ApplicationName, ApplicationNameView, FromAgent, FromAgentView,
    InitializationError, InitializationErrorView, ToAgent};

verus! {

/// Discriminant of `FromAgent::InitializationCompleted`.
pub const TAG_INITIALIZATION_COMPLETED: u8 = 0;

/// Discriminant of `FromAgent::InitializationError`.
pub const TAG_INITIALIZATION_ERROR: u8 = 1;

/// Discriminant of `FromAgent::ApplicationName`.
pub const TAG_APPLICATION_NAME: u8 = 2;

/// Marker for an absent optional value.
pub const MARK_NONE: u8 = 0;

/// Marker for a present optional value.
pub const MARK_SOME: u8 = 1;

/// How a message body failed to decode. Each failure mode is a distinct
/// value; a failed decode never yields a partial message.
#[derive(Debug, Clone, Copy, PartialEq, Eq)]
pub enum DecodeError {
    /// The body ended before the announced content did.
    Truncated,
    /// The variant discriminant or option marker is not a known one.
    UnknownTag,
    /// An embedded string is not valid UTF-8.
    MalformedString,
    /// Bytes remained after a complete message was read.
    TrailingBytes,
    /// The enclosing frame declared a length above the configured ceiling.
    OversizedFrame,
}

/// Byte encoding of one string field: 8-byte little-endian count of the
/// UTF-8 bytes, then those bytes.
pub open spec fn spec_encode_str(s: Seq<char>) -> Seq<u8> {
    spec_u64_to_le_bytes(encode_utf8(s).len() as u64) + encode_utf8(s)
}

/// A string field is representable on the wire when its UTF-8 byte count
/// fits the 8-byte length prefix. Every string an executable program can
/// hold satisfies this.
pub open spec fn str_representable(s: Seq<char>) -> bool {
    encode_utf8(s).len() <= u64::MAX
}

/// Byte encoding of a `FromAgent` message body.
pub open spec fn spec_encode_from_agent(m: FromAgentView) -> Seq<u8> {
    match m {
        FromAgentView::InitializationCompleted => seq![TAG_INITIALIZATION_COMPLETED],
        FromAgentView::InitializationError(e) => seq![TAG_INITIALIZATION_ERROR]
            + spec_encode_str(e.name) + spec_u32_to_le_bytes(e.code),
        FromAgentView::ApplicationName(a) => match a {
            None => seq![TAG_APPLICATION_NAME, MARK_NONE],
            Some(n) => seq![TAG_APPLICATION_NAME, MARK_SOME]
                + spec_encode_str(n.key) + spec_encode_str(n.name),
        },
    }
}

/// Whether every string field of `m` is representable on the wire.
pub open spec fn from_agent_representable(m: FromAgentView) -> bool {
    match m {
        FromAgentView::InitializationCompleted => true,
        FromAgentView::InitializationError(e) => str_representable(e.name),
        FromAgentView::ApplicationName(a) => match a {
            None => true,
            Some(n) => str_representable(n.key) && str_representable(n.name),
        },
    }
}

/// Reads one length-prefixed string from the front of `b`; on success yields
/// the decoded characters and the unread remainder of `b`.
pub open spec fn spec_parse_str(b: Seq<u8>) -> Result<(Seq<char>, Seq<u8>), DecodeError> {
    if b.len() < 8 {
        Err(DecodeError::Truncated)
    } else {
        let n = spec_u64_from_le_bytes(b.take(8)) as int;
        let rest = b.skip(8);
        if rest.len() < n {
            Err(DecodeError::Truncated)
        } else if !valid_utf8(rest.take(n)) {
            Err(DecodeError::MalformedString)
        } else {
            Ok((decode_utf8(rest.take(n)), rest.skip(n)))
        }
    }
}

/// Decoding of a `FromAgent` message body: the inverse of
/// [`spec_encode_from_agent`] on its range, and a distinct error elsewhere.
pub open spec fn spec_decode_from_agent(b: Seq<u8>) -> Result<FromAgentView, DecodeError> {
    if b.len() < 1 {
        Err(DecodeError::Truncated)
    } else if b[0] == TAG_INITIALIZATION_COMPLETED {
        if b.len() == 1 {
            Ok(FromAgentView::InitializationCompleted)
        } else {
            Err(DecodeError::TrailingBytes)
        }
    } else if b[0] == TAG_INITIALIZATION_ERROR {
        match spec_parse_str(b.skip(1)) {
            Err(e) => Err(e),
            Ok((name, rest)) => if rest.len() < 4 {
                Err(DecodeError::Truncated)
            } else if rest.len() > 4 {
                Err(DecodeError::TrailingBytes)
            } else {
                Ok(FromAgentView::InitializationError(
                    InitializationErrorView { name, code: spec_u32_from_le_bytes(rest) },
                ))
            },
        }
    } else if b[0] == TAG_APPLICATION_NAME {
        if b.len() < 2 {
            Err(DecodeError::Truncated)
        } else if b[1] == MARK_NONE {
            if b.len() == 2 {
                Ok(FromAgentView::ApplicationName(None))
            } else {
                Err(DecodeError::TrailingBytes)
            }
        } else if b[1] == MARK_SOME {
            match spec_parse_str(b.skip(2)) {
                Err(e) => Err(e),
                Ok((key, rest)) => match spec_parse_str(rest) {
                    Err(e) => Err(e),
                    Ok((name, rest2)) => if rest2.len() == 0 {
                        Ok(FromAgentView::ApplicationName(
                            Some(ApplicationNameView { key, name }),
                        ))
                    } else {
                        Err(DecodeError::TrailingBytes)
                    },
                },
            }
        } else {
            Err(DecodeError::UnknownTag)
        }
    } else {
        Err(DecodeError::UnknownTag)
    }
}

/// Decoding of a `ToAgent` command body. The command set is empty today, so
/// every discriminant is unknown; a truncated body is still told apart so a
/// future non-empty set keeps the same framing behaviour.
pub open spec fn spec_decode_to_agent(b: Seq<u8>) -> Result<ToAgent, DecodeError> {
    if b.len() < 1 {
        Err(DecodeError::Truncated)
    } else {
        Err(DecodeError::UnknownTag)
    }
}

/// Appends the wire form of one string field to `out`.
fn append_encoded_str(out: &mut Vec<u8>, s: &String)
    ensures
        final(out)@ == old(out)@ + spec_encode_str(s@),
{
    let bytes = s.as_str().as_bytes_vec();
    let mut len_bytes = u64_to_le_bytes(bytes.len() as u64);
    out.append(&mut len_bytes);
    let mut body = bytes;
    out.append(&mut body);
}

/// Produces the frame body for a `FromAgent` message.
pub fn encode_from_agent(m: &FromAgent) -> (r: Vec<u8>)
    ensures
        r@ == spec_encode_from_agent(m@),
{
    match m {
        FromAgent::InitializationCompleted => {
            let mut out: Vec<u8> = Vec::new();
            out.push(TAG_INITIALIZATION_COMPLETED);
            assert(out@ =~= spec_encode_from_agent(m@));
            out
        },
        FromAgent::InitializationError(e) => {
            let mut out: Vec<u8> = Vec::new();
            out.push(TAG_INITIALIZATION_ERROR);
            append_encoded_str(&mut out, &e.name);
            let mut code_bytes = u32_to_le_bytes(e.code);
            out.append(&mut code_bytes);
            assert(out@ =~= spec_encode_from_agent(m@));
            out
        },
        FromAgent::ApplicationName(a) => match a {
            None => {
                let mut out: Vec<u8> = Vec::new();
                out.push(TAG_APPLICATION_NAME);
                out.push(MARK_NONE);
                assert(out@ =~= spec_encode_from_agent(m@));
                out
            },
            Some(n) => {
                let mut out: Vec<u8> = Vec::new();
                out.push(TAG_APPLICATION_NAME);
                out.push(MARK_SOME);
                append_encoded_str(&mut out, &n.key);
                append_encoded_str(&mut out, &n.name);
                assert(out@ =~= spec_encode_from_agent(m@));
                out
            },
        },
    }
}

/// Turns `bytes` into the string whose UTF-8 encoding they are, or reports
/// that they are not valid UTF-8.
///
/// Relies on `String::from_utf8` from std: it succeeds exactly on valid
/// UTF-8 input, and the returned string consists of those bytes, so its
/// character sequence is their UTF-8 decoding (the same model `vstd` gives
/// to `str::as_bytes`).
#[verifier::external_body]
pub(crate) fn string_from_utf8(bytes: Vec<u8>) -> (r: Option<String>)
    ensures
        match r {
            Some(s) => valid_utf8(bytes@) && s@ == decode_utf8(bytes@),
            None => !valid_utf8(bytes@),
        },
{
    match String::from_utf8(bytes) {
        Ok(s) => Some(s),
        Err(_) => None,
    }
}

/// Reads one length-prefixed string starting at `pos`; on success returns it
/// with the position just past it.
fn parse_str(b: &[u8], pos: usize) -> (r: Result<(String, usize), DecodeError>)
    requires
        pos <= b@.len(),
    ensures
        match r {
            Ok((s, end)) => {
                &&& pos <= end <= b@.len()
                &&& spec_parse_str(b@.skip(pos as int))
                    == Ok::<_, DecodeError>((s@, b@.skip(end as int)))
            },
            Err(e) => spec_parse_str(b@.skip(pos as int))
                == Err::<(Seq<char>, Seq<u8>), DecodeError>(e),
        },
{
    let remainder = b.len() - pos;
    if remainder < 8 {
        assert(b@.skip(pos as int).len() < 8);
        return Err(DecodeError::Truncated);
    }
    let prefix = slice_subrange(b, pos, pos + 8);
    let n = u64_from_le_bytes(prefix);
    assert(prefix@ =~= b@.skip(pos as int).take(8));
    if n > (remainder - 8) as u64 {
        assert(b@.skip(pos as int).skip(8).len() < n as int);
        return Err(DecodeError::Truncated);
    }
    let body_start = pos + 8;
    let body_end = body_start + (n as usize);
    let body = slice_to_vec(slice_subrange(b, body_start, body_end));
    assert(body@ =~= b@.skip(pos as int).skip(8).take(n as int));
    let ghost rest_after = b@.skip(pos as int).skip(8).skip(n as int);
    assert(rest_after =~= b@.skip(body_end as int));
    match string_from_utf8(body) {
        Some(s) => Ok((s, body_end)),
        None => Err(DecodeError::MalformedString),
    }
}

/// Reconstructs a `FromAgent` message from a frame body, or reports the
/// exact way the body is malformed.
pub fn decode_from_agent(b: &[u8]) -> (r: Result<FromAgent, DecodeError>)
    ensures
        match r {
            Ok(m) => spec_decode_from_agent(b@) == Ok::<FromAgentView, DecodeError>(m@),
            Err(e) => spec_decode_from_agent(b@) == Err::<FromAgentView, DecodeError>(e),
        },
{
    if b.len() < 1 {
        return Err(DecodeError::Truncated);
    }
    let tag = *slice_index_get(b, 0);
    if tag == TAG_INITIALIZATION_COMPLETED {
        if b.len() == 1 {
            Ok(FromAgent::InitializationCompleted)
        } else {
            Err(DecodeError::TrailingBytes)
        }
    } else if tag == TAG_INITIALIZATION_ERROR {
        match parse_str(b, 1) {
            Err(e) => Err(e),
            Ok((name, end)) => {
                let rest_len = b.len() - end;
                if rest_len < 4 {
                    Err(DecodeError::Truncated)
                } else if rest_len > 4 {
                    Err(DecodeError::TrailingBytes)
                } else {
                    let code_bytes = slice_subrange(b, end, end + 4);
                    assert(code_bytes@ =~= b@.skip(end as int));
                    let code = u32_from_le_bytes(code_bytes);
                    Ok(FromAgent::InitializationError(InitializationError { name, code }))
                }
            },
        }
    } else if tag == TAG_APPLICATION_NAME {
        if b.len() < 2 {
            return Err(DecodeError::Truncated);
        }
        let marker = *slice_index_get(b, 1);
        if marker == MARK_NONE {
            if b.len() == 2 {
                Ok(FromAgent::ApplicationName(None))
            } else {
                Err(DecodeError::TrailingBytes)
            }
        } else if marker == MARK_SOME {
            match parse_str(b, 2) {
                Err(e) => Err(e),
                Ok((key, end)) => {
                    match parse_str(b, end) {
                        Err(e) => Err(e),
                        Ok((name, end2)) => {
                            if b.len() == end2 {
                                assert(b@.skip(end2 as int).len() == 0);
                                Ok(FromAgent::ApplicationName(
                                    Some(ApplicationName { key, name }),
                                ))
                            } else {
                                Err(DecodeError::TrailingBytes)
                            }
                        },
                    }
                },
            }
        } else {
            Err(DecodeError::UnknownTag)
        }
    } else {
        Err(DecodeError::UnknownTag)
    }
}

/// Command decode dispatch: reads the discriminant and rejects it, since the
/// command set is empty today. No partial input is ever accepted.
pub fn decode_to_agent(b: &[u8]) -> (r: Result<ToAgent, DecodeError>)
    ensures
        r.is_err(),
        match r {
            Ok(_) => false,
            Err(e) => spec_decode_to_agent(b@) == Err::<ToAgent, DecodeError>(e),
        },
{
    if b.len() < 1 {
        Err(DecodeError::Truncated)
    } else {
        Err(DecodeError::UnknownTag)
    }
}

/// Reading back a string field consumes exactly its wire form and yields the
/// original characters, whatever follows it.
pub proof fn lemma_parse_str_round_trip(s: Seq<char>, t: Seq<u8>)
    requires
        str_representable(s),
    ensures
        spec_parse_str(spec_encode_str(s) + t) == Ok::<(Seq<char>, Seq<u8>), DecodeError>((s, t)),
{
    broadcast use vstd::utf8::encode_utf8_valid_utf8, vstd::utf8::encode_utf8_decode_utf8;

    vstd::bytes::lemma_auto_spec_u64_to_from_le_bytes();
    let u = encode_utf8(s);
    let le = spec_u64_to_le_bytes(u.len() as u64);
    let b = spec_encode_str(s) + t;
    assert(le.len() == 8);
    assert(b.take(8) =~= le);
    assert(spec_u64_from_le_bytes(le) == u.len() as u64);
    let rest = b.skip(8);
    assert(rest =~= u + t);
    assert(rest.take(u.len() as int) =~= u);
    assert(rest.skip(u.len() as int) =~= t);
    assert(decode_utf8(u) == s);
}

/// Round trip: decoding the encoding of any constructible `FromAgent` value
/// yields that value again. (A constructible value is one whose string
/// fields fit their 8-byte length prefixes, as every value held by a running
/// program does.)
pub proof fn lemma_from_agent_round_trip(m: FromAgentView)
    requires
        from_agent_representable(m),
    ensures
        spec_decode_from_agent(spec_encode_from_agent(m)) == Ok::<FromAgentView, DecodeError>(m),
{
    let b = spec_encode_from_agent(m);
    match m {
        FromAgentView::InitializationCompleted => {
            assert(b =~= seq![TAG_INITIALIZATION_COMPLETED]);
        },
        FromAgentView::InitializationError(e) => {
            vstd::bytes::lemma_auto_spec_u32_to_from_le_bytes();
            let code_bytes = spec_u32_to_le_bytes(e.code);
            lemma_parse_str_round_trip(e.name, code_bytes);
            assert(b[0] == TAG_INITIALIZATION_ERROR);
            assert(b.skip(1) =~= spec_encode_str(e.name) + code_bytes);
            assert(spec_u32_from_le_bytes(code_bytes) == e.code);
            assert(InitializationErrorView { name: e.name, code: e.code } =~= e);
        },
        FromAgentView::ApplicationName(a) => match a {
            None => {
                assert(b =~= seq![TAG_APPLICATION_NAME, MARK_NONE]);
                assert(b[0] == TAG_APPLICATION_NAME && b[1] == MARK_NONE && b.len() == 2);
            },
            Some(n) => {
                let tail: Seq<u8> = Seq::empty();
                lemma_parse_str_round_trip(n.key, spec_encode_str(n.name));
                lemma_parse_str_round_trip(n.name, tail);
                assert(b[0] == TAG_APPLICATION_NAME && b[1] == MARK_SOME);
                assert(b.skip(2) =~= spec_encode_str(n.key) + spec_encode_str(n.name));
                assert(spec_encode_str(n.name) =~= spec_encode_str(n.name) + tail);
                assert(ApplicationNameView { key: n.key, name: n.name } =~= n);
            },
        },
    }
}

} // verus!
