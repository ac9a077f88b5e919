//! Handshake codec and the admission rule of the handshake endpoint.
//!
//! A handshake message travels as the base64 text of a UTF-8 session
//! description. Base64 itself is delegated to the `base64` crate; its results
//! are named by [`base64_text`] and [`base64_bytes`], and everything built on
//! top of them is proved here.
use vstd::prelude::*;
use vstd::string::*;
use vstd::utf8::*;

verus! {

/// Why a handshake blob was refused at the boundary.
#[derive(Debug, Clone, Copy, PartialEq, Eq, Structural)]
pub enum DecodeFailure {
    /// The text is not base64 in the standard alphabet.
    InvalidBase64,
    /// The base64 payload is not UTF-8.
    InvalidUtf8,
}

/// The standard base64 text of a byte sequence, as `base64::encode` produces it.
pub uninterp spec fn base64_text(bytes: Seq<u8>) -> Seq<char>;

/// The bytes that `base64::decode` recovers from a text, or `None` where it
/// reports an error.
pub uninterp spec fn base64_bytes(text: Seq<char>) -> Option<Seq<u8>>;

#[verifier::external_type_specification]
#[verifier::external_body]
pub struct ExBase64DecodeError(base64::DecodeError);

/// Lengths whose base64 text still has a length that fits in `usize`.
pub open spec fn encodable_len(len: nat) -> bool {
    4 * ((len + 2) / 3) <= usize::MAX
}

/// Lengths of base64 text that the decoder can size its buffers for.
pub open spec fn decodable_len(len: nat) -> bool {
    len + 7 <= usize::MAX
}

/// Calls `base64::encode`. Trusted: the result is the crate's standard
/// encoding of `bytes`, and the crate's decoder maps that text back to
/// `bytes`. The precondition excludes the one documented panic, an encoded
/// length that overflows `usize`.
#[verifier::external_body]
fn base64_encode(bytes: &[u8]) -> (text: String)
    requires
        encodable_len(bytes@.len()),
    ensures
        text@ == base64_text(bytes@),
        base64_bytes(text@) == Some(bytes@),
{
    base64::encode(bytes)
}

/// Calls `base64::decode`. Trusted: the outcome is a function of the text
/// alone, `Ok` with the decoded bytes or an error. The precondition excludes
/// the panic on a length computation that overflows `usize`.
#[verifier::external_body]
fn base64_decode(text: &str) -> (outcome: Result<Vec<u8>, base64::DecodeError>)
    requires
        decodable_len(text.spec_bytes().len()),
    ensures
        outcome is Ok <==> base64_bytes(text@) is Some,
        outcome matches Ok(bytes) ==> base64_bytes(text@) == Some(bytes@),
{
    base64::decode(text)
}

/// Calls `String::from_utf8`. Trusted: it succeeds exactly on well-formed
/// UTF-8 and then yields the characters those bytes encode.
#[verifier::external_body]
fn string_from_utf8(bytes: Vec<u8>) -> (text: Option<String>)
    ensures
        text is Some <==> valid_utf8(bytes@),
        text matches Some(s) ==> s@ == decode_utf8(bytes@),
{
    String::from_utf8(bytes).ok()
}

/// The characters that a byte payload stands for.
pub open spec fn text_of(bytes: Seq<u8>) -> Result<Seq<char>, DecodeFailure> {
    if valid_utf8(bytes) {
        Ok(decode_utf8(bytes))
    } else {
        Err(DecodeFailure::InvalidUtf8)
    }
}

/// The payload of a base64 text.
pub open spec fn decoded_bytes(text: Seq<char>) -> Result<Seq<u8>, DecodeFailure> {
    match base64_bytes(text) {
        Some(bytes) => Ok(bytes),
        None => Err(DecodeFailure::InvalidBase64),
    }
}

/// The handshake text of a description.
pub open spec fn encoded(description: Seq<char>) -> Seq<char> {
    base64_text(encode_utf8(description))
}

/// The description that a handshake text carries.
pub open spec fn decoded(text: Seq<char>) -> Result<Seq<char>, DecodeFailure> {
    match base64_bytes(text) {
        Some(bytes) => text_of(bytes),
        None => Err(DecodeFailure::InvalidBase64),
    }
}

/// Encodes raw bytes as base64 text. Decoding the result gives `bytes` back.
pub fn encode_bytes(bytes: &[u8]) -> (text: String)
    requires
        encodable_len(bytes@.len()),
    ensures
        text@ == base64_text(bytes@),
        decoded_bytes(text@) == Ok::<Seq<u8>, DecodeFailure>(bytes@),
{
    base64_encode(bytes)
}

/// Decodes base64 text into raw bytes.
pub fn decode_bytes(text: &str) -> (outcome: Result<Vec<u8>, DecodeFailure>)
    requires
        decodable_len(text.spec_bytes().len()),
    ensures
        match outcome {
            Ok(bytes) => decoded_bytes(text@) == Ok::<Seq<u8>, DecodeFailure>(bytes@),
            Err(e) => decoded_bytes(text@) == Err::<Seq<u8>, DecodeFailure>(e),
        },
{
    match base64_decode(text) {
        Ok(bytes) => Ok(bytes),
        Err(_) => Err(DecodeFailure::InvalidBase64),
    }
}

/// Reads a byte payload as text: `Ok` exactly when the bytes are UTF-8.
pub fn text_from_bytes(bytes: Vec<u8>) -> (outcome: Result<String, DecodeFailure>)
    ensures
        match outcome {
            Ok(s) => text_of(bytes@) == Ok::<Seq<char>, DecodeFailure>(s@),
            Err(e) => text_of(bytes@) == Err::<Seq<char>, DecodeFailure>(e),
        },
{
    match string_from_utf8(bytes) {
        Some(s) => Ok(s),
        None => Err(DecodeFailure::InvalidUtf8),
    }
}

/// Encodes a session description for the handshake transport. Decoding the
/// result gives the description back, character for character.
pub fn encode(s: &str) -> (text: String)
    requires
        encodable_len(s.spec_bytes().len()),
    ensures
        text@ == encoded(s@),
        decoded(text@) == Ok::<Seq<char>, DecodeFailure>(s@),
{
    let text = base64_encode(s.as_bytes());
    proof {
        encode_utf8_valid_utf8(s@);
        encode_utf8_decode_utf8(s@);
    }
    text
}

/// Decodes a handshake text into the session description it carries.
pub fn decode(s: &str) -> (outcome: Result<String, DecodeFailure>)
    requires
        decodable_len(s.spec_bytes().len()),
    ensures
        match outcome {
            Ok(description) => decoded(s@) == Ok::<Seq<char>, DecodeFailure>(description@),
            Err(e) => decoded(s@) == Err::<Seq<char>, DecodeFailure>(e),
        },
{
    match decode_bytes(s) {
        Ok(bytes) => text_from_bytes(bytes),
        Err(e) => Err(e),
    }
}

/// The request method, as far as the endpoint tells methods apart.
#[derive(Clone, Copy, Debug, PartialEq, Eq, Structural)]
pub enum Method {
    Get,
    Post,
    Put,
    Delete,
    Head,
    Options,
    Connect,
    Patch,
    Trace,
    Other,
}

/// What the endpoint makes of a request.
#[derive(Debug, PartialEq, Eq)]
pub enum Admission {
    /// A well-formed handshake: the session description it carries goes to
    /// the handshake channel.
    Accepted(String),
    /// Not the handshake endpoint.
    NotFound,
    /// The handshake endpoint, but the body does not decode.
    Malformed(DecodeFailure),
}

/// The path of the handshake endpoint, `/sdp`.
pub open spec fn submit_path() -> Seq<char> {
    seq!['/', 's', 'd', 'p']
}

/// Whether a request addresses the handshake endpoint.
pub open spec fn is_submission(method: Method, path: Seq<char>) -> bool {
    method is Post && path == submit_path()
}

/// The description that a request body carries: the body is the UTF-8 of a
/// handshake text.
pub open spec fn body_description(body: Seq<u8>) -> Result<Seq<char>, DecodeFailure> {
    match text_of(body) {
        Ok(text) => decoded(text),
        Err(e) => Err(e),
    }
}

/// The status code that answers a request.
pub open spec fn status_of(admission: Admission) -> u16 {
    match admission {
        Admission::Accepted(_) => 200,
        Admission::NotFound => 404,
        Admission::Malformed(_) => 400,
    }
}

/// The UTF-8 bytes of the endpoint's path pin the path down.
proof fn lemma_submit_path_bytes(path: Seq<char>)
    ensures
        path == submit_path() <==> encode_utf8(path) =~= seq![47u8, 115u8, 100u8, 112u8],
{
    let literal = submit_path();
    assert(is_ascii_chars(literal));
    is_ascii_chars_encode_utf8(literal);
    assert(literal[0] as u8 == 47 && literal[1] as u8 == 115 && literal[2] as u8 == 100
        && literal[3] as u8 == 112);
    assert(encode_utf8(literal) =~= seq![47u8, 115u8, 100u8, 112u8]);
    encode_utf8_decode_utf8(literal);
    encode_utf8_decode_utf8(path);
}

/// Whether a request addresses the handshake endpoint: `POST /sdp`.
pub fn routes_to_submit(method: Method, path: &str) -> (submit: bool)
    ensures
        submit == is_submission(method, path@),
{
    proof {
        lemma_submit_path_bytes(path@);
    }
    let bytes = path.as_bytes();
    match method {
        Method::Post => bytes.len() == 4 && bytes[0] == 47 && bytes[1] == 115 && bytes[2] == 100
            && bytes[3] == 112,
        _ => false,
    }
}

/// Decides on a request at the boundary. Only `POST /sdp` is the handshake
/// endpoint; there a body is accepted exactly if it is the UTF-8 of base64
/// text whose payload is UTF-8 again, and what is accepted is that payload.
/// Nothing malformed gets past this point.
pub fn receive_request(method: Method, path: &str, body: Vec<u8>) -> (admission: Admission)
    requires
        decodable_len(body@.len()),
    ensures
        match admission {
            Admission::NotFound => !is_submission(method, path@),
            Admission::Accepted(description) => is_submission(method, path@) && body_description(
                body@,
            ) == Ok::<Seq<char>, DecodeFailure>(description@),
            Admission::Malformed(e) => is_submission(method, path@) && body_description(body@)
                == Err::<Seq<char>, DecodeFailure>(e),
        },
{
    if !routes_to_submit(method, path) {
        return Admission::NotFound;
    }
    match text_from_bytes(body) {
        Ok(text) => {
            proof {
                decode_utf8_encode_utf8(body@);
            }
            match decode(text.as_str()) {
                Ok(description) => Admission::Accepted(description),
                Err(e) => Admission::Malformed(e),
            }
        },
        Err(e) => Admission::Malformed(e),
    }
}

/// The status code that answers a request: 200 for an accepted handshake,
/// 404 off the endpoint, 400 for a body that does not decode.
pub fn status_code(admission: &Admission) -> (code: u16)
    ensures
        code == status_of(*admission),
{
    match admission {
        Admission::Accepted(_) => 200,
        Admission::NotFound => 404,
        Admission::Malformed(_) => 400,
    }
}

} // verus!
