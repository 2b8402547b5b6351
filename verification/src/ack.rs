//! Acknowledgements: what the receiving side answers to a packet.
//!
//! An acknowledgement is a JSON object with one member: `result`, with an
//! opaque payload, when the packet was settled, or `error`, with a text, when
//! it was not. The two are told apart by that member's name, so no error text
//! can ever read as a success.

use vstd::prelude::*;
use vstd::string::*;

verus! {

/// The text that stands in for an error text which cannot be put into an
/// acknowledgement, or which would read as a success there.
pub const ACK_ERROR_FALLBACK: &'static str =
    "an unexpected error occurred - error text is hidden because it would serialize as ACK success";

/// The bytes of a text made of ASCII characters only.
pub open spec fn ascii_bytes(text: Seq<char>) -> Seq<u8> {
    Seq::new(text.len(), |i: int| text[i] as u8)
}

/// An acknowledgement of success around the JSON value `body`.
pub open spec fn result_ack(body: Seq<u8>) -> Seq<u8> {
    ascii_bytes("{\"result\":"@) + body + ascii_bytes("}"@)
}

/// An acknowledgement of failure around the JSON value `body`.
pub open spec fn error_ack(body: Seq<u8>) -> Seq<u8> {
    ascii_bytes("{\"error\":"@) + body + ascii_bytes("}"@)
}

/// The acknowledgement of success that the bridge sends: its payload is the
/// one byte `1`, which reads `MQ==` in base64.
pub open spec fn success_ack() -> Seq<u8> {
    result_ack(ascii_bytes("\"MQ==\""@))
}

/// The acknowledgement of failure that carries the fallback text.
pub open spec fn fallback_ack() -> Seq<u8> {
    error_ack(fallback_inner())
}

/// The JSON string that stands for `text`, as the JSON encoder of
/// `cosmwasm-std` writes it, or nothing where the encoder fails.
pub uninterp spec fn json_text(text: Seq<char>) -> Option<Seq<u8>>;

/// What the JSON decoder of `cosmwasm-std` reads out of `data` as a standard
/// acknowledgement: the payload of a success, the text of an error, or nothing
/// where `data` is no acknowledgement.
pub uninterp spec fn ack_decoding(data: Seq<u8>) -> Option<Result<Seq<u8>, Seq<char>>>;

/// The acknowledgement of failure for an error text whose JSON string is
/// `body`. The fallback takes its place where there is no such string or the
/// acknowledgement would be the one of success.
pub open spec fn framed_error_ack(body: Option<Seq<u8>>) -> Seq<u8> {
    match body {
        Some(body) => if error_ack(body) == success_ack() {
            fallback_ack()
        } else {
            error_ack(body)
        },
        None => fallback_ack(),
    }
}

/// The bytes of a JSON string that may be missing.
pub open spec fn body_view(body: Option<Vec<u8>>) -> Option<Seq<u8>> {
    match body {
        Some(body) => Some(body@),
        None => None,
    }
}

/// The error that an acknowledgement reports, once decoded: the text of an
/// error, a fixed text for data that is no acknowledgement, nothing for a
/// success.
pub open spec fn reported_error(decoded: Option<Result<Seq<u8>, Seq<char>>>) -> Option<Seq<char>> {
    match decoded {
        Some(Ok(_)) => None,
        Some(Err(text)) => Some(text),
        None => Some("acknowledgement cannot be decoded"@),
    }
}

/// `to_json_vec` of `cosmwasm-std` on a string: the JSON string that stands
/// for `text`. The same text always gives the same bytes.
#[verifier::external_body]
fn json_string(text: &str) -> (r: Result<Vec<u8>, cosmwasm_std::StdError>)
    ensures
        match r {
            Ok(body) => json_text(text@) == Some(body@),
            Err(_) => json_text(text@) is None,
        },
{
    cosmwasm_std::to_json_vec(text)
}

/// `from_json` of `cosmwasm-std` into its `StdAck`: the payload of a success,
/// the text of an error, or nothing where the data does not parse as one of
/// the two. The same data always reads the same.
#[verifier::external_body]
fn std_ack_from_json(data: &[u8]) -> (r: Option<Result<Vec<u8>, String>>)
    ensures
        match r {
            Some(Ok(payload)) => ack_decoding(data@) == Some(
                Ok::<Seq<u8>, Seq<char>>(payload@),
            ),
            Some(Err(text)) => ack_decoding(data@) == Some(Err::<Seq<u8>, Seq<char>>(text@)),
            None => ack_decoding(data@) is None,
        },
{
    match cosmwasm_std::from_json::<cosmwasm_std::StdAck>(data) {
        Ok(cosmwasm_std::StdAck::Success(payload)) => Some(Ok(payload.0)),
        Ok(cosmwasm_std::StdAck::Error(text)) => Some(Err(text)),
        Err(_) => None,
    }
}

/// The bytes of `text`, which holds ASCII characters only.
fn bytes_of_ascii(text: &str) -> (bytes: Vec<u8>)
    requires
        is_ascii(text),
    ensures
        bytes@ == ascii_bytes(text@),
{
    broadcast use is_ascii_spec_bytes;

    text.as_bytes_vec()
}

/// The acknowledgement of success.
pub fn ack_success() -> (ack: Vec<u8>)
    ensures
        ack@ == success_ack(),
{
    proof {
        reveal_strlit("{\"result\":\"MQ==\"}");
        reveal_strlit("{\"result\":");
        reveal_strlit("\"MQ==\"");
        reveal_strlit("}");
    }
    let ack = bytes_of_ascii("{\"result\":\"MQ==\"}");
    assert(ack@ =~= success_ack());
    ack
}

/// The acknowledgement of failure that carries the fallback text.
pub fn ack_fallback() -> (ack: Vec<u8>)
    ensures
        ack@ == fallback_ack(),
{
    proof {
        reveal_strlit(
            "{\"error\":\"an unexpected error occurred - error text is hidden because it would serialize as ACK success\"}",
        );
        reveal_strlit(
            "an unexpected error occurred - error text is hidden because it would serialize as ACK success",
        );
        reveal_strlit("{\"error\":");
        reveal_strlit("\"");
        reveal_strlit("}");
    }
    let ack = bytes_of_ascii(
        "{\"error\":\"an unexpected error occurred - error text is hidden because it would serialize as ACK success\"}",
    );
    assert(ack@ =~= fallback_ack());
    ack
}

/// Puts the JSON string of an error text into an acknowledgement of failure.
///
/// `body` is that string, or nothing where the text has none. The fallback
/// text is sent where there is no string, or where the acknowledgement would
/// be the one of success.
pub fn frame_error_ack(body: Option<Vec<u8>>) -> (ack: Vec<u8>)
    ensures
        ack@ == framed_error_ack(body_view(body)),
        ack@ != success_ack(),
{
    proof {
        reveal_strlit("{\"error\":");
        reveal_strlit("}");
        law_error_ack_is_no_result_ack(fallback_inner(), ascii_bytes("\"MQ==\""@));
    }
    match body {
        Some(mut body) => {
            let ghost inner = body@;
            proof {
                law_error_ack_is_no_result_ack(inner, ascii_bytes("\"MQ==\""@));
            }
            let mut ack = bytes_of_ascii("{\"error\":");
            let mut tail = bytes_of_ascii("}");
            ack.append(&mut body);
            ack.append(&mut tail);
            assert(ack@ =~= error_ack(inner));
            let success = ack_success();
            let collides = ack == success;
            proof {
                if collides {
                    assert(ack@ =~= success@);
                }
            }
            if collides {
                ack_fallback()
            } else {
                ack
            }
        },
        None => ack_fallback(),
    }
}

/// The acknowledgement of failure for the error text `err`.
pub fn ack_fail(err: &str) -> (ack: Vec<u8>)
    ensures
        ack@ == framed_error_ack(json_text(err@)),
        ack@ != success_ack(),
{
    match json_string(err) {
        Ok(body) => frame_error_ack(Some(body)),
        Err(_) => frame_error_ack(None),
    }
}

/// A decoded acknowledgement.
#[derive(Debug, Clone, PartialEq, Eq)]
pub enum Acknowledgement {
    /// The packet was settled; the payload is opaque.
    Result(Vec<u8>),
    /// The packet was not settled, for the reason given.
    Error(String),
}

impl View for Acknowledgement {
    type V = Result<Seq<u8>, Seq<char>>;

    open spec fn view(&self) -> Result<Seq<u8>, Seq<char>> {
        match self {
            Acknowledgement::Result(payload) => Ok(payload@),
            Acknowledgement::Error(text) => Err(text@),
        }
    }
}

/// The view of an acknowledgement that may be missing.
pub open spec fn decoded_view(decoded: Option<Acknowledgement>) -> Option<
    Result<Seq<u8>, Seq<char>>,
> {
    match decoded {
        Some(ack) => Some(ack@),
        None => None,
    }
}

/// Decodes the data of an acknowledgement; nothing comes back where the data
/// is no acknowledgement.
pub fn decode_ack(data: &[u8]) -> (decoded: Option<Acknowledgement>)
    ensures
        decoded_view(decoded) == ack_decoding(data@),
{
    match std_ack_from_json(data) {
        Some(Ok(payload)) => Some(Acknowledgement::Result(payload)),
        Some(Err(text)) => Some(Acknowledgement::Error(text)),
        None => None,
    }
}

/// The error that a decoded acknowledgement reports, if it reports one. Data
/// that is no acknowledgement counts as a failure.
pub fn ack_error(decoded: Option<Acknowledgement>) -> (error: Option<String>)
    ensures
        error.deep_view() == reported_error(decoded_view(decoded)),
{
    match decoded {
        Some(Acknowledgement::Result(_)) => None,
        Some(Acknowledgement::Error(text)) => Some(text),
        None => Some("acknowledgement cannot be decoded".to_owned()),
    }
}

/// The error that the acknowledgement in `data` reports, if it reports one.
pub fn try_get_ack_error(data: &[u8]) -> (error: Option<String>)
    ensures
        error.deep_view() == reported_error(ack_decoding(data@)),
{
    ack_error(decode_ack(data))
}

/// The JSON string of the fallback text.
pub open spec fn fallback_inner() -> Seq<u8> {
    ascii_bytes("\""@ + ACK_ERROR_FALLBACK@ + "\""@)
}

/// An acknowledgement of failure is never one of success, whatever the two
/// carry: they differ in the name of their one member.
pub proof fn law_error_ack_is_no_result_ack(error_body: Seq<u8>, result_body: Seq<u8>)
    ensures
        error_ack(error_body) != result_ack(result_body),
{
    reveal_strlit("{\"error\":");
    reveal_strlit("{\"result\":");
    // The third byte is the first letter of the member's name.
    let e = error_ack(error_body);
    let r = result_ack(result_body);
    assert(e[2] == ascii_bytes("{\"error\":"@)[2]);
    assert(r[2] == ascii_bytes("{\"result\":"@)[2]);
    assert(e[2] != r[2]);
}

/// No error text is sent as a success: whatever the text is, and whether or
/// not it has a JSON string, its acknowledgement is one of failure and differs
/// from every acknowledgement of success. The fallback is no exception.
pub proof fn law_ack_fail_is_no_success(text: Seq<char>, result_body: Seq<u8>)
    ensures
        framed_error_ack(json_text(text)) != result_ack(result_body),
        fallback_ack() != result_ack(result_body),
        exists|body: Seq<u8>| framed_error_ack(json_text(text)) == error_ack(body),
{
    law_error_ack_is_no_result_ack(fallback_inner(), result_body);
    law_error_ack_is_no_result_ack(fallback_inner(), ascii_bytes("\"MQ==\""@));
    if let Some(body) = json_text(text) {
        law_error_ack_is_no_result_ack(body, result_body);
        law_error_ack_is_no_result_ack(body, ascii_bytes("\"MQ==\""@));
    }
}

/// The fallback text is never needed to keep an error from reading as a
/// success: an error text that has a JSON string is sent as it is.
pub proof fn law_fallback_only_without_json(text: Seq<char>)
    requires
        json_text(text) is Some,
    ensures
        framed_error_ack(json_text(text)) == error_ack(json_text(text)->0),
{
    law_error_ack_is_no_result_ack(json_text(text)->0, ascii_bytes("\"MQ==\""@));
}

} // verus!
