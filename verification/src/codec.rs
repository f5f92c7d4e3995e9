//! The boundary to the outside codecs: base64, JSON parsing of engine
//! replies, and endpoint address validation.
//!
//! Each function here makes exactly one logical outside call; its contract
//! names the result where the outside computation cannot be restated in a
//! few lines. Everything downstream of these names is verified.

use crate::result::{FileInfo, FileInfoV};
use vstd::prelude::*;

verus! {

/// Whether a string parses as a request-target URI.
pub uninterp spec fn uri_valid(s: Seq<char>) -> bool;

/// Relies on `http::Uri`'s `FromStr`: accepts exactly the strings that parse
/// as a URI; the result is a function of the string alone.
#[verifier::external_body]
pub(crate) fn check_uri(s: &str) -> (r: bool)
    ensures
        r == uri_valid(s@),
{
    s.parse::<http::Uri>().is_ok()
}

/// The standard base64 text of a byte sequence.
pub uninterp spec fn b64_of(b: Seq<u8>) -> Seq<char>;

/// What standard base64 decoding yields on a character sequence: the decoded
/// bytes, or nothing when the text is not well-formed base64.
pub uninterp spec fn b64_decode_of(s: Seq<char>) -> Option<Seq<u8>>;

/// Relies on `base64::encode` (standard alphabet, padded): the encoding is a
/// function of the bytes alone, and `base64::decode` inverts it.
#[verifier::external_body]
pub(crate) fn encode_base64(b: &Vec<u8>) -> (r: String)
    ensures
        r@ == b64_of(b@),
        b64_decode_of(r@) == Some(b@),
{
    base64::encode(b)
}

/// Relies on `base64::decode` (standard alphabet): the result is a function
/// of the text alone.
#[verifier::external_body]
pub(crate) fn decode_base64(s: &str) -> (r: Option<Vec<u8>>)
    ensures
        match (r, b64_decode_of(s@)) {
            (Some(v), Some(b)) => v@ == b,
            (None, None) => true,
            _ => false,
        },
{
    base64::decode(s).ok()
}

/// The engine's error envelope, when the body is a JSON object whose
/// `message` field is a string.
pub uninterp spec fn message_of(body: Seq<u8>) -> Option<Seq<char>>;

/// Relies on `serde_json::from_slice`: whether the body parses and what its
/// `message` field holds is a function of the bytes alone.
#[verifier::external_body]
pub(crate) fn parse_error_message(body: &Vec<u8>) -> (r: Option<String>)
    ensures
        match (r, message_of(body@)) {
            (Some(s), Some(m)) => s@ == m,
            (None, None) => true,
            _ => false,
        },
{
    let v: serde_json::Value = serde_json::from_slice(body).ok()?;
    match v.get("message") {
        Some(serde_json::Value::String(s)) => Some(s.clone()),
        _ => None,
    }
}

/// The stat record of an archive-stat header's decoded bytes, when they are
/// a JSON object of the expected shape.
pub uninterp spec fn file_stat_of(body: Seq<u8>) -> Option<FileInfoV>;

/// Relies on `serde_json::from_slice`: the parse of the decoded stat header
/// is a function of the bytes alone.
#[verifier::external_body]
pub(crate) fn parse_file_stat(body: &Vec<u8>) -> (r: Option<FileInfo>)
    ensures
        match (r, file_stat_of(body@)) {
            (Some(f), Some(v)) => f@ == v,
            (None, None) => true,
            _ => false,
        },
{
    let v: serde_json::Value = serde_json::from_slice(body).ok()?;
    Some(FileInfo {
        name: v.get("name")?.as_str()?.to_string(),
        size: usize::try_from(v.get("size")?.as_u64()?).ok()?,
        mode: usize::try_from(v.get("mode")?.as_u64()?).ok()?,
        mtime: v.get("mtime")?.as_str()?.to_string(),
        linkTarget: v.get("linkTarget")?.as_str()?.to_string(),
    })
}

/// The `Id` field of an exec-create reply, rendered back to JSON text, when
/// the body is a JSON object carrying that field.
pub uninterp spec fn exec_id_of(body: Seq<u8>) -> Option<Seq<char>>;

/// Relies on `serde_json::from_slice` and `Value::to_string`: the rendered
/// `Id` field is a function of the bytes alone.
#[verifier::external_body]
pub(crate) fn parse_exec_id(body: &Vec<u8>) -> (r: Option<String>)
    ensures
        match (r, exec_id_of(body@)) {
            (Some(s), Some(m)) => s@ == m,
            (None, None) => true,
            _ => false,
        },
{
    let v: serde_json::Value = serde_json::from_slice(body).ok()?;
    Some(v.get("Id")?.to_string())
}

/// The `Status` and `IdentityToken` fields of an authentication reply, when
/// the body is a JSON object carrying both as strings.
pub uninterp spec fn auth_reply_of(body: Seq<u8>) -> Option<(Seq<char>, Seq<char>)>;

/// Relies on `serde_json::from_slice`: the parsed field pair is a function
/// of the bytes alone.
#[verifier::external_body]
pub(crate) fn parse_auth_reply(body: &Vec<u8>) -> (r: Option<(String, String)>)
    ensures
        match (r, auth_reply_of(body@)) {
            (Some(p), Some(m)) => p.0@ == m.0 && p.1@ == m.1,
            (None, None) => true,
            _ => false,
        },
{
    let v: serde_json::Value = serde_json::from_slice(body).ok()?;
    let status = v.get("Status")?.as_str()?.to_string();
    let token = v.get("IdentityToken")?.as_str()?.to_string();
    Some((status, token))
}

/// The titles row and the process rows of a process-listing reply, when the
/// body is a JSON object of the expected shape.
pub uninterp spec fn process_table_of(body: Seq<u8>) -> Option<
    (Seq<Seq<char>>, Seq<Seq<Seq<char>>>),
>;

/// Relies on `serde_json::from_slice` and `serde_json::from_value`: the
/// parsed table is a function of the bytes alone.
#[verifier::external_body]
pub(crate) fn parse_process_table(body: &Vec<u8>) -> (r: Option<(Vec<String>, Vec<Vec<String>>)>)
    ensures
        match (r, process_table_of(body@)) {
            (Some(t), Some(m)) => t.0.deep_view() == m.0 && t.1.deep_view() == m.1,
            (None, None) => true,
            _ => false,
        },
{
    let v: serde_json::Value = serde_json::from_slice(body).ok()?;
    let titles: Vec<String> = serde_json::from_value(v.get("Titles")?.clone()).ok()?;
    let rows: Vec<Vec<String>> = serde_json::from_value(v.get("Processes")?.clone()).ok()?;
    Some((titles, rows))
}

/// The `Id` fields of a container-listing reply, when the body is a JSON
/// array of objects each carrying a string `Id`.
pub uninterp spec fn summary_ids_of(body: Seq<u8>) -> Option<Seq<Seq<char>>>;

/// Relies on `serde_json::from_slice`: the extracted identifiers are a
/// function of the bytes alone.
#[verifier::external_body]
pub(crate) fn parse_summary_ids(body: &Vec<u8>) -> (r: Option<Vec<String>>)
    ensures
        match (r, summary_ids_of(body@)) {
            (Some(v), Some(m)) => v.deep_view() == m,
            (None, None) => true,
            _ => false,
        },
{
    let v: serde_json::Value = serde_json::from_slice(body).ok()?;
    let arr = v.as_array()?;
    arr.iter().map(|c| Some(c.get("Id")?.as_str()?.to_string())).collect()
}

} // verus!
