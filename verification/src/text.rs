//! Text on the wire: a selection's text travels as its UTF-8 bytes.

use vstd::prelude::*;
use vstd::string::{StrSliceExecFns, StringSliceAdditionalSpecFns};
use vstd::utf8::{decode_utf8, encode_utf8, valid_utf8};
use crate::error::Error;

verus! {

/// `String::from_utf8`, with its error dropped. Trusted: std documents that it
/// succeeds exactly on well-formed UTF-8 and then yields the text that the
/// bytes encode.
#[verifier::external_body]
fn string_from_utf8(bytes: Vec<u8>) -> (text: Option<String>)
    ensures
        text is Some <==> valid_utf8(bytes@),
        text matches Some(s) ==> s@ == decode_utf8(bytes@),
{
    String::from_utf8(bytes).ok()
}

/// The bytes that offer `contents` under the `UTF8_STRING` target.
pub fn encode(contents: &String) -> (bytes: Vec<u8>)
    ensures
        bytes@ == encode_utf8(contents@),
{
    contents.as_str().as_bytes_vec()
}

/// The text that `bytes` received under the `UTF8_STRING` target stand for.
/// Bytes that are not well-formed UTF-8 are refused.
pub fn decode(bytes: Vec<u8>) -> (text: Result<String, Error>)
    ensures
        valid_utf8(bytes@) ==> (text matches Ok(s) && s@ == decode_utf8(bytes@)),
        !valid_utf8(bytes@) ==> text == Err::<String, Error>(Error::InvalidUtf8),
{
    match string_from_utf8(bytes) {
        Some(text) => Ok(text),
        None => Err(Error::InvalidUtf8),
    }
}

/// Encoding a text and decoding the bytes gives the text back.
pub proof fn lemma_text_round_trip(contents: Seq<char>)
    ensures
        valid_utf8(encode_utf8(contents)),
        decode_utf8(encode_utf8(contents)) == contents,
{
    vstd::utf8::encode_utf8_valid_utf8(contents);
    vstd::utf8::encode_utf8_decode_utf8(contents);
}

} // verus!
