//! The calls whose results are taken on trust: two of the standard library, one of `reqwest`.

use vstd::prelude::*;
use vstd::utf8::{
    decode_utf8, decode_utf8_encode_utf8, encode_utf8, encode_utf8_decode_utf8,
    encode_utf8_valid_utf8, valid_utf8,
};

verus! {

/// The lowercase form of `text`, as `str::to_lowercase` gives it.
pub uninterp spec fn lowercase(text: Seq<char>) -> Seq<char>;

/// `str::to_lowercase`: the lowercase form of the text, a function of the text alone.
pub assume_specification[ str::to_lowercase ](text: &str) -> (r: String)
    ensures
        r@ == lowercase(text@),
;

/// The text of `bytes` that are not valid UTF-8, as `String::from_utf8_lossy` gives it.
pub uninterp spec fn lossy_text(bytes: Seq<u8>) -> Seq<char>;

/// The text of `bytes`: what they encode, where they are valid UTF-8.
pub open spec fn decoded(bytes: Seq<u8>) -> Seq<char> {
    if valid_utf8(bytes) {
        decode_utf8(bytes)
    } else {
        lossy_text(bytes)
    }
}

/// `String::from_utf8_lossy`: the text that the bytes encode, with replacement characters where
/// they are not valid UTF-8. Of valid bytes the contract says that the result is what they encode.
/// Of others it names the result; where the replacement characters stand is not said.
#[verifier::external_body]
pub(crate) fn decode_lossy(bytes: &Vec<u8>) -> (text: String)
    ensures
        valid_utf8(bytes@) ==> text@ == decode_utf8(bytes@),
        !valid_utf8(bytes@) ==> text@ == lossy_text(bytes@),
{
    String::from_utf8_lossy(bytes).into_owned()
}

/// The status codes that report success.
pub open spec fn success_code(code: u16) -> bool {
    200 <= code < 300
}

/// `reqwest::StatusCode::is_success`, on the status that `reqwest::StatusCode::from_u16` makes of
/// `code`: true of the codes from 200 to 299. A number that is no status code is no success.
#[verifier::external_body]
pub(crate) fn is_success(code: u16) -> (r: bool)
    ensures
        r == success_code(code),
{
    match reqwest::StatusCode::from_u16(code) {
        Ok(status) => status.is_success(),
        Err(_) => false,
    }
}

/// Bytes that encode a text are read as that text, all of it.
pub proof fn encoded_text_is_read_back(text: Seq<char>)
    ensures
        decoded(encode_utf8(text)) == text,
{
    encode_utf8_valid_utf8(text);
    encode_utf8_decode_utf8(text);
}

/// Nothing is lost in reading bytes that are valid: they are what encodes the text. Of all others
/// the text is the lossy one.
pub proof fn valid_bytes_are_read_whole(bytes: Seq<u8>)
    ensures
        valid_utf8(bytes) ==> encode_utf8(decoded(bytes)) == bytes,
        !valid_utf8(bytes) ==> decoded(bytes) == lossy_text(bytes),
{
    if valid_utf8(bytes) {
        decode_utf8_encode_utf8(bytes);
    }
}

/// A status code reports success exactly where its first digit of three is a two.
pub proof fn codes_of_success_start_with_two(code: u16)
    ensures
        success_code(code) <==> code / 100 == 2,
{
}

} // verus!
