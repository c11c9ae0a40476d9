//! Remote addresses: a request names its source percent-encoded, and the
//! library decodes it before anything is fetched.

use crate::error::Error;
use vstd::prelude::*;
use vstd::utf8::{decode_utf8, encode_utf8, valid_utf8};

verus! {

/// The byte that starts an escape.
pub const PERCENT: u8 = 37;

/// The value of an ASCII hexadecimal digit, in either case, or `None` for
/// any other byte.
pub open spec fn hex_value(byte: u8) -> Option<nat> {
    if 48 <= byte <= 57 {
        Some((byte - 48) as nat)
    } else if 65 <= byte <= 70 {
        Some((byte - 55) as nat)
    } else if 97 <= byte <= 102 {
        Some((byte - 87) as nat)
    } else {
        None
    }
}

/// Whether `bytes` starts with an escape: `%` and two hexadecimal digits.
pub open spec fn starts_with_escape(bytes: Seq<u8>) -> bool {
    &&& bytes.len() >= 3
    &&& bytes[0] == PERCENT
    &&& hex_value(bytes[1]) is Some
    &&& hex_value(bytes[2]) is Some
}

/// `bytes` with every escape replaced by the byte it stands for, read from
/// the left. A `%` that no two hexadecimal digits follow stays as it is.
pub open spec fn percent_decoded(bytes: Seq<u8>) -> Seq<u8>
    decreases bytes.len(),
{
    if bytes.len() == 0 {
        Seq::empty()
    } else if starts_with_escape(bytes) {
        seq![(16 * hex_value(bytes[1])->0 + hex_value(bytes[2])->0) as u8] + percent_decoded(
            bytes.skip(3),
        )
    } else {
        seq![bytes[0]] + percent_decoded(bytes.skip(1))
    }
}

/// Whether the URL parser accepts `text` as an absolute URL.
pub uninterp spec fn parses_as_url(text: Seq<char>) -> bool;

/// The address that a percent-encoded request parameter stands for: its
/// escapes decoded and the bytes read as UTF-8, provided they are UTF-8 and
/// the text is an absolute URL.
pub open spec fn decoded_url(encoded: Seq<char>) -> Option<Seq<char>> {
    let bytes = percent_decoded(encode_utf8(encoded));
    if valid_utf8(bytes) && parses_as_url(decode_utf8(bytes)) {
        Some(decode_utf8(bytes))
    } else {
        None
    }
}

/// Decoding never makes the text longer.
pub proof fn lemma_percent_decoded_len(bytes: Seq<u8>)
    ensures
        percent_decoded(bytes).len() <= bytes.len(),
    decreases bytes.len(),
{
    if bytes.len() == 0 {
    } else if starts_with_escape(bytes) {
        lemma_percent_decoded_len(bytes.skip(3));
    } else {
        lemma_percent_decoded_len(bytes.skip(1));
    }
}

/// Bytes without a percent sign decode to themselves.
pub proof fn lemma_percent_decoded_plain(bytes: Seq<u8>)
    requires
        forall|i: int| 0 <= i < bytes.len() ==> bytes[i] != PERCENT,
    ensures
        percent_decoded(bytes) == bytes,
    decreases bytes.len(),
{
    if bytes.len() > 0 {
        lemma_percent_decoded_plain(bytes.skip(1));
        assert(seq![bytes[0]] + bytes.skip(1) =~= bytes);
    }
}

/// An address without a percent sign stands for itself, provided it is an
/// absolute URL.
pub proof fn lemma_plain_address(text: Seq<char>)
    requires
        forall|i: int| 0 <= i < encode_utf8(text).len() ==> encode_utf8(text)[i] != PERCENT,
    ensures
        decoded_url(text) == if parses_as_url(text) {
            Some(text)
        } else {
            None
        },
{
    lemma_percent_decoded_plain(encode_utf8(text));
    vstd::utf8::encode_utf8_valid_utf8(text);
    vstd::utf8::encode_utf8_decode_utf8(text);
}

/// The error of std's UTF-8 validation.
#[verifier::external_type_specification]
#[verifier::external_body]
pub struct ExUtf8Error(core::str::Utf8Error);

/// Calls `percent_encoding::percent_decode_str` and `decode_utf8` on what it
/// returns. The contract claims what the crate documents: every `%` followed
/// by two hexadecimal digits is decoded, nothing else changes, and the outcome
/// is the bytes read as UTF-8, or the error where they are not UTF-8.
#[verifier::external_body]
fn percent_decode_utf8(input: &str) -> (r: Result<String, core::str::Utf8Error>)
    ensures
        match r {
            Ok(text) => {
                &&& valid_utf8(percent_decoded(encode_utf8(input@)))
                &&& text@ == decode_utf8(percent_decoded(encode_utf8(input@)))
            },
            Err(_) => !valid_utf8(percent_decoded(encode_utf8(input@))),
        },
{
    match percent_encoding::percent_decode_str(input).decode_utf8() {
        Ok(text) => Ok(text.into_owned()),
        Err(e) => Err(e),
    }
}

/// Calls `reqwest::Url::parse` and keeps only whether it succeeded. The
/// contract names that answer after the text.
#[verifier::external_body]
fn is_absolute_url(text: &str) -> (ok: bool)
    ensures
        ok == parses_as_url(text@),
{
    reqwest::Url::parse(text).is_ok()
}

/// Decodes the percent-encoded address of a remote image.
pub fn remote_url(encoded: &str) -> (r: Result<String, Error>)
    ensures
        match r {
            Ok(url) => decoded_url(encoded@) == Some(url@),
            Err(e) => e == Error::InvalidURL && decoded_url(encoded@) is None,
        },
{
    match percent_decode_utf8(encoded) {
        Ok(url) => {
            if is_absolute_url(url.as_str()) {
                Ok(url)
            } else {
                Err(Error::InvalidURL)
            }
        },
        Err(_) => Err(Error::InvalidURL),
    }
}

} // verus!
