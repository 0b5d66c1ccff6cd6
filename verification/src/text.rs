//! Decoding of pasted bytes into text.

use vstd::prelude::*;
use vstd::utf8::{decode_utf8, valid_utf8};
use crate::error::{text_model, ClipboardError, ErrorModel, TextModel};

verus! {

/// The error of `String::from_utf8`, carried through without being read.
#[verifier::external_type_specification]
#[verifier::external_body]
pub struct ExFromUtf8Error(std::string::FromUtf8Error);

/// What is taken on trust of `String::from_utf8`: it returns `Ok` exactly
/// when the bytes are well-formed UTF-8, and the string it then returns is
/// the text that the bytes encode. Its error is not looked into.
pub assume_specification[ String::from_utf8 ](vec: Vec<u8>) -> (r: Result<
    String,
    std::string::FromUtf8Error,
>)
    ensures
        r is Ok <==> valid_utf8(vec@),
        r matches Ok(s) ==> s@ == decode_utf8(vec@),
;

/// The text that `bytes` stand for: their decoding where they are
/// well-formed UTF-8, a decode failure otherwise.
pub open spec fn decoded(bytes: Seq<u8>) -> TextModel {
    if valid_utf8(bytes) {
        Ok(decode_utf8(bytes))
    } else {
        Err(ErrorModel::InvalidUtf8)
    }
}

/// Turns the fully drained contents of a paste into a string.
///
/// Fails with [`ClipboardError::InvalidUtf8`] exactly when the bytes are not
/// valid UTF-8. No byte is dropped or replaced.
pub fn read_into_string(bytes: Vec<u8>) -> (r: Result<String, ClipboardError>)
    ensures
        text_model(r) == decoded(bytes@),
{
    match String::from_utf8(bytes) {
        Ok(contents) => Ok(contents),
        Err(_) => Err(ClipboardError::InvalidUtf8),
    }
}

} // verus!
