use vstd::prelude::*;

use crate::error::WasmError;

verus! {

/// The bytes that the standard base64 alphabet decodes the text to, or `None`
/// where the text is not valid base64.
pub uninterp spec fn base64_decoded(s: Seq<char>) -> Option<Seq<u8>>;

/// A symbol of the standard base64 alphabet, or the padding symbol.
pub open spec fn is_base64_symbol(c: char) -> bool {
    ('A' <= c && c <= 'Z') || ('a' <= c && c <= 'z') || ('0' <= c && c <= '9') || c == '+'
        || c == '/' || c == '='
}

/// The text holds a character that no base64 text can hold.
pub open spec fn has_foreign_symbol(s: Seq<char>) -> bool {
    exists|i: int| 0 <= i < s.len() && !is_base64_symbol(#[trigger] s[i])
}

/// What the schema stage hands on: the value, or the kind that stands for
/// any failure of the binary decoder.
pub open spec fn schema_outcome<T>(out: Result<T, std::io::Error>) -> Result<T, WasmError> {
    match out {
        Ok(v) => Ok(v),
        Err(_) => Err(WasmError::UnknownError),
    }
}

/// Relies on base64::decode (standard alphabet, version 0.13): the bytes depend
/// on the text alone; an empty text decodes to no bytes; a character outside
/// the alphabet and the padding symbol makes it fail.
#[verifier::external_body]
fn base64_decode(s: &str) -> (r: Result<Vec<u8>, base64::DecodeError>)
    ensures
        match base64_decoded(s@) {
            Some(b) => r is Ok && r->Ok_0@ == b,
            None => r is Err,
        },
        s@.len() == 0 ==> r is Ok && r->Ok_0@.len() == 0,
        has_foreign_symbol(s@) ==> r is Err,
{
    base64::decode(s)
}

/// First stage: base64 text to bytes. Any malformed text gives
/// `DecodingError`.
pub fn decode_base64_text(base64_str: &str) -> (r: Result<Vec<u8>, WasmError>)
    ensures
        match base64_decoded(base64_str@) {
            Some(b) => r is Ok && r->Ok_0@ == b,
            None => r == Err::<Vec<u8>, WasmError>(WasmError::DecodingError),
        },
        base64_str@.len() == 0 ==> r is Ok && r->Ok_0@.len() == 0,
        has_foreign_symbol(base64_str@) ==> r == Err::<Vec<u8>, WasmError>(
            WasmError::DecodingError,
        ),
{
    match base64_decode(base64_str) {
        Ok(bytes) => Ok(bytes),
        Err(e) => Err(WasmError::from(e)),
    }
}

/// Second stage: the outcome of a binary schema decoder, with every failure
/// collapsed into `UnknownError`.
pub fn from_schema_outcome<T>(out: Result<T, std::io::Error>) -> (r: Result<T, WasmError>)
    ensures
        r == schema_outcome(out),
{
    match out {
        Ok(v) => Ok(v),
        Err(e) => Err(WasmError::from(e)),
    }
}

/// The whole decode pipeline for one target type: base64 text to bytes, then
/// bytes to a value with `try_from_slice`, the target type's schema decoder.
pub fn decode_abci_value_str<T, F>(base64_str: &str, try_from_slice: F) -> (r: Result<T, WasmError>)
    where
        F: FnOnce(&[u8]) -> Result<T, std::io::Error>,
    requires
        forall|b: &[u8]| #[trigger] try_from_slice.requires((b,)),
    ensures
        match base64_decoded(base64_str@) {
            None => r == Err::<T, WasmError>(WasmError::DecodingError),
            Some(bytes) => exists|b: &[u8], out: Result<T, std::io::Error>|
                b@ == bytes && #[trigger] try_from_slice.ensures((b,), out) && r
                    == schema_outcome(out),
        },
        has_foreign_symbol(base64_str@) ==> r == Err::<T, WasmError>(WasmError::DecodingError),
{
    let bytes = match decode_base64_text(base64_str) {
        Ok(bytes) => bytes,
        Err(e) => {
            return Err(e);
        },
    };
    let out = try_from_slice(bytes.as_slice());
    from_schema_outcome(out)
}

} // verus!
