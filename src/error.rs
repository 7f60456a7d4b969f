use vstd::prelude::*;

verus! {

/// The outside error of the base64 decoder; only its presence matters here.
#[verifier::external_type_specification]
#[verifier::external_body]
pub struct ExDecodeError(base64::DecodeError);

/// The error of a binary schema decoder; only its presence matters here.
#[verifier::external_type_specification]
#[verifier::external_body]
pub struct ExIoError(std::io::Error);

/// The closed set of decode-side failures.
#[derive(Debug, Clone, Copy, PartialEq, Eq, Structural)]
pub enum WasmError {
    /// The input text is not valid base64.
    DecodingError,
    /// The decoded bytes do not fit the target type's binary schema.
    UnknownError,
}

impl WasmError {
    /// The fixed text of each kind.
    pub open spec fn text(self) -> Seq<char> {
        match self {
            WasmError::DecodingError => "invalid base64 string"@,
            WasmError::UnknownError => "unknown error"@,
        }
    }

    /// The descriptive text shown for this error at the boundary.
    pub fn message(&self) -> (r: String)
        ensures
            r@ == self.text(),
    {
        match self {
            WasmError::DecodingError => String::from_str("invalid base64 string"),
            WasmError::UnknownError => String::from_str("unknown error"),
        }
    }
}

impl From<base64::DecodeError> for WasmError {
    fn from(_e: base64::DecodeError) -> (r: WasmError)
        ensures
            r == WasmError::DecodingError,
    {
        WasmError::DecodingError
    }
}

impl vstd::std_specs::convert::FromSpecImpl<base64::DecodeError> for WasmError {
    open spec fn obeys_from_spec() -> bool {
        true
    }

    open spec fn from_spec(v: base64::DecodeError) -> WasmError {
        WasmError::DecodingError
    }
}

impl From<std::io::Error> for WasmError {
    fn from(_e: std::io::Error) -> (r: WasmError)
        ensures
            r == WasmError::UnknownError,
    {
        WasmError::UnknownError
    }
}

impl vstd::std_specs::convert::FromSpecImpl<std::io::Error> for WasmError {
    open spec fn obeys_from_spec() -> bool {
        true
    }

    open spec fn from_spec(v: std::io::Error) -> WasmError {
        WasmError::UnknownError
    }
}

} // verus!
