//! The closed error taxonomy of the pipeline.
//!
//! Every failure of `pack` or `unpack` is reported under the kind that names
//! the stage that rejected its input; a deserializer failure carries a finer
//! `JsonReason`. No kind is ever used for another stage's failure.

use vstd::prelude::*;
use crate::codec::classify_json_error;

verus! {

/// The finer reason a JSON error carries.
#[derive(Clone, Copy, Debug, PartialEq, Eq, Structural)]
pub enum JsonReason {
    /// Failure to read or write bytes on an IO stream.
    Io,
    /// Input is not syntactically valid JSON.
    Syntax,
    /// Input data is semantically incorrect for the target type.
    Data,
    /// Input ended before a complete JSON value was read.
    Eof,
}

/// The one pipeline stage that failed.
#[derive(Clone, Copy, Debug, PartialEq, Eq, Structural)]
pub enum JURLError {
    /// The token held text the URL-safe decoder rejects.
    DecodingError,
    /// The compressor rejected the serialized bytes.
    CompressionError,
    /// The serializer failed to render the value as JSON text.
    SerializationError,
    /// The decompressor rejected the decoded bytes as corrupt or truncated.
    DecompressionError,
    /// The JSON deserializer failed, for the carried reason.
    JsonError(JsonReason),
    /// The decompressed bytes are not valid UTF-8 text.
    UTF8Error,
}

impl JURLError {
    /// The fixed display form of each error kind.
    pub open spec fn display_spec(&self) -> Seq<char> {
        match self {
            JURLError::CompressionError => "CompressionError"@,
            JURLError::SerializationError => "SerializationError"@,
            JURLError::DecodingError => "DecodingError"@,
            JURLError::DecompressionError => "DecompressionError"@,
            JURLError::JsonError(reason) => match reason {
                JsonReason::Io => "JsonError(JsonReason::Io)"@,
                JsonReason::Syntax => "JsonError(JsonReason::Syntax)"@,
                JsonReason::Data => "JsonError(JsonReason::Data)"@,
                JsonReason::Eof => "JsonError(JsonReason::Eof)"@,
            },
            JURLError::UTF8Error => "UTF8Error"@,
        }
    }

    /// The fixed one-line description of each error kind.
    pub open spec fn description_spec(&self) -> Seq<char> {
        match self {
            JURLError::CompressionError => "Could not compress data"@,
            JURLError::SerializationError => "Could not serialize data"@,
            JURLError::DecodingError => "Could not decode data"@,
            JURLError::DecompressionError => "Could not decompress data"@,
            JURLError::JsonError(reason) => match reason {
                JsonReason::Io => "Failure to read or write bytes on an IO stream."@,
                JsonReason::Syntax => "Input is not syntactically valid JSON."@,
                JsonReason::Data => "Input data is semantically incorrect."@,
                JsonReason::Eof => "Unexcpected end of input data."@,
            },
            JURLError::UTF8Error => "Could not decode data as UTF8"@,
        }
    }

    /// The error's display form, as owned text.
    pub fn display_string(&self) -> (r: String)
        ensures
            r@ == self.display_spec(),
    {
        match self {
            JURLError::CompressionError => "CompressionError".to_owned(),
            JURLError::SerializationError => "SerializationError".to_owned(),
            JURLError::DecodingError => "DecodingError".to_owned(),
            JURLError::DecompressionError => "DecompressionError".to_owned(),
            JURLError::JsonError(reason) => match reason {
                JsonReason::Io => "JsonError(JsonReason::Io)".to_owned(),
                JsonReason::Syntax => "JsonError(JsonReason::Syntax)".to_owned(),
                JsonReason::Data => "JsonError(JsonReason::Data)".to_owned(),
                JsonReason::Eof => "JsonError(JsonReason::Eof)".to_owned(),
            },
            JURLError::UTF8Error => "UTF8Error".to_owned(),
        }
    }

    /// A short description of the error.
    pub fn description(&self) -> (r: &'static str)
        ensures
            r@ == self.description_spec(),
    {
        match self {
            JURLError::CompressionError => "Could not compress data",
            JURLError::SerializationError => "Could not serialize data",
            JURLError::DecodingError => "Could not decode data",
            JURLError::DecompressionError => "Could not decompress data",
            JURLError::JsonError(reason) => match reason {
                JsonReason::Io => "Failure to read or write bytes on an IO stream.",
                JsonReason::Syntax => "Input is not syntactically valid JSON.",
                JsonReason::Data => "Input data is semantically incorrect.",
                JsonReason::Eof => "Unexcpected end of input data.",
            },
            JURLError::UTF8Error => "Could not decode data as UTF8",
        }
    }

    /// Classifies a failure of the JSON deserializer: the result is always a
    /// `JsonError`, carrying the reason the deserializer reports.
    pub fn from_json_error(e: &serde_json::Error) -> (r: Self)
        ensures
            r matches JURLError::JsonError(_),
    {
        JURLError::JsonError(classify_json_error(e))
    }
}

impl From<serde_json::Error> for JURLError {
    /// A JSON error becomes a `JsonError` carrying the reported reason. The
    /// reason depends on an error value the contracts cannot look into, so
    /// `from_spec` leaves the result open and callers that need the kind
    /// pinned use `from_json_error`.
    fn from(e: serde_json::Error) -> Self {
        JURLError::JsonError(classify_json_error(&e))
    }
}

impl vstd::std_specs::convert::FromSpecImpl<serde_json::Error> for JURLError {
    open spec fn obeys_from_spec() -> bool {
        false
    }

    open spec fn from_spec(_e: serde_json::Error) -> Self {
        arbitrary()
    }
}

impl From<base64::DecodeError> for JURLError {
    /// Every failure of the URL-safe text decoder is a `DecodingError`.
    fn from(_e: base64::DecodeError) -> Self {
        JURLError::DecodingError
    }
}

impl vstd::std_specs::convert::FromSpecImpl<base64::DecodeError> for JURLError {
    open spec fn obeys_from_spec() -> bool {
        true
    }

    open spec fn from_spec(_e: base64::DecodeError) -> Self {
        JURLError::DecodingError
    }
}

impl From<lzma::error::LzmaError> for JURLError {
    /// Every failure of the decompressor is a `DecompressionError`.
    fn from(_e: lzma::error::LzmaError) -> Self {
        JURLError::DecompressionError
    }
}

impl vstd::std_specs::convert::FromSpecImpl<lzma::error::LzmaError> for JURLError {
    open spec fn obeys_from_spec() -> bool {
        true
    }

    open spec fn from_spec(_e: lzma::error::LzmaError) -> Self {
        JURLError::DecompressionError
    }
}

impl From<core::str::Utf8Error> for JURLError {
    /// Every failure to read bytes as UTF-8 text is a `UTF8Error`.
    fn from(_e: core::str::Utf8Error) -> Self {
        JURLError::UTF8Error
    }
}

impl vstd::std_specs::convert::FromSpecImpl<core::str::Utf8Error> for JURLError {
    open spec fn obeys_from_spec() -> bool {
        true
    }

    open spec fn from_spec(_e: core::str::Utf8Error) -> Self {
        JURLError::UTF8Error
    }
}

} // verus!
