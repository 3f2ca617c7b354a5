use vstd::prelude::*;
use crate::error::{Error, ErrorKind};
use crate::text::{push_i32, push_str, signed_decimal, utf8_chars, utf8_error_text, utf8_text};

verus! {

/// How a stored payload is encoded.
#[derive(Debug, Clone, Copy, PartialEq, Eq, Structural)]
pub enum PayloadCodec {
    Raw,
    Json,
    Nif,
    Bif,
}

/// The number by which the C ABI names a codec.
pub open spec fn codec_number(codec: PayloadCodec) -> int {
    match codec {
        PayloadCodec::Raw => 0,
        PayloadCodec::Json => 1,
        PayloadCodec::Nif => 2,
        PayloadCodec::Bif => 3,
    }
}

/// The codec that the C ABI names by `value`, if any.
pub open spec fn codec_of_number(value: int) -> Option<PayloadCodec> {
    if value == 0 {
        Some(PayloadCodec::Raw)
    } else if value == 1 {
        Some(PayloadCodec::Json)
    } else if value == 2 {
        Some(PayloadCodec::Nif)
    } else if value == 3 {
        Some(PayloadCodec::Bif)
    } else {
        None
    }
}

/// The message of a codec number that the driver does not know.
pub open spec fn invalid_codec_message(value: i32) -> Seq<char> {
    "invalid KoutenDB payload codec "@ + signed_decimal(value as int)
}

impl PayloadCodec {
    /// The number that names this codec in the C ABI.
    pub fn as_c(self) -> (v: i32)
        ensures
            v == codec_number(self),
    {
        match self {
            PayloadCodec::Raw => 0,
            PayloadCodec::Json => 1,
            PayloadCodec::Nif => 2,
            PayloadCodec::Bif => 3,
        }
    }

    /// The codec that the C ABI names by `value`; an `Abi` error for a
    /// number that names none.
    pub fn from_c(value: i32) -> (r: Result<PayloadCodec, Error>)
        ensures
            match codec_of_number(value as int) {
                Some(c) => r matches Ok(d) && d == c,
                None => r matches Err(e) && e@.kind == ErrorKind::Abi && e@.message
                    == invalid_codec_message(value),
            },
    {
        if value == 0 {
            Ok(PayloadCodec::Raw)
        } else if value == 1 {
            Ok(PayloadCodec::Json)
        } else if value == 2 {
            Ok(PayloadCodec::Nif)
        } else if value == 3 {
            Ok(PayloadCodec::Bif)
        } else {
            let mut m = String::new();
            push_str(&mut m, "invalid KoutenDB payload codec ");
            push_i32(&mut m, value);
            Err(Error::new(ErrorKind::Abi, m))
        }
    }
}

/// Every codec comes back from its own number, and a number that names a
/// codec is that codec's number.
pub proof fn codec_number_roundtrip(codec: PayloadCodec, value: int)
    ensures
        codec_of_number(codec_number(codec)) == Some(codec),
        codec_of_number(value) == Some(codec) ==> codec_number(codec) == value,
        codec_of_number(value) is Some <==> 0 <= value <= 3,
{
}

/// A payload together with the codec it is encoded in.
#[derive(Debug, Clone, PartialEq, Eq)]
pub struct EncodedPayload {
    pub data: Vec<u8>,
    pub codec: PayloadCodec,
}

/// The error of bytes that are not UTF-8.
pub open spec fn utf8_error(bytes: Seq<u8>) -> crate::error::ErrorView {
    crate::error::ErrorView { kind: ErrorKind::Utf8, message: utf8_error_text(bytes) }
}

/// Reads bytes as UTF-8 text, with a `Utf8` error when they are not.
pub fn decode_utf8(bytes: &[u8]) -> (r: Result<&str, Error>)
    ensures
        r is Ok <==> vstd::utf8::valid_utf8(bytes@),
        r matches Ok(s) ==> s@ == utf8_chars(bytes@),
        r matches Err(e) ==> e@ == utf8_error(bytes@),
{
    match utf8_text(bytes) {
        Ok(s) => Ok(s),
        Err(m) => Err(Error::new(ErrorKind::Utf8, m)),
    }
}

/// Reads bytes as an owned UTF-8 `String`, with a `Utf8` error when they
/// are not UTF-8.
pub fn string_from_utf8(bytes: Vec<u8>) -> (r: Result<String, Error>)
    ensures
        r is Ok <==> vstd::utf8::valid_utf8(bytes@),
        r matches Ok(s) ==> s@ == utf8_chars(bytes@),
        r matches Err(e) ==> e@ == utf8_error(bytes@),
{
    match decode_utf8(bytes.as_slice()) {
        Ok(s) => Ok(s.to_owned()),
        Err(e) => Err(e),
    }
}

impl EncodedPayload {
    /// A payload in the given codec.
    pub fn new(data: Vec<u8>, codec: PayloadCodec) -> (p: EncodedPayload)
        ensures
            p.data@ == data@,
            p.codec == codec,
    {
        EncodedPayload { data, codec }
    }

    /// A raw payload.
    pub fn raw(data: Vec<u8>) -> (p: EncodedPayload)
        ensures
            p.data@ == data@,
            p.codec == PayloadCodec::Raw,
    {
        Self::new(data, PayloadCodec::Raw)
    }

    /// A JSON payload.
    pub fn json(data: Vec<u8>) -> (p: EncodedPayload)
        ensures
            p.data@ == data@,
            p.codec == PayloadCodec::Json,
    {
        Self::new(data, PayloadCodec::Json)
    }

    /// A NIF payload.
    pub fn nif(data: Vec<u8>) -> (p: EncodedPayload)
        ensures
            p.data@ == data@,
            p.codec == PayloadCodec::Nif,
    {
        Self::new(data, PayloadCodec::Nif)
    }

    /// A BIF payload.
    pub fn bif(data: Vec<u8>) -> (p: EncodedPayload)
        ensures
            p.data@ == data@,
            p.codec == PayloadCodec::Bif,
    {
        Self::new(data, PayloadCodec::Bif)
    }

    /// A payload as the C ABI hands it back: its bytes and the number of
    /// its codec; an `Abi` error when the number names no codec.
    pub fn from_abi(data: Vec<u8>, codec: i32) -> (r: Result<EncodedPayload, Error>)
        ensures
            match codec_of_number(codec as int) {
                Some(c) => r matches Ok(p) && p.data@ == data@ && p.codec == c,
                None => r matches Err(e) && e@.kind == ErrorKind::Abi && e@.message
                    == invalid_codec_message(codec),
            },
    {
        match PayloadCodec::from_c(codec) {
            Ok(c) => Ok(EncodedPayload::new(data, c)),
            Err(e) => Err(e),
        }
    }

    /// The payload read as UTF-8 text, with a `Utf8` error when it is not.
    pub fn as_utf8(&self) -> (r: Result<&str, Error>)
        ensures
            r is Ok <==> vstd::utf8::valid_utf8(self.data@),
            r matches Ok(s) ==> s@ == utf8_chars(self.data@),
            r matches Err(e) ==> e@ == utf8_error(self.data@),
    {
        decode_utf8(self.data.as_slice())
    }
}

} // verus!
