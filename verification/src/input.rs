//! The input payload and how raw bytes are classified into one.

use crate::flags::InputKind;
use crate::json::{
    first_byte, is_json, is_parser_safe, opens_container, parser_safe, parses_as_json,
    starts_number,
};
use vstd::prelude::*;
use vstd::string::{StrSliceExecFns, StringSliceAdditionalSpecFns};
use vstd::utf8::{decode_utf8, encode_utf8, group_utf8_lib, valid_utf8};

verus! {

/// The data submitted to an algorithm, tagged with the type it is sent under.
#[derive(Debug, PartialEq, Eq)]
pub enum InputData {
    /// Sent as `text/plain`.
    Text(String),
    /// Sent as `application/json`. The text is not checked to be JSON.
    Json(String),
    /// Sent as `application/octet-stream`.
    Binary(Vec<u8>),
}

/// What an `InputData` holds, as mathematical sequences.
pub enum Payload {
    Text(Seq<char>),
    Json(Seq<char>),
    Binary(Seq<u8>),
}

impl View for InputData {
    type V = Payload;

    open spec fn view(&self) -> Payload {
        match self {
            InputData::Text(text) => Payload::Text(text@),
            InputData::Json(text) => Payload::Json(text@),
            InputData::Binary(bytes) => Payload::Binary(bytes@),
        }
    }
}

impl DeepView for InputData {
    type V = Payload;

    open spec fn deep_view(&self) -> Payload {
        self@
    }
}

/// Why bytes could not be turned into the payload that was asked for.
#[derive(Clone, Copy, Debug, PartialEq, Eq, Structural)]
pub enum InputError {
    /// Text was asked for and the bytes are not UTF-8.
    NotUtf8,
    /// The type was to be detected, and the bytes are a text that is not among
    /// those that the JSON parser can be trusted with.
    Uninspectable,
}

/// The payload of a text, once it is known whether it is JSON.
pub open spec fn classified_as(text: Seq<char>, json: bool) -> Payload {
    if json {
        Payload::Json(text)
    } else {
        Payload::Text(text)
    }
}

/// The payload that detection makes of `bytes`: JSON is tried first, plain text
/// second, and bytes that are no text are binary.
pub open spec fn detect(bytes: Seq<u8>) -> Payload {
    if !valid_utf8(bytes) {
        Payload::Binary(bytes)
    } else {
        classified_as(decode_utf8(bytes), is_json(decode_utf8(bytes)))
    }
}

/// Bytes on which detection can run: those that are no text at all, and the
/// texts that `parser_safe` admits. The JSON parser can fail on a text outside
/// `parser_safe`, though it does not on every one of them.
pub open spec fn detectable(bytes: Seq<u8>) -> bool {
    valid_utf8(bytes) ==> parser_safe(bytes)
}

/// What `outcome` holds, with the payload taken by its view.
pub open spec fn outcome_view(outcome: Result<InputData, InputError>) -> Result<
    Payload,
    InputError,
> {
    match outcome {
        Ok(data) => Ok(data@),
        Err(error) => Err(error),
    }
}

/// What detection makes of `bytes` where it is asked of any bytes: `detect` where
/// it can run, and a refusal where it cannot.
pub open spec fn detect_checked(bytes: Seq<u8>) -> Result<Payload, InputError> {
    if detectable(bytes) {
        Ok(detect(bytes))
    } else {
        Err(InputError::Uninspectable)
    }
}

/// `bytes` read as text: their characters, or a refusal where they are not UTF-8.
pub open spec fn read_text(bytes: Seq<u8>) -> Result<Seq<char>, InputError> {
    if valid_utf8(bytes) {
        Ok(decode_utf8(bytes))
    } else {
        Err(InputError::NotUtf8)
    }
}

/// The payload that is made of `bytes` read from a file or from standard input,
/// for an option of the type `kind`.
pub open spec fn payload_of_bytes(kind: InputKind, bytes: Seq<u8>) -> Result<Payload, InputError> {
    match kind {
        InputKind::Auto => detect_checked(bytes),
        InputKind::Json => match read_text(bytes) {
            Ok(text) => Ok(Payload::Json(text)),
            Err(error) => Err(error),
        },
        InputKind::Text => match read_text(bytes) {
            Ok(text) => Ok(Payload::Text(text)),
            Err(error) => Err(error),
        },
        InputKind::Binary => Ok(Payload::Binary(bytes)),
    }
}

/// The payload that is made of `data` given on the command line, for an option
/// of the type `kind`. Only detection looks at the data.
pub open spec fn payload_of_literal(kind: InputKind, data: Seq<char>) -> Result<
    Payload,
    InputError,
> {
    match kind {
        InputKind::Auto => detect_checked(encode_utf8(data)),
        InputKind::Json => Ok(Payload::Json(data)),
        InputKind::Text => Ok(Payload::Text(data)),
        InputKind::Binary => Ok(Payload::Binary(encode_utf8(data))),
    }
}

/// Calls `std::str::from_utf8` and keeps the text it returns, if it returns one.
///
/// Not proved: that the call succeeds exactly on well-formed UTF-8, and that
/// the text it returns is made of the characters that the bytes encode.
#[verifier::external_body]
pub(crate) fn text_of(bytes: &[u8]) -> (text: Option<&str>)
    ensures
        text is Some <==> valid_utf8(bytes@),
        text is Some ==> text->0@ == decode_utf8(bytes@),
{
    match std::str::from_utf8(bytes) {
        Ok(text) => Some(text),
        Err(_) => None,
    }
}

impl InputData {
    /// Makes the payload of a text of which it is known whether it is JSON:
    /// JSON where it is, plain text where it is not.
    pub fn classified(text: String, json: bool) -> (data: InputData)
        ensures
            data@ == classified_as(text@, json),
            json ==> data@ == Payload::Json(text@),
            !json ==> data@ == Payload::Text(text@),
    {
        if json {
            InputData::Json(text)
        } else {
            InputData::Text(text)
        }
    }

    /// Detects the type of `bytes`: JSON where they are a text that parses as
    /// JSON, text where they are any other text, binary where they are no text.
    pub fn auto(bytes: Vec<u8>) -> (data: InputData)
        requires
            detectable(bytes@),
        ensures
            data@ == detect(bytes@),
            valid_utf8(bytes@) && is_json(decode_utf8(bytes@)) ==> data@ is Json,
            valid_utf8(bytes@) && !is_json(decode_utf8(bytes@)) ==> data@ is Text,
            !valid_utf8(bytes@) ==> data@ is Binary,
    {
        broadcast use group_utf8_lib;

        match text_of(bytes.as_slice()) {
            Some(text) => InputData::classified(String::from_str(text), parses_as_json(text)),
            None => InputData::Binary(bytes),
        }
    }

    /// Whether detection can run on `bytes`.
    pub fn can_detect(bytes: &[u8]) -> (can: bool)
        ensures
            can == detectable(bytes@),
    {
        broadcast use group_utf8_lib;

        match text_of(bytes) {
            Some(text) => is_parser_safe(text.as_bytes()),
            None => true,
        }
    }

    /// Detects the type of `bytes` where detection can run, and says so where it
    /// cannot.
    pub fn auto_checked(bytes: Vec<u8>) -> (outcome: Result<InputData, InputError>)
        ensures
            outcome_view(outcome) == detect_checked(bytes@),
    {
        if InputData::can_detect(bytes.as_slice()) {
            Ok(InputData::auto(bytes))
        } else {
            Err(InputError::Uninspectable)
        }
    }

    /// Takes `bytes` as text, which they have to be.
    pub fn text(bytes: Vec<u8>) -> (outcome: Result<InputData, InputError>)
        ensures
            outcome_view(outcome) == match read_text(bytes@) {
                Ok(text) => Ok(Payload::Text(text)),
                Err(error) => Err(error),
            },
    {
        match text_of(bytes.as_slice()) {
            Some(text) => Ok(InputData::Text(String::from_str(text))),
            None => Err(InputError::NotUtf8),
        }
    }

    /// Takes `bytes` as JSON text. Whether the text is JSON is left to the
    /// receiver to judge.
    pub fn json(bytes: Vec<u8>) -> (outcome: Result<InputData, InputError>)
        ensures
            outcome_view(outcome) == match read_text(bytes@) {
                Ok(text) => Ok(Payload::Json(text)),
                Err(error) => Err(error),
            },
    {
        match text_of(bytes.as_slice()) {
            Some(text) => Ok(InputData::Json(String::from_str(text))),
            None => Err(InputError::NotUtf8),
        }
    }

    /// Takes `bytes` as they are.
    pub fn binary(bytes: Vec<u8>) -> (data: InputData)
        ensures
            data@ == Payload::Binary(bytes@),
    {
        InputData::Binary(bytes)
    }

    /// Makes the payload of an option of the type `kind` from the bytes that
    /// were read from its file, or from standard input.
    pub fn from_bytes(kind: InputKind, bytes: Vec<u8>) -> (outcome: Result<InputData, InputError>)
        ensures
            outcome_view(outcome) == payload_of_bytes(kind, bytes@),
    {
        match kind {
            InputKind::Auto => InputData::auto_checked(bytes),
            InputKind::Json => InputData::json(bytes),
            InputKind::Text => InputData::text(bytes),
            InputKind::Binary => Ok(InputData::binary(bytes)),
        }
    }

    /// Makes the payload of an option of the type `kind` from the data that was
    /// given with it on the command line.
    pub fn from_literal(kind: InputKind, data: String) -> (outcome: Result<InputData, InputError>)
        ensures
            outcome_view(outcome) == payload_of_literal(kind, data@),
    {
        match kind {
            InputKind::Auto => InputData::auto_checked(data.as_str().as_bytes_vec()),
            InputKind::Json => Ok(InputData::Json(data)),
            InputKind::Text => Ok(InputData::Text(data)),
            InputKind::Binary => Ok(InputData::binary(data.as_str().as_bytes_vec())),
        }
    }
}

/// Data given on the command line is text, so detection makes JSON or text
/// of it and never binary, and keeps every character.
pub proof fn detected_literal_is_json_or_text(data: Seq<char>)
    ensures
        detect(encode_utf8(data)) == classified_as(data, is_json(data)),
{
    broadcast use group_utf8_lib;

}

/// Detection never takes one type for another. A text that parses as JSON
/// comes out as JSON or is refused, and is never taken for plain text or for
/// binary; any other text comes out as text or is refused; and bytes that are
/// no text always come out as binary, as they are.
pub proof fn detection_never_mistakes(bytes: Seq<u8>)
    ensures
        valid_utf8(bytes) && is_json(decode_utf8(bytes)) ==> detect_checked(bytes) == Ok::<
            Payload,
            InputError,
        >(Payload::Json(decode_utf8(bytes))) || detect_checked(bytes) == Err::<
            Payload,
            InputError,
        >(InputError::Uninspectable),
        valid_utf8(bytes) && !is_json(decode_utf8(bytes)) ==> detect_checked(bytes) == Ok::<
            Payload,
            InputError,
        >(Payload::Text(decode_utf8(bytes))) || detect_checked(bytes) == Err::<
            Payload,
            InputError,
        >(InputError::Uninspectable),
        !valid_utf8(bytes) ==> detect_checked(bytes) == Ok::<Payload, InputError>(
            Payload::Binary(bytes),
        ),
{
}

/// Detection runs on every text that begins with neither an array, an object
/// nor a number, whatever stands in it, and on all bytes that are no text.
pub proof fn detection_runs_on_words(bytes: Seq<u8>)
    requires
        !valid_utf8(bytes) || match first_byte(bytes, 0) {
            Some(b) => !opens_container(b) && !starts_number(b),
            None => true,
        },
    ensures
        detectable(bytes),
        detect_checked(bytes) == Ok::<Payload, InputError>(detect(bytes)),
{
}

} // verus!
