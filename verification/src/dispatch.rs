//! What is submitted for a payload: its content type, its body and the options
//! of the call.

use crate::input::{detect, InputData, Payload};
use vstd::prelude::*;
use vstd::string::{StrSliceExecFns, StringSliceAdditionalSpecFns};
use vstd::utf8::{encode_utf8, group_utf8_lib, valid_utf8};

verus! {

/// The content type that a body is submitted under.
#[derive(Clone, Copy, Debug, PartialEq, Eq, Structural)]
pub enum ContentType {
    /// `text/plain`
    TextPlain,
    /// `application/json`
    ApplicationJson,
    /// `application/octet-stream`
    OctetStream,
}

impl ContentType {
    /// The name of the content type as it is written in a header.
    pub open spec fn name(self) -> Seq<char> {
        match self {
            ContentType::TextPlain => "text/plain"@,
            ContentType::ApplicationJson => "application/json"@,
            ContentType::OctetStream => "application/octet-stream"@,
        }
    }

    /// The name of the content type as it is written in a header.
    pub fn mime(&self) -> (mime: &'static str)
        ensures
            mime@ == self.name(),
    {
        match self {
            ContentType::TextPlain => "text/plain",
            ContentType::ApplicationJson => "application/json",
            ContentType::OctetStream => "application/octet-stream",
        }
    }
}

/// The content type that a payload is submitted under.
pub open spec fn content_type_of(payload: Payload) -> ContentType {
    match payload {
        Payload::Text(_) => ContentType::TextPlain,
        Payload::Json(_) => ContentType::ApplicationJson,
        Payload::Binary(_) => ContentType::OctetStream,
    }
}

/// The bytes that are submitted for a payload: a text as UTF-8, bytes as they are.
pub open spec fn body_of(payload: Payload) -> Seq<u8> {
    match payload {
        Payload::Text(text) => encode_utf8(text),
        Payload::Json(text) => encode_utf8(text),
        Payload::Binary(bytes) => bytes,
    }
}

impl InputData {
    /// The content type that this payload is submitted under.
    pub fn content_type(&self) -> (content_type: ContentType)
        ensures
            content_type == content_type_of(self@),
    {
        match self {
            InputData::Text(_) => ContentType::TextPlain,
            InputData::Json(_) => ContentType::ApplicationJson,
            InputData::Binary(_) => ContentType::OctetStream,
        }
    }

    /// The bytes that are submitted for this payload.
    pub fn into_body(self) -> (body: Vec<u8>)
        ensures
            body@ == body_of(self@),
    {
        match self {
            InputData::Text(text) => text.as_str().as_bytes_vec(),
            InputData::Json(text) => text.as_str().as_bytes_vec(),
            InputData::Binary(bytes) => bytes,
        }
    }
}

/// The options of one call.
#[derive(Clone, Copy, Debug, PartialEq, Eq, Structural)]
pub struct ExecutionOptions {
    /// Ask for what the algorithm prints to be returned with the result.
    pub enable_stdout_capture: bool,
    /// The time the algorithm is given, in seconds, where the default is not wanted.
    pub timeout_seconds: Option<u32>,
}

impl ExecutionOptions {
    /// The options of a call that asks for nothing: no capture, the default timeout.
    pub fn new() -> (options: ExecutionOptions)
        ensures
            options == (ExecutionOptions { enable_stdout_capture: false, timeout_seconds: None }),
    {
        ExecutionOptions { enable_stdout_capture: false, timeout_seconds: None }
    }

    /// The options that the command line asks for: capture with `--debug`, and
    /// the timeout as given.
    pub fn from_flags(debug: bool, timeout: Option<u32>) -> (options: ExecutionOptions)
        ensures
            options == (ExecutionOptions { enable_stdout_capture: debug, timeout_seconds: timeout }),
    {
        let mut options = ExecutionOptions::new();
        if debug {
            options.enable_stdout_capture = true;
        }
        if let Some(seconds) = timeout {
            options.timeout_seconds = Some(seconds);
        }
        options
    }
}

/// One call, ready to be made: the algorithm, what is sent to it and how.
#[derive(Debug, PartialEq, Eq)]
pub struct Request {
    pub algorithm: String,
    pub content_type: ContentType,
    pub body: Vec<u8>,
    pub options: ExecutionOptions,
}

/// What a `Request` holds, as mathematical values.
pub struct RequestView {
    pub algorithm: Seq<char>,
    pub content_type: ContentType,
    pub body: Seq<u8>,
    pub options: ExecutionOptions,
}

impl View for Request {
    type V = RequestView;

    open spec fn view(&self) -> RequestView {
        RequestView {
            algorithm: self.algorithm@,
            content_type: self.content_type,
            body: self.body@,
            options: self.options,
        }
    }
}

/// The call that submits `payload` to `algorithm` with `options`: the body is the
/// payload's bytes, under the payload's content type, and the options are
/// passed on as they are.
pub open spec fn request_for(
    algorithm: Seq<char>,
    payload: Payload,
    options: ExecutionOptions,
) -> RequestView {
    RequestView {
        algorithm,
        content_type: content_type_of(payload),
        body: body_of(payload),
        options,
    }
}

impl Request {
    /// The call that submits `payload` to `algorithm` with `options`.
    pub fn new(algorithm: String, payload: InputData, options: ExecutionOptions) -> (request:
        Request)
        ensures
            request@ == request_for(algorithm@, payload@, options),
    {
        let content_type = payload.content_type();
        Request { algorithm, content_type, body: payload.into_body(), options }
    }
}

/// Detection changes no byte: whatever type it settles on, the body that is
/// submitted is the input as it was read.
pub proof fn detection_keeps_bytes(bytes: Seq<u8>)
    ensures
        body_of(detect(bytes)) == bytes,
{
    broadcast use group_utf8_lib;

}

/// A payload whose body is not UTF-8 is binary: text and JSON are always
/// submitted as well-formed UTF-8.
pub proof fn text_bodies_are_utf8(payload: Payload)
    requires
        !(payload is Binary),
    ensures
        valid_utf8(body_of(payload)),
{
    broadcast use group_utf8_lib;

}

} // verus!
