//! The ways in which an invocation ends without a result, and what is said of each.

use crate::input::InputError;
use crate::text::join;
use crate::usage::USAGE;
use vstd::prelude::*;

verus! {

/// Why an invocation failed. Every failure ends the invocation.
#[derive(Debug, PartialEq, Eq)]
pub enum Failure {
    /// An input option stood last, without the value it takes. Holds the option.
    MissingValue(String),
    /// No input option was given.
    NoInput,
    /// More than one input option was given.
    MultipleInputs,
    /// The type of the input was to be detected and cannot be.
    Undetectable,
    /// A file could not be opened. Holds the path and the system's reason.
    Open(String, String),
    /// A source could not be read. Holds the reason.
    Read(String),
    /// The output file could not be created. Holds the reason.
    Create(String),
    /// The output could not be written. Holds the reason.
    Write(String),
    /// The call itself failed. Holds the reason.
    Transport(String),
    /// The call returned, and what it returned is no result. Holds the reason.
    Decode(String),
}

/// What a `Failure` holds, as mathematical sequences.
pub enum FailureView {
    MissingValue(Seq<char>),
    NoInput,
    MultipleInputs,
    Undetectable,
    Open(Seq<char>, Seq<char>),
    Read(Seq<char>),
    Create(Seq<char>),
    Write(Seq<char>),
    Transport(Seq<char>),
    Decode(Seq<char>),
}

/// The four families of failure.
#[derive(Clone, Copy, Debug, PartialEq, Eq, Structural)]
pub enum FailureKind {
    Usage,
    Io,
    Transport,
    Decode,
}

impl View for Failure {
    type V = FailureView;

    open spec fn view(&self) -> FailureView {
        match self {
            Failure::MissingValue(flag) => FailureView::MissingValue(flag@),
            Failure::NoInput => FailureView::NoInput,
            Failure::MultipleInputs => FailureView::MultipleInputs,
            Failure::Undetectable => FailureView::Undetectable,
            Failure::Open(path, reason) => FailureView::Open(path@, reason@),
            Failure::Read(reason) => FailureView::Read(reason@),
            Failure::Create(reason) => FailureView::Create(reason@),
            Failure::Write(reason) => FailureView::Write(reason@),
            Failure::Transport(reason) => FailureView::Transport(reason@),
            Failure::Decode(reason) => FailureView::Decode(reason@),
        }
    }
}

impl FailureView {
    /// The family that the failure belongs to.
    pub open spec fn kind(self) -> FailureKind {
        match self {
            FailureView::MissingValue(_) => FailureKind::Usage,
            FailureView::NoInput => FailureKind::Usage,
            FailureView::MultipleInputs => FailureKind::Usage,
            FailureView::Undetectable => FailureKind::Usage,
            FailureView::Open(_, _) => FailureKind::Io,
            FailureView::Read(_) => FailureKind::Io,
            FailureView::Create(_) => FailureKind::Io,
            FailureView::Write(_) => FailureKind::Io,
            FailureView::Transport(_) => FailureKind::Transport,
            FailureView::Decode(_) => FailureKind::Decode,
        }
    }

    /// What the message says before the usage text or the reason.
    pub open spec fn headline(self) -> Seq<char> {
        match self {
            FailureView::MissingValue(flag) => "Missing arg for input data option "@ + flag,
            FailureView::NoInput => "Must specify an input data option"@,
            FailureView::MultipleInputs => "Multiple input data sources is currently not supported"@,
            FailureView::Undetectable => "Unable to detect the type of the input data"@,
            FailureView::Open(path, _) => "Error opening "@ + path,
            FailureView::Read(_) => "Read error"@,
            FailureView::Create(_) => "Unable to create file"@,
            FailureView::Write(_) => "Error writing output"@,
            FailureView::Transport(_) => "Error calling algorithm"@,
            FailureView::Decode(_) => "Response error"@,
        }
    }

    /// The reason that the failure carries, where it carries one.
    pub open spec fn reason(self) -> Option<Seq<char>> {
        match self {
            FailureView::Open(_, reason) => Some(reason),
            FailureView::Read(reason) => Some(reason),
            FailureView::Create(reason) => Some(reason),
            FailureView::Write(reason) => Some(reason),
            FailureView::Transport(reason) => Some(reason),
            FailureView::Decode(reason) => Some(reason),
            _ => None,
        }
    }

    /// The message of the failure: a usage error is followed by the usage text,
    /// every other failure by its reason.
    pub open spec fn message(self) -> Seq<char> {
        match self.reason() {
            Some(reason) => self.headline() + ": "@ + reason,
            None => self.headline() + "\n\n"@ + USAGE@,
        }
    }
}

/// What the system says of a text source that is not UTF-8.
pub const NOT_UTF8: &'static str = "stream did not contain valid UTF-8";

/// The failure that an input error ends the invocation with.
pub open spec fn input_failure(error: InputError) -> FailureView {
    match error {
        InputError::NotUtf8 => FailureView::Read(NOT_UTF8@),
        InputError::Uninspectable => FailureView::Undetectable,
    }
}

impl Failure {
    /// The family that the failure belongs to.
    pub fn kind(&self) -> (kind: FailureKind)
        ensures
            kind == self@.kind(),
    {
        match self {
            Failure::MissingValue(_) => FailureKind::Usage,
            Failure::NoInput => FailureKind::Usage,
            Failure::MultipleInputs => FailureKind::Usage,
            Failure::Undetectable => FailureKind::Usage,
            Failure::Open(_, _) => FailureKind::Io,
            Failure::Read(_) => FailureKind::Io,
            Failure::Create(_) => FailureKind::Io,
            Failure::Write(_) => FailureKind::Io,
            Failure::Transport(_) => FailureKind::Transport,
            Failure::Decode(_) => FailureKind::Decode,
        }
    }

    /// The failure that an input error ends the invocation with.
    pub fn from_input(error: InputError) -> (failure: Failure)
        ensures
            failure@ == input_failure(error),
    {
        match error {
            InputError::NotUtf8 => Failure::Read(String::from_str(NOT_UTF8)),
            InputError::Uninspectable => Failure::Undetectable,
        }
    }

    /// The message that is printed for the failure.
    pub fn message(&self) -> (message: String)
        ensures
            message@ == self@.message(),
    {
        match self {
            Failure::MissingValue(flag) => with_usage(
                join("Missing arg for input data option ", flag.as_str()),
            ),
            Failure::NoInput => with_usage(String::from_str("Must specify an input data option")),
            Failure::MultipleInputs => with_usage(
                String::from_str("Multiple input data sources is currently not supported"),
            ),
            Failure::Undetectable => with_usage(
                String::from_str("Unable to detect the type of the input data"),
            ),
            Failure::Open(path, reason) => with_reason(
                join("Error opening ", path.as_str()),
                reason.as_str(),
            ),
            Failure::Read(reason) => with_reason(String::from_str("Read error"), reason.as_str()),
            Failure::Create(reason) => with_reason(
                String::from_str("Unable to create file"),
                reason.as_str(),
            ),
            Failure::Write(reason) => with_reason(
                String::from_str("Error writing output"),
                reason.as_str(),
            ),
            Failure::Transport(reason) => with_reason(
                String::from_str("Error calling algorithm"),
                reason.as_str(),
            ),
            Failure::Decode(reason) => with_reason(
                String::from_str("Response error"),
                reason.as_str(),
            ),
        }
    }
}

/// `headline`, a blank line and the usage text.
fn with_usage(headline: String) -> (message: String)
    ensures
        message@ == headline@ + "\n\n"@ + USAGE@,
{
    headline.concat("\n\n").concat(USAGE)
}

/// `headline`, a colon and `reason`.
fn with_reason(headline: String, reason: &str) -> (message: String)
    ensures
        message@ == headline@ + ": "@ + reason@,
{
    headline.concat(": ").concat(reason)
}

} // verus!
