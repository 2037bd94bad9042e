//! What is shown of a response, and where.
//!
//! The result or the response goes to the output device. Alerts go to the
//! diagnostics stream; what the algorithm printed and the summary of the
//! metadata go to the primary stream.

use crate::args::Args;
use crate::failure::{Failure, FailureView};
use crate::output::{OutputDevice, NEWLINE};
use crate::text::join;
use vstd::prelude::*;
use vstd::string::StringSliceAdditionalSpecFns;
use vstd::utf8::encode_utf8;

verus! {

/// How a response is shown.
#[derive(Clone, Copy, Debug, PartialEq, Eq, Structural)]
pub enum RenderMode {
    /// Status line, headers and body, as they came.
    FullResponse,
    /// The body, as it came.
    BodyOnly,
    /// The result that the body holds.
    Decoded,
}

/// The mode that the flags ask for: the whole response before the body alone,
/// and either before the result.
pub open spec fn mode_of(response: bool, response_body: bool) -> RenderMode {
    if response {
        RenderMode::FullResponse
    } else if response_body {
        RenderMode::BodyOnly
    } else {
        RenderMode::Decoded
    }
}

impl RenderMode {
    /// The mode that `args` asks for.
    pub fn of(args: &Args) -> (mode: RenderMode)
        ensures
            mode == mode_of(args.flag_response, args.flag_response_body),
    {
        if args.flag_response {
            RenderMode::FullResponse
        } else if args.flag_response_body {
            RenderMode::BodyOnly
        } else {
            RenderMode::Decoded
        }
    }
}

/// A response as it came over the wire.
#[derive(Debug, PartialEq, Eq)]
pub struct RawResponse {
    /// The protocol version, as in `HTTP/1.1`.
    pub version: String,
    /// The status, as in `200 OK`.
    pub status: String,
    /// The header block, each header on a line of its own.
    pub headers: String,
    pub body: String,
}

/// What a `RawResponse` holds, as mathematical sequences.
pub struct RawResponseView {
    pub version: Seq<char>,
    pub status: Seq<char>,
    pub headers: Seq<char>,
    pub body: Seq<char>,
}

impl View for RawResponse {
    type V = RawResponseView;

    open spec fn view(&self) -> RawResponseView {
        RawResponseView {
            version: self.version@,
            status: self.status@,
            headers: self.headers@,
            body: self.body@,
        }
    }
}

/// The result of an algorithm.
#[derive(Debug, PartialEq, Eq)]
pub enum AlgoOutput {
    /// A JSON value, in its canonical written form.
    Json(String),
    Text(String),
    Binary(Vec<u8>),
}

/// What an `AlgoOutput` holds, as mathematical sequences.
pub enum AlgoOutputView {
    Json(Seq<char>),
    Text(Seq<char>),
    Binary(Seq<u8>),
}

impl View for AlgoOutput {
    type V = AlgoOutputView;

    open spec fn view(&self) -> AlgoOutputView {
        match self {
            AlgoOutput::Json(text) => AlgoOutputView::Json(text@),
            AlgoOutput::Text(text) => AlgoOutputView::Text(text@),
            AlgoOutput::Binary(bytes) => AlgoOutputView::Binary(bytes@),
        }
    }
}

/// What a response says about the call.
#[derive(Debug, PartialEq, Eq)]
pub struct AlgoMetadata {
    /// The time the call took, in seconds, written with one decimal.
    pub duration: String,
    /// What the algorithm printed, where that was asked for and allowed.
    pub stdout: Option<String>,
    /// Advisory messages.
    pub alerts: Option<Vec<String>>,
}

/// What an `AlgoMetadata` holds, as mathematical sequences.
pub struct AlgoMetadataView {
    pub duration: Seq<char>,
    pub stdout: Option<Seq<char>>,
    pub alerts: Option<Seq<Seq<char>>>,
}

impl View for AlgoMetadata {
    type V = AlgoMetadataView;

    open spec fn view(&self) -> AlgoMetadataView {
        AlgoMetadataView {
            duration: self.duration@,
            stdout: self.stdout.deep_view(),
            alerts: self.alerts.deep_view(),
        }
    }
}

/// A response body, decoded.
#[derive(Debug, PartialEq, Eq)]
pub struct AlgoResponse {
    pub metadata: AlgoMetadata,
    pub result: AlgoOutput,
}

/// What an `AlgoResponse` holds, as mathematical values.
pub struct AlgoResponseView {
    pub metadata: AlgoMetadataView,
    pub result: AlgoOutputView,
}

impl View for AlgoResponse {
    type V = AlgoResponseView;

    open spec fn view(&self) -> AlgoResponseView {
        AlgoResponseView { metadata: self.metadata@, result: self.result@ }
    }
}

/// The two streams that notices are printed to.
#[derive(Clone, Copy, Debug, PartialEq, Eq, Structural)]
pub enum Stream {
    Diagnostics,
    Primary,
}

/// A text to print to one of the streams, as it is: a line holds its newline.
#[derive(Debug, PartialEq, Eq)]
pub struct Notice {
    pub stream: Stream,
    pub text: String,
}

/// What a `Notice` holds, as mathematical values.
pub struct NoticeView {
    pub stream: Stream,
    pub text: Seq<char>,
}

impl View for Notice {
    type V = NoticeView;

    open spec fn view(&self) -> NoticeView {
        NoticeView { stream: self.stream, text: self.text@ }
    }
}

impl DeepView for Notice {
    type V = NoticeView;

    open spec fn deep_view(&self) -> NoticeView {
        self@
    }
}

/// The line before the body of a whole response: version and status, then the
/// header block on the next line.
pub open spec fn preamble(raw: RawResponseView) -> Seq<char> {
    raw.version + " "@ + raw.status + "\n"@ + raw.headers
}

/// The bytes that go to the output device where the response is shown as it
/// came: the body as a line, after the preamble as a line where the whole
/// response is asked for.
pub open spec fn raw_output(whole: bool, raw: RawResponseView) -> Seq<u8> {
    if whole {
        encode_utf8(preamble(raw)) + seq![NEWLINE] + encode_utf8(raw.body) + seq![NEWLINE]
    } else {
        encode_utf8(raw.body) + seq![NEWLINE]
    }
}

/// The bytes that go to the output device for a result: JSON and text as a
/// line, bytes as they are, with nothing after them.
pub open spec fn result_output(result: AlgoOutputView) -> Seq<u8> {
    match result {
        AlgoOutputView::Json(text) => encode_utf8(text) + seq![NEWLINE],
        AlgoOutputView::Text(text) => encode_utf8(text) + seq![NEWLINE],
        AlgoOutputView::Binary(bytes) => bytes,
    }
}

/// One line on the diagnostics stream for each alert, in their order.
pub open spec fn alert_lines(alerts: Seq<Seq<char>>) -> Seq<NoticeView> {
    Seq::new(
        alerts.len(),
        |i: int| NoticeView { stream: Stream::Diagnostics, text: alerts[i] + "\n"@ },
    )
}

/// The alerts that are shown: all of them, unless silence is asked for.
pub open spec fn alert_notices(silence: bool, alerts: Option<Seq<Seq<char>>>) -> Seq<NoticeView> {
    match alerts {
        Some(alerts) if !silence => alert_lines(alerts),
        _ => Seq::empty(),
    }
}

/// What the algorithm printed, shown as it is where `--debug` asks for it.
pub open spec fn stdout_notices(debug: bool, stdout: Option<Seq<char>>) -> Seq<NoticeView> {
    match stdout {
        Some(text) if debug => seq![NoticeView { stream: Stream::Primary, text }],
        _ => Seq::empty(),
    }
}

/// Whether the summary of the metadata is shown: where it is asked for, and
/// where the result goes to a file and silence is not asked for.
pub open spec fn shows_summary(meta: bool, to_file: bool, silence: bool) -> bool {
    meta || (to_file && !silence)
}

/// The line that sums up the metadata.
pub open spec fn summary_line(duration: Seq<char>) -> Seq<char> {
    "Completed in "@ + duration + " seconds\n"@
}

/// The summary of the metadata, where it is shown.
pub open spec fn summary_notices(shown: bool, duration: Seq<char>) -> Seq<NoticeView> {
    if shown {
        seq![NoticeView { stream: Stream::Primary, text: summary_line(duration) }]
    } else {
        Seq::empty()
    }
}

/// Everything that is printed beside the result, in the order it is printed:
/// the alerts, what the algorithm printed, the summary.
pub open spec fn notices_of(args: Args, metadata: AlgoMetadataView) -> Seq<NoticeView> {
    alert_notices(args.flag_silence, metadata.alerts) + stdout_notices(
        args.flag_debug,
        metadata.stdout,
    ) + summary_notices(
        shows_summary(args.flag_meta, args.flag_output is Some, args.flag_silence),
        metadata.duration,
    )
}

/// Writes a response to `output` as it came: the body, and before it the
/// preamble where the `whole` response is asked for. The body is not decoded.
pub fn render_raw(whole: bool, raw: &RawResponse, output: &mut OutputDevice)
    ensures
        final(output)@ == old(output)@ + raw_output(whole, raw@),
        final(output).path() == old(output).path(),
{
    if whole {
        let line = join(raw.version.as_str(), " ").concat(raw.status.as_str()).concat("\n").concat(
            raw.headers.as_str(),
        );
        output.writeln(line.as_str().as_bytes());
    }
    output.writeln(raw.body.as_str().as_bytes());
    assert(output@ =~= old(output)@ + raw_output(whole, raw@));
}

/// Writes a result to `output`: JSON and text as a line, bytes as they are.
pub fn render_result(result: &AlgoOutput, output: &mut OutputDevice)
    ensures
        final(output)@ == old(output)@ + result_output(result@),
        final(output).path() == old(output).path(),
{
    match result {
        AlgoOutput::Json(text) => output.writeln(text.as_str().as_bytes()),
        AlgoOutput::Text(text) => output.writeln(text.as_str().as_bytes()),
        AlgoOutput::Binary(bytes) => output.write(bytes.as_slice()),
    }
}

/// The alerts, one line each.
pub fn alert_lines_of(alerts: &Vec<String>) -> (notices: Vec<Notice>)
    ensures
        notices.deep_view() == alert_lines(alerts.deep_view()),
{
    let mut notices: Vec<Notice> = Vec::new();
    let mut i: usize = 0;
    while i < alerts.len()
        invariant
            i <= alerts.len(),
            notices.deep_view() =~= alert_lines(alerts.deep_view().take(i as int)),
        decreases alerts.len() - i,
    {
        let ghost before = notices.deep_view();
        let notice = Notice { stream: Stream::Diagnostics, text: join(alerts[i].as_str(), "\n") };
        notices.push(notice);
        assert(notices.deep_view() =~= before.push(notice@));
        i = i + 1;
    }
    assert(alerts.deep_view().take(alerts.len() as int) =~= alerts.deep_view());
    notices
}

/// Everything that is printed beside the result, in the order it is printed.
pub fn notices(args: &Args, metadata: &AlgoMetadata) -> (notices: Vec<Notice>)
    ensures
        notices.deep_view() == notices_of(*args, metadata@),
{
    let mut notices: Vec<Notice> = match &metadata.alerts {
        Some(alerts) if !args.flag_silence => alert_lines_of(alerts),
        _ => Vec::new(),
    };
    assert(notices.deep_view() =~= alert_notices(args.flag_silence, metadata@.alerts));
    let ghost alerts_shown = notices.deep_view();
    if let Some(text) = &metadata.stdout {
        if args.flag_debug {
            notices.push(Notice { stream: Stream::Primary, text: text.clone() });
        }
    }
    assert(notices.deep_view() =~= alerts_shown + stdout_notices(
        args.flag_debug,
        metadata@.stdout,
    ));
    let ghost printed_shown = notices.deep_view();
    if args.flag_meta || (args.flag_output.is_some() && !args.flag_silence) {
        let line = join("Completed in ", metadata.duration.as_str()).concat(" seconds\n");
        notices.push(Notice { stream: Stream::Primary, text: line });
    }
    assert(notices.deep_view() =~= printed_shown + summary_notices(
        shows_summary(args.flag_meta, args.flag_output is Some, args.flag_silence),
        metadata@.duration,
    ));
    notices
}

/// Shows a decoded response: writes its result to `output` and returns what is
/// printed before it.
pub fn render_decoded(args: &Args, response: &AlgoResponse, output: &mut OutputDevice) -> (notices:
    Vec<Notice>)
    ensures
        notices.deep_view() == notices_of(*args, response@.metadata),
        final(output)@ == old(output)@ + result_output(response@.result),
        final(output).path() == old(output).path(),
{
    let notices = notices(args, &response.metadata);
    render_result(&response.result, output);
    notices
}

/// What is left to do once a response has come.
#[derive(Clone, Copy, Debug, PartialEq, Eq, Structural)]
pub enum RenderStep {
    /// The response is written; nothing is left.
    Finished,
    /// The body is to be decoded, and the result shown.
    Decode,
}

/// Begins to show a response. Where the flags ask for the response as it came,
/// it is written to `output` and nothing is left to do: the body is not to be
/// decoded. Otherwise nothing is written yet, and the body is to be decoded.
pub fn begin_render(args: &Args, raw: &RawResponse, output: &mut OutputDevice) -> (step: RenderStep)
    ensures
        step == if mode_of(args.flag_response, args.flag_response_body) == RenderMode::Decoded {
            RenderStep::Decode
        } else {
            RenderStep::Finished
        },
        final(output)@ == if step == RenderStep::Decode {
            old(output)@
        } else {
            old(output)@ + raw_output(args.flag_response, raw@)
        },
        final(output).path() == old(output).path(),
{
    match RenderMode::of(args) {
        RenderMode::Decoded => RenderStep::Decode,
        RenderMode::FullResponse => {
            render_raw(true, raw, output);
            RenderStep::Finished
        },
        RenderMode::BodyOnly => {
            render_raw(false, raw, output);
            RenderStep::Finished
        },
    }
}

/// What the notices of a finished rendering hold, as mathematical values.
pub open spec fn shown_view(shown: Result<Vec<Notice>, Failure>) -> Result<
    Seq<NoticeView>,
    FailureView,
> {
    match shown {
        Ok(notices) => Ok(notices.deep_view()),
        Err(failure) => Err(failure@),
    }
}

/// What is printed once the body has been decoded: the notices of the response,
/// or the failure that holds the reason why the body is no response.
pub open spec fn shown_of(args: Args, decoded: Result<AlgoResponse, String>) -> Result<
    Seq<NoticeView>,
    FailureView,
> {
    match decoded {
        Ok(response) => Ok(notices_of(args, response@.metadata)),
        Err(reason) => Err(FailureView::Decode(reason@)),
    }
}

/// What is written to the output device once the body has been decoded: the
/// result, or nothing where the body is no response.
pub open spec fn written_of(decoded: Result<AlgoResponse, String>) -> Seq<u8> {
    match decoded {
        Ok(response) => result_output(response@.result),
        Err(_) => Seq::empty(),
    }
}

/// Shows the outcome of decoding the body. A body that is no response is a
/// failure of its own kind, and nothing is written for it.
pub fn finish_render(
    args: &Args,
    decoded: Result<AlgoResponse, String>,
    output: &mut OutputDevice,
) -> (shown: Result<Vec<Notice>, Failure>)
    ensures
        shown_view(shown) == shown_of(*args, decoded),
        final(output)@ == old(output)@ + written_of(decoded),
        final(output).path() == old(output).path(),
{
    match decoded {
        Ok(response) => Ok(render_decoded(args, &response, output)),
        Err(reason) => {
            assert(output@ =~= old(output)@ + Seq::<u8>::empty());
            Err(Failure::Decode(reason))
        },
    }
}

/// A binary result is written as it is, with nothing after it; a textual
/// result is written as its UTF-8 bytes and exactly one newline after them.
pub proof fn newline_follows_text_only(result: AlgoOutputView)
    ensures
        match result {
            AlgoOutputView::Binary(bytes) => result_output(result) == bytes,
            AlgoOutputView::Json(text) | AlgoOutputView::Text(text) => {
                &&& result_output(result).len() == encode_utf8(text).len() + 1
                &&& result_output(result).last() == NEWLINE
                &&& result_output(result).drop_last() == encode_utf8(text)
            },
        },
{
    match result {
        AlgoOutputView::Binary(_) => {},
        AlgoOutputView::Json(text) | AlgoOutputView::Text(text) => {
            assert(result_output(result).drop_last() =~= encode_utf8(text));
        },
    }
}

} // verus!
