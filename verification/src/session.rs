//! One invocation, step by step.
//!
//! The library decides and the caller acts. Every step returns what the caller
//! has to do next, together with the state that takes the outcome of doing it:
//! read a source, parse the remaining arguments, open the output, make the
//! call, decode the body, and at last print and write, or give up.

use crate::args::Args;
use crate::dispatch::{Request, RequestView};
use crate::failure::{input_failure, Failure, FailureView};
use crate::flags::{
    input_flag, scan, scan_args, scan_continues, scan_of_one_option, scan_without_input_options,
    scanned, InputKind, InputRequest, InputRequestView, InputSource, SourceView,
};
use crate::input::{payload_of_bytes, payload_of_literal, InputData, Payload};
use crate::output::OutputDevice;
use crate::render::{
    begin_render, finish_render, mode_of, notices_of, raw_output, result_output, AlgoResponse,
    AlgoResponseView, Notice, NoticeView, RawResponse, RawResponseView, RenderMode, RenderStep,
};
use crate::run::{plan_request, planned};
use crate::text::copy_of;
use vstd::prelude::*;

verus! {

/// A source is being read. The input options after it wait for their turn.
#[derive(Debug, PartialEq, Eq)]
pub struct Gathering {
    kind: InputKind,
    waiting: Vec<InputRequest>,
    inputs: Vec<InputData>,
    others: Vec<String>,
}

/// The inputs are gathered. The remaining arguments are being parsed.
#[derive(Debug, PartialEq, Eq)]
pub struct Parsing {
    inputs: Vec<InputData>,
}

/// The call is decided. The output is being opened.
#[derive(Debug, PartialEq, Eq)]
pub struct Opening {
    args: Args,
    request: Request,
}

/// The call is being made.
#[derive(Debug, PartialEq, Eq)]
pub struct Calling {
    args: Args,
}

/// The body of the response is being decoded.
#[derive(Debug, PartialEq, Eq)]
pub struct Decoding {
    args: Args,
}

/// What the caller has to do next, and the state that takes the outcome.
#[derive(Debug, PartialEq, Eq)]
pub enum Next {
    /// Read this file, or standard input, to its end.
    Read(Gathering, InputSource),
    /// Parse these arguments against the usage text.
    Parse(Parsing, Vec<String>),
    /// Create the file of this path, empty, or take standard output.
    Open(Opening, Option<String>),
    /// Make this call.
    Call(Calling, Request),
    /// Decode this body.
    Decode(Decoding, String),
    /// Print these notices, write these bytes to the output, and end well.
    Finish(Vec<Notice>, Vec<u8>),
    /// Print the message of this failure and end badly.
    Abort(Failure),
}

/// What a `Gathering` holds: the type asked of the source that is being read,
/// the input options still to come, the payloads made so far, and the
/// arguments that are no input options.
pub struct GatheringView {
    pub kind: InputKind,
    pub waiting: Seq<InputRequestView>,
    pub inputs: Seq<Payload>,
    pub others: Seq<Seq<char>>,
}

/// What a `Parsing` holds: the payloads of the input options, in their order.
pub struct ParsingView {
    pub inputs: Seq<Payload>,
}

/// What an `Opening` holds: the parsed arguments and the call to make.
pub struct OpeningView {
    pub args: Args,
    pub request: RequestView,
}

/// What a `Next` holds, as mathematical values.
pub enum NextView {
    Read(GatheringView, SourceView),
    Parse(ParsingView, Seq<Seq<char>>),
    Open(OpeningView, Option<Seq<char>>),
    Call(Args, RequestView),
    Decode(Args, Seq<char>),
    Finish(Seq<NoticeView>, Seq<u8>),
    Abort(FailureView),
}

impl View for Gathering {
    type V = GatheringView;

    closed spec fn view(&self) -> GatheringView {
        GatheringView {
            kind: self.kind,
            waiting: self.waiting.deep_view(),
            inputs: self.inputs.deep_view(),
            others: self.others.deep_view(),
        }
    }
}

impl View for Parsing {
    type V = ParsingView;

    closed spec fn view(&self) -> ParsingView {
        ParsingView { inputs: self.inputs.deep_view() }
    }
}

impl View for Opening {
    type V = OpeningView;

    closed spec fn view(&self) -> OpeningView {
        OpeningView { args: self.args, request: self.request@ }
    }
}

impl View for Calling {
    type V = Args;

    closed spec fn view(&self) -> Args {
        self.args
    }
}

impl View for Decoding {
    type V = Args;

    closed spec fn view(&self) -> Args {
        self.args
    }
}

impl View for Next {
    type V = NextView;

    open spec fn view(&self) -> NextView {
        match self {
            Next::Read(state, source) => NextView::Read(state@, source@),
            Next::Parse(state, others) => NextView::Parse(state@, others.deep_view()),
            Next::Open(state, path) => NextView::Open(state@, path.deep_view()),
            Next::Call(state, request) => NextView::Call(state@, request@),
            Next::Decode(state, body) => NextView::Decode(state@, body@),
            Next::Finish(notices, output) => NextView::Finish(notices.deep_view(), output@),
            Next::Abort(failure) => NextView::Abort(failure@),
        }
    }
}

/// The status that the process leaves with after a step that ends the
/// invocation: zero after the last step, and not zero after a failure.
pub open spec fn exit_code_of(next: NextView) -> Option<i32> {
    match next {
        NextView::Finish(_, _) => Some(0i32),
        NextView::Abort(_) => Some(1i32),
        _ => None,
    }
}

impl Next {
    /// The status that the process leaves with, where this step ends the
    /// invocation.
    pub fn exit_code(&self) -> (code: Option<i32>)
        ensures
            code == exit_code_of(self@),
    {
        match self {
            Next::Finish(_, _) => Some(0),
            Next::Abort(_) => Some(1),
            _ => None,
        }
    }
}

/// What an outcome that the caller reports holds, as mathematical values.
pub open spec fn report_view<T: View>(report: Result<T, Failure>) -> Result<T::V, FailureView> {
    match report {
        Ok(value) => Ok(value@),
        Err(failure) => Err(failure@),
    }
}

/// The step once the input options `waiting` are the ones still to come. Data
/// given on the command line is made into its payload at once; the first
/// option that names a file or standard input is read next; and with no
/// option left, the remaining arguments are parsed. An input that cannot be
/// made into its payload ends the invocation.
pub open spec fn gathered(
    waiting: Seq<InputRequestView>,
    inputs: Seq<Payload>,
    others: Seq<Seq<char>>,
) -> NextView
    decreases waiting.len(),
{
    if waiting.len() == 0 {
        NextView::Parse(ParsingView { inputs }, others)
    } else {
        match waiting[0].source {
            SourceView::Literal(data) => match payload_of_literal(waiting[0].kind, data) {
                Ok(payload) => gathered(waiting.drop_first(), inputs.push(payload), others),
                Err(error) => NextView::Abort(input_failure(error)),
            },
            source => NextView::Read(
                GatheringView {
                    kind: waiting[0].kind,
                    waiting: waiting.drop_first(),
                    inputs,
                    others,
                },
                source,
            ),
        }
    }
}

/// The first step of an invocation with the arguments `argv`.
pub open spec fn begun(argv: Seq<Seq<char>>) -> NextView {
    match scanned(argv) {
        Ok(found) => gathered(found.inputs, Seq::empty(), found.others),
        Err(failure) => NextView::Abort(failure),
    }
}

/// The step after a source was read, or could not be.
pub open spec fn after_read(state: GatheringView, read: Result<Seq<u8>, FailureView>) -> NextView {
    match read {
        Ok(bytes) => match payload_of_bytes(state.kind, bytes) {
            Ok(payload) => gathered(state.waiting, state.inputs.push(payload), state.others),
            Err(error) => NextView::Abort(input_failure(error)),
        },
        Err(failure) => NextView::Abort(failure),
    }
}

/// The step after the remaining arguments were parsed: the output is opened for
/// the one call that is planned, and without exactly one input there is none.
pub open spec fn after_parse(state: ParsingView, args: Args) -> NextView {
    match planned(args, state.inputs) {
        Ok(request) => NextView::Open(OpeningView { args, request }, args.flag_output.deep_view()),
        Err(failure) => NextView::Abort(failure),
    }
}

/// The step after the output was opened, or could not be.
pub open spec fn after_open(state: OpeningView, opened: Result<(), FailureView>) -> NextView {
    match opened {
        Ok(_) => NextView::Call(state.args, state.request),
        Err(failure) => NextView::Abort(failure),
    }
}

/// The step after the call returned, or failed. A response that is shown as it
/// came is written at once, and its body is never decoded.
pub open spec fn after_call(args: Args, response: Result<RawResponseView, FailureView>) -> NextView {
    match response {
        Ok(raw) => if mode_of(args.flag_response, args.flag_response_body) == RenderMode::Decoded {
            NextView::Decode(args, raw.body)
        } else {
            NextView::Finish(Seq::empty(), raw_output(args.flag_response, raw))
        },
        Err(failure) => NextView::Abort(failure),
    }
}

/// The last step, after the body was decoded, or could not be.
pub open spec fn after_decode(args: Args, decoded: Result<AlgoResponseView, Seq<char>>) -> NextView {
    match decoded {
        Ok(response) => NextView::Finish(
            notices_of(args, response.metadata),
            result_output(response.result),
        ),
        Err(reason) => NextView::Abort(FailureView::Decode(reason)),
    }
}

/// Goes through the input options that are still to come.
fn gather(waiting: Vec<InputRequest>, inputs: Vec<InputData>, others: Vec<String>) -> (next: Next)
    ensures
        next@ == gathered(waiting.deep_view(), inputs.deep_view(), others.deep_view()),
{
    let mut rest = waiting;
    let mut made = inputs;
    while rest.len() > 0
        invariant
            gathered(rest.deep_view(), made.deep_view(), others.deep_view()) == gathered(
                waiting.deep_view(),
                inputs.deep_view(),
                others.deep_view(),
            ),
        decreases rest.len(),
    {
        let ghost rest_before = rest.deep_view();
        let ghost made_before = made.deep_view();
        let request = rest.remove(0);
        let kind = request.kind;
        let source = request.source;
        assert(rest.deep_view() =~= rest_before.drop_first());
        assert(rest_before[0] == (InputRequestView { kind, source: source@ }));
        match source {
            InputSource::Literal(data) => match InputData::from_literal(kind, data) {
                Ok(payload) => {
                    made.push(payload);
                    assert(made.deep_view() =~= made_before.push(payload@));
                },
                Err(error) => {
                    return Next::Abort(Failure::from_input(error));
                },
            },
            InputSource::File(path) => {
                return Next::Read(
                    Gathering { kind, waiting: rest, inputs: made, others },
                    InputSource::File(path),
                );
            },
            InputSource::Stdin => {
                return Next::Read(
                    Gathering { kind, waiting: rest, inputs: made, others },
                    InputSource::Stdin,
                );
            },
        }
    }
    Next::Parse(Parsing { inputs: made }, others)
}

/// Begins an invocation with the arguments `argv`.
pub fn begin(argv: &Vec<String>) -> (next: Next)
    ensures
        next@ == begun(argv.deep_view()),
{
    match scan_args(argv) {
        Ok(found) => {
            let inputs: Vec<InputData> = Vec::new();
            assert(inputs.deep_view() =~= Seq::<Payload>::empty());
            gather(found.inputs, inputs, found.others)
        },
        Err(failure) => Next::Abort(failure),
    }
}

impl Gathering {
    /// Takes the bytes of the source that was to be read, or the failure to
    /// open or to read it.
    pub fn supply(self, read: Result<Vec<u8>, Failure>) -> (next: Next)
        ensures
            next@ == after_read(self@, report_view(read)),
    {
        match read {
            Ok(bytes) => match InputData::from_bytes(self.kind, bytes) {
                Ok(payload) => {
                    let ghost inputs_before = self.inputs.deep_view();
                    let mut inputs = self.inputs;
                    inputs.push(payload);
                    assert(inputs.deep_view() =~= inputs_before.push(payload@));
                    gather(self.waiting, inputs, self.others)
                },
                Err(error) => Next::Abort(Failure::from_input(error)),
            },
            Err(failure) => Next::Abort(failure),
        }
    }
}

impl Parsing {
    /// Takes the remaining arguments as they were parsed.
    pub fn parsed(self, args: Args) -> (next: Next)
        ensures
            next@ == after_parse(self@, args),
    {
        match plan_request(&args, self.inputs) {
            Ok(request) => {
                let path = copy_of(&args.flag_output);
                Next::Open(Opening { args, request }, path)
            },
            Err(failure) => Next::Abort(failure),
        }
    }
}

impl Opening {
    /// Takes the news that the output is open, or the failure to create it.
    pub fn opened(self, opened: Result<(), Failure>) -> (next: Next)
        ensures
            next@ == after_open(self@, report_view(opened)),
    {
        match opened {
            Ok(_) => Next::Call(Calling { args: self.args }, self.request),
            Err(failure) => Next::Abort(failure),
        }
    }
}

impl Calling {
    /// Takes the response, or the failure of the call.
    pub fn responded(self, response: Result<RawResponse, Failure>) -> (next: Next)
        ensures
            next@ == after_call(self@, report_view(response)),
    {
        match response {
            Ok(raw) => {
                let mut output = OutputDevice::new(&self.args.flag_output);
                match begin_render(&self.args, &raw, &mut output) {
                    RenderStep::Finished => {
                        let notices: Vec<Notice> = Vec::new();
                        let written = output.take();
                        assert(notices.deep_view() =~= Seq::<NoticeView>::empty());
                        assert(written@ =~= raw_output(self.args.flag_response, raw@));
                        Next::Finish(notices, written)
                    },
                    RenderStep::Decode => Next::Decode(Decoding { args: self.args }, raw.body),
                }
            },
            Err(failure) => Next::Abort(failure),
        }
    }
}

impl Decoding {
    /// Takes the decoded body, or the reason why it is no response.
    pub fn decoded(self, decoded: Result<AlgoResponse, String>) -> (next: Next)
        ensures
            next@ == after_decode(
                self@,
                match decoded {
                    Ok(response) => Ok(response@),
                    Err(reason) => Err(reason@),
                },
            ),
    {
        let mut output = OutputDevice::new(&self.args.flag_output);
        match finish_render(&self.args, decoded, &mut output) {
            Ok(notices) => {
                let written = output.take();
                assert(written@ =~= result_output(decoded->Ok_0@.result));
                Next::Finish(notices, written)
            },
            Err(failure) => Next::Abort(failure),
        }
    }
}

/// Gathering loses no input and adds none: when the remaining arguments are to
/// be parsed, or a source is to be read, every input option that was waiting
/// is accounted for.
pub proof fn gathering_keeps_every_input(
    waiting: Seq<InputRequestView>,
    inputs: Seq<Payload>,
    others: Seq<Seq<char>>,
)
    ensures
        match gathered(waiting, inputs, others) {
            NextView::Parse(state, rest) => state.inputs.len() == inputs.len() + waiting.len()
                && rest == others,
            NextView::Read(state, _) => state.inputs.len() + 1 + state.waiting.len()
                == inputs.len() + waiting.len(),
            NextView::Abort(failure) => failure is Read || failure is Undetectable,
            _ => false,
        },
    decreases waiting.len(),
{
    if waiting.len() > 0 {
        match waiting[0].source {
            SourceView::Literal(data) => match payload_of_literal(waiting[0].kind, data) {
                Ok(payload) => {
                    gathering_keeps_every_input(
                        waiting.drop_first(),
                        inputs.push(payload),
                        others,
                    );
                },
                Err(_) => {},
            },
            _ => {},
        }
    }
}

/// Reading a source loses no input and adds none: the payload of what was read
/// is one more input, and the options that were waiting are gathered as ever.
pub proof fn reading_keeps_every_input(state: GatheringView, read: Result<Seq<u8>, FailureView>)
    ensures
        match after_read(state, read) {
            NextView::Parse(parsing, rest) => parsing.inputs.len() == state.inputs.len() + 1
                + state.waiting.len() && rest == state.others,
            NextView::Read(gathering, _) => gathering.inputs.len() + 1 + gathering.waiting.len()
                == state.inputs.len() + 1 + state.waiting.len(),
            NextView::Abort(_) => true,
            _ => false,
        },
{
    match read {
        Ok(bytes) => match payload_of_bytes(state.kind, bytes) {
            Ok(payload) => {
                gathering_keeps_every_input(
                    state.waiting,
                    state.inputs.push(payload),
                    state.others,
                );
            },
            Err(_) => {},
        },
        Err(_) => {},
    }
}

/// A call is made for exactly one input. With none, and with more than one,
/// the invocation ends in a usage error before the output is opened and before
/// anything is sent.
pub proof fn call_needs_exactly_one_input(state: ParsingView, args: Args)
    ensures
        state.inputs.len() == 0 ==> after_parse(state, args) == NextView::Abort(
            FailureView::NoInput,
        ),
        state.inputs.len() > 1 ==> after_parse(state, args) == NextView::Abort(
            FailureView::MultipleInputs,
        ),
        state.inputs.len() == 1 <==> after_parse(state, args) is Open,
{
}

/// Without an input option among the arguments, the invocation goes straight
/// to parsing them, all of them, and ends there in a usage error.
pub proof fn no_input_option_no_call(argv: Seq<Seq<char>>, args: Args)
    requires
        forall|i: int| 0 <= i < argv.len() ==> input_flag(#[trigger] argv[i]) is None,
    ensures
        begun(argv) == NextView::Parse(ParsingView { inputs: Seq::empty() }, argv),
        after_parse(ParsingView { inputs: Seq::empty() }, args) == NextView::Abort(
            FailureView::NoInput,
        ),
{
    scan_without_input_options(argv);
}

/// A response that is shown as it came is finished when it arrives: what is
/// written is the response, nothing is printed beside it, and no body is
/// handed out to be decoded.
pub proof fn response_as_it_came_is_not_decoded(args: Args, raw: RawResponseView)
    requires
        args.flag_response || args.flag_response_body,
    ensures
        after_call(args, Ok(raw)) == NextView::Finish(
            Seq::empty(),
            raw_output(args.flag_response, raw),
        ),
{
}

/// With two input options among the arguments there is no call. Wherever the two
/// stand, each in the place of an option and followed by its value, the first
/// step accounts for at least two inputs; and where it goes on to parse the
/// remaining arguments, the invocation ends there in the usage error that
/// refuses to choose among the inputs.
pub proof fn two_input_options_no_call(
    args: Args,
    before: Seq<Seq<char>>,
    first: Seq<char>,
    first_value: Seq<char>,
    between: Seq<Seq<char>>,
    second: Seq<char>,
    second_value: Seq<char>,
    after: Seq<Seq<char>>,
)
    requires
        scan(before).pending is None,
        scan(between).pending is None,
        input_flag(first) is Some,
        input_flag(second) is Some,
    ensures
        match begun(
            before + seq![first, first_value] + between + seq![second, second_value] + after,
        ) {
            NextView::Parse(state, _) => after_parse(state, args) == NextView::Abort(
                FailureView::MultipleInputs,
            ),
            NextView::Read(state, _) => state.inputs.len() + 1 + state.waiting.len() >= 2,
            NextView::Abort(_) => true,
            _ => false,
        },
{
    let one = seq![first, first_value];
    let two = seq![second, second_value];
    let argv = before + one + between + two + after;
    scan_of_one_option(first, first_value);
    scan_of_one_option(second, second_value);
    scan_continues(before, one);
    scan_continues(before + one, between);
    scan_continues(before + one + between, two);
    scan_continues(before + one + between + two, after);
    assert(scan(argv).found.inputs.len() >= 2);
    match scanned(argv) {
        Ok(found) => {
            gathering_keeps_every_input(found.inputs, Seq::empty(), found.others);
        },
        Err(_) => {},
    }
}

/// Whatever fails ends the invocation, and with that failure: no step is tried
/// again and none comes after.
pub proof fn failure_ends_the_invocation(
    gathering: GatheringView,
    opening: OpeningView,
    args: Args,
    failure: FailureView,
    reason: Seq<char>,
)
    ensures
        after_read(gathering, Err(failure)) == NextView::Abort(failure),
        after_open(opening, Err(failure)) == NextView::Abort(failure),
        after_call(args, Err(failure)) == NextView::Abort(failure),
        after_decode(args, Err(reason)) == NextView::Abort(FailureView::Decode(reason)),
        exit_code_of(NextView::Abort(failure)) == Some(1i32),
{
}

} // verus!
