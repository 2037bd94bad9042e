//! The input options of the command line.
//!
//! Eight options select the input; each takes a value, and exactly one of them
//! may be given. They are taken out of the argument list before anything else
//! reads it.

use crate::failure::{Failure, FailureView};
use crate::text::same_text;
use vstd::prelude::*;

verus! {

/// The type that an input option gives to its data.
#[derive(Clone, Copy, Debug, PartialEq, Eq, Structural)]
pub enum InputKind {
    /// The type is detected from the data.
    Auto,
    Json,
    Text,
    Binary,
}

/// One of the eight input options.
#[derive(Clone, Copy, Debug, PartialEq, Eq, Structural)]
pub struct InputFlag {
    pub kind: InputKind,
    /// Whether the value names a file, or is the data itself.
    pub from_file: bool,
}

/// The input option that `arg` spells, if it spells one.
pub open spec fn input_flag(arg: Seq<char>) -> Option<InputFlag> {
    if arg == "-d"@ || arg == "--data"@ {
        Some(InputFlag { kind: InputKind::Auto, from_file: false })
    } else if arg == "-j"@ || arg == "--json"@ {
        Some(InputFlag { kind: InputKind::Json, from_file: false })
    } else if arg == "-t"@ || arg == "--text"@ {
        Some(InputFlag { kind: InputKind::Text, from_file: false })
    } else if arg == "-b"@ || arg == "--binary"@ {
        Some(InputFlag { kind: InputKind::Binary, from_file: false })
    } else if arg == "-D"@ || arg == "--data-file"@ {
        Some(InputFlag { kind: InputKind::Auto, from_file: true })
    } else if arg == "-J"@ || arg == "--json-file"@ {
        Some(InputFlag { kind: InputKind::Json, from_file: true })
    } else if arg == "-T"@ || arg == "--text-file"@ {
        Some(InputFlag { kind: InputKind::Text, from_file: true })
    } else if arg == "-B"@ || arg == "--binary-file"@ {
        Some(InputFlag { kind: InputKind::Binary, from_file: true })
    } else {
        None
    }
}

/// Reads `arg` as an input option.
pub fn parse_input_flag(arg: &str) -> (flag: Option<InputFlag>)
    ensures
        flag == input_flag(arg@),
{
    if same_text(arg, "-d") || same_text(arg, "--data") {
        Some(InputFlag { kind: InputKind::Auto, from_file: false })
    } else if same_text(arg, "-j") || same_text(arg, "--json") {
        Some(InputFlag { kind: InputKind::Json, from_file: false })
    } else if same_text(arg, "-t") || same_text(arg, "--text") {
        Some(InputFlag { kind: InputKind::Text, from_file: false })
    } else if same_text(arg, "-b") || same_text(arg, "--binary") {
        Some(InputFlag { kind: InputKind::Binary, from_file: false })
    } else if same_text(arg, "-D") || same_text(arg, "--data-file") {
        Some(InputFlag { kind: InputKind::Auto, from_file: true })
    } else if same_text(arg, "-J") || same_text(arg, "--json-file") {
        Some(InputFlag { kind: InputKind::Json, from_file: true })
    } else if same_text(arg, "-T") || same_text(arg, "--text-file") {
        Some(InputFlag { kind: InputKind::Text, from_file: true })
    } else if same_text(arg, "-B") || same_text(arg, "--binary-file") {
        Some(InputFlag { kind: InputKind::Binary, from_file: true })
    } else {
        None
    }
}

/// Where the data of an input option is found.
#[derive(Debug, PartialEq, Eq)]
pub enum InputSource {
    /// The value of the option is the data.
    Literal(String),
    /// The data is in the file of this path.
    File(String),
    /// The data is read from standard input, to its end.
    Stdin,
}

/// What an `InputSource` holds, as mathematical sequences.
pub enum SourceView {
    Literal(Seq<char>),
    File(Seq<char>),
    Stdin,
}

impl View for InputSource {
    type V = SourceView;

    open spec fn view(&self) -> SourceView {
        match self {
            InputSource::Literal(data) => SourceView::Literal(data@),
            InputSource::File(path) => SourceView::File(path@),
            InputSource::Stdin => SourceView::Stdin,
        }
    }
}

/// The source that the value of a file option names: `-` is standard input,
/// never a file of that name.
pub open spec fn source_at(path: Seq<char>) -> SourceView {
    if path == "-"@ {
        SourceView::Stdin
    } else {
        SourceView::File(path)
    }
}

/// The source of the data of the option `flag` with the value `value`.
pub open spec fn source_of(flag: InputFlag, value: Seq<char>) -> SourceView {
    if flag.from_file {
        source_at(value)
    } else {
        SourceView::Literal(value)
    }
}

impl InputSource {
    /// The source that the value of a file option names.
    pub fn at(path: String) -> (source: InputSource)
        ensures
            source@ == source_at(path@),
    {
        if same_text(path.as_str(), "-") {
            InputSource::Stdin
        } else {
            InputSource::File(path)
        }
    }

    /// The source of the data of the option `flag` with the value `value`.
    pub fn of(flag: InputFlag, value: String) -> (source: InputSource)
        ensures
            source@ == source_of(flag, value@),
    {
        if flag.from_file {
            InputSource::at(value)
        } else {
            InputSource::Literal(value)
        }
    }
}

/// One input option as it was given: the type it asks for and where its data is.
#[derive(Debug, PartialEq, Eq)]
pub struct InputRequest {
    pub kind: InputKind,
    pub source: InputSource,
}

/// What an `InputRequest` holds, as mathematical values.
pub struct InputRequestView {
    pub kind: InputKind,
    pub source: SourceView,
}

impl View for InputRequest {
    type V = InputRequestView;

    open spec fn view(&self) -> InputRequestView {
        InputRequestView { kind: self.kind, source: self.source@ }
    }
}

impl DeepView for InputRequest {
    type V = InputRequestView;

    open spec fn deep_view(&self) -> InputRequestView {
        self@
    }
}

/// The argument list, taken apart: the input options in the order they were
/// given, and every other argument in the order it was given.
#[derive(Debug, PartialEq, Eq)]
pub struct ScannedArgs {
    pub inputs: Vec<InputRequest>,
    pub others: Vec<String>,
}

/// What a `ScannedArgs` holds, as mathematical sequences.
pub struct ScannedView {
    pub inputs: Seq<InputRequestView>,
    pub others: Seq<Seq<char>>,
}

impl View for ScannedArgs {
    type V = ScannedView;

    open spec fn view(&self) -> ScannedView {
        ScannedView { inputs: self.inputs.deep_view(), others: self.others.deep_view() }
    }
}

/// How far a scan of the argument list has come: what it has found, and the
/// input option that still waits for its value, with its spelling.
pub struct Scan {
    pub found: ScannedView,
    pub pending: Option<(InputFlag, Seq<char>)>,
}

/// A scan that has read nothing.
pub open spec fn scan_start() -> Scan {
    Scan { found: ScannedView { inputs: Seq::empty(), others: Seq::empty() }, pending: None }
}

/// The scan after one more argument. An input option that waits takes the
/// argument as its value, whatever it is; otherwise the argument is an input
/// option, which now waits, or one of the other arguments.
pub open spec fn scan_step(scan: Scan, arg: Seq<char>) -> Scan {
    match scan.pending {
        Some((flag, _)) => Scan {
            found: ScannedView {
                inputs: scan.found.inputs.push(
                    InputRequestView { kind: flag.kind, source: source_of(flag, arg) },
                ),
                others: scan.found.others,
            },
            pending: None,
        },
        None => match input_flag(arg) {
            Some(flag) => Scan { found: scan.found, pending: Some((flag, arg)) },
            None => Scan {
                found: ScannedView {
                    inputs: scan.found.inputs,
                    others: scan.found.others.push(arg),
                },
                pending: None,
            },
        },
    }
}

/// The scan after all of `argv`.
pub open spec fn scan(argv: Seq<Seq<char>>) -> Scan
    decreases argv.len(),
{
    if argv.len() == 0 {
        scan_start()
    } else {
        scan_step(scan(argv.drop_last()), argv.last())
    }
}

/// What scanning `argv` comes to: the arguments taken apart, or the failure
/// that names the input option which stood last, without a value.
pub open spec fn scanned(argv: Seq<Seq<char>>) -> Result<ScannedView, FailureView> {
    match scan(argv).pending {
        Some((_, spelling)) => Err(FailureView::MissingValue(spelling)),
        None => Ok(scan(argv).found),
    }
}

/// What the outcome of a scan holds, as mathematical values.
pub open spec fn scanned_view(outcome: Result<ScannedArgs, Failure>) -> Result<
    ScannedView,
    FailureView,
> {
    match outcome {
        Ok(args) => Ok(args@),
        Err(failure) => Err(failure@),
    }
}

/// Scanning one argument more of `argv` is one `scan_step`.
proof fn scan_next(argv: Seq<Seq<char>>, i: int)
    requires
        0 <= i < argv.len(),
    ensures
        scan(argv.take(i + 1)) == scan_step(scan(argv.take(i)), argv[i]),
{
    assert(argv.take(i + 1).drop_last() =~= argv.take(i));
}

/// Takes the input options, each with its value, out of the argument list.
pub fn scan_args(argv: &Vec<String>) -> (outcome: Result<ScannedArgs, Failure>)
    ensures
        scanned_view(outcome) == scanned(argv.deep_view()),
{
    let mut inputs: Vec<InputRequest> = Vec::new();
    let mut others: Vec<String> = Vec::new();
    let mut pending: Option<(InputFlag, String)> = None;
    let mut i: usize = 0;
    assert(inputs.deep_view() =~= Seq::<InputRequestView>::empty());
    assert(others.deep_view() =~= Seq::<Seq<char>>::empty());
    while i < argv.len()
        invariant
            i <= argv.len(),
            scan(argv.deep_view().take(i as int)) == (Scan {
                found: ScannedView { inputs: inputs.deep_view(), others: others.deep_view() },
                pending: match pending {
                    Some((flag, spelling)) => Some((flag, spelling@)),
                    None => None,
                },
            }),
        decreases argv.len() - i,
    {
        proof {
            scan_next(argv.deep_view(), i as int);
        }
        let arg: String = argv[i].clone();
        let ghost inputs_before = inputs.deep_view();
        let ghost others_before = others.deep_view();
        match pending {
            Some((flag, _)) => {
                let request = InputRequest { kind: flag.kind, source: InputSource::of(flag, arg) };
                inputs.push(request);
                pending = None;
                assert(inputs.deep_view() =~= inputs_before.push(request@));
            },
            None => match parse_input_flag(arg.as_str()) {
                Some(flag) => {
                    pending = Some((flag, arg));
                },
                None => {
                    others.push(arg);
                    pending = None;
                    assert(others.deep_view() =~= others_before.push(arg@));
                },
            },
        }
        i = i + 1;
    }
    assert(argv.deep_view().take(argv.len() as int) =~= argv.deep_view());
    match pending {
        Some((_, spelling)) => Err(Failure::MissingValue(spelling)),
        None => Ok(ScannedArgs { inputs, others }),
    }
}

/// An argument list that holds no input option comes out of the scan as it
/// went in, with no input found.
pub proof fn scan_without_input_options(argv: Seq<Seq<char>>)
    requires
        forall|i: int| 0 <= i < argv.len() ==> input_flag(#[trigger] argv[i]) is None,
    ensures
        scan(argv) == (Scan {
            found: ScannedView { inputs: Seq::empty(), others: argv },
            pending: None,
        }),
    decreases argv.len(),
{
    if argv.len() == 0 {
        assert(argv =~= Seq::<Seq<char>>::empty());
    } else {
        let head = argv.drop_last();
        assert forall|i: int| 0 <= i < head.len() implies input_flag(#[trigger] head[i]) is None by {
            assert(head[i] == argv[i]);
        }
        scan_without_input_options(head);
        assert(input_flag(argv[argv.len() - 1]) is None);
        assert(head.push(argv.last()) =~= argv);
    }
}

/// Scanning goes argument by argument: where no input option waits for its
/// value after `head`, the scan of `head + tail` finds what the scan of `head`
/// finds and then what the scan of `tail` finds.
pub proof fn scan_continues(head: Seq<Seq<char>>, tail: Seq<Seq<char>>)
    requires
        scan(head).pending is None,
    ensures
        scan(head + tail) == (Scan {
            found: ScannedView {
                inputs: scan(head).found.inputs + scan(tail).found.inputs,
                others: scan(head).found.others + scan(tail).found.others,
            },
            pending: scan(tail).pending,
        }),
    decreases tail.len(),
{
    if tail.len() == 0 {
        assert(head + tail =~= head);
        assert(scan(head).found.inputs + scan(tail).found.inputs =~= scan(head).found.inputs);
        assert(scan(head).found.others + scan(tail).found.others =~= scan(head).found.others);
    } else {
        scan_continues(head, tail.drop_last());
        assert((head + tail).drop_last() =~= head + tail.drop_last());
        let before = scan(tail.drop_last());
        let arg = tail.last();
        assert(scan(tail) == scan_step(before, arg));
        assert(scan(head + tail) == scan_step(scan(head + tail.drop_last()), arg));
        assert(scan(head + tail).found.inputs =~= scan(head).found.inputs + scan(
            tail,
        ).found.inputs);
        assert(scan(head + tail).found.others =~= scan(head).found.others + scan(
            tail,
        ).found.others);
    }
}

/// An input option and the argument after it are one input.
pub proof fn scan_of_one_option(option: Seq<char>, value: Seq<char>)
    requires
        input_flag(option) is Some,
    ensures
        scan(seq![option, value]).pending is None,
        scan(seq![option, value]).found.inputs.len() == 1,
        scan(seq![option, value]).found.others.len() == 0,
{
    let argv = seq![option, value];
    let empty = Seq::<Seq<char>>::empty();
    assert(scan(empty) == scan_start());
    assert(argv.drop_last() =~= seq![option]);
    assert(seq![option].drop_last() =~= empty);
    assert(scan(seq![option]) == scan_step(scan(empty), option));
    assert(scan(argv) == scan_step(scan(seq![option]), value));
}

} // verus!
