use algo_run::failure::Failure;
use algo_run::flags::{
    parse_input_flag, scan_args, InputFlag, InputKind, InputRequest, InputSource, ScannedArgs,
};

fn args(words: &[&str]) -> Vec<String> {
    words.iter().map(|word| word.to_string()).collect()
}

#[test]
fn data_options_are_read_in_both_spellings() {
    let literal = |kind| Some(InputFlag { kind, from_file: false });
    assert_eq!(parse_input_flag("-d"), literal(InputKind::Auto));
    assert_eq!(parse_input_flag("--data"), literal(InputKind::Auto));
    assert_eq!(parse_input_flag("-j"), literal(InputKind::Json));
    assert_eq!(parse_input_flag("--json"), literal(InputKind::Json));
    assert_eq!(parse_input_flag("-t"), literal(InputKind::Text));
    assert_eq!(parse_input_flag("--text"), literal(InputKind::Text));
    assert_eq!(parse_input_flag("-b"), literal(InputKind::Binary));
    assert_eq!(parse_input_flag("--binary"), literal(InputKind::Binary));
}

#[test]
fn file_options_are_read_in_both_spellings() {
    let file = |kind| Some(InputFlag { kind, from_file: true });
    assert_eq!(parse_input_flag("-D"), file(InputKind::Auto));
    assert_eq!(parse_input_flag("--data-file"), file(InputKind::Auto));
    assert_eq!(parse_input_flag("-J"), file(InputKind::Json));
    assert_eq!(parse_input_flag("--json-file"), file(InputKind::Json));
    assert_eq!(parse_input_flag("-T"), file(InputKind::Text));
    assert_eq!(parse_input_flag("--text-file"), file(InputKind::Text));
    assert_eq!(parse_input_flag("-B"), file(InputKind::Binary));
    assert_eq!(parse_input_flag("--binary-file"), file(InputKind::Binary));
}

#[test]
fn other_arguments_are_no_input_options() {
    assert_eq!(parse_input_flag(""), None);
    assert_eq!(parse_input_flag("-"), None);
    assert_eq!(parse_input_flag("--"), None);
    assert_eq!(parse_input_flag("-o"), None);
    assert_eq!(parse_input_flag("--meta"), None);
    assert_eq!(parse_input_flag("--data=x"), None);
    assert_eq!(parse_input_flag("-dx"), None);
    assert_eq!(parse_input_flag("--Data"), None);
    assert_eq!(parse_input_flag("data"), None);
    assert_eq!(parse_input_flag("kenny/factor/0.1.0"), None);
}

#[test]
fn source_of_a_file_option_is_the_file_or_standard_input() {
    assert_eq!(InputSource::at(String::from("-")), InputSource::Stdin);
    assert_eq!(
        InputSource::at(String::from("routes.json")),
        InputSource::File(String::from("routes.json"))
    );
    assert_eq!(InputSource::at(String::from("--")), InputSource::File(String::from("--")));
    assert_eq!(InputSource::at(String::new()), InputSource::File(String::new()));
}

#[test]
fn source_of_a_data_option_is_its_value() {
    let data = InputFlag { kind: InputKind::Text, from_file: false };
    let file = InputFlag { kind: InputKind::Text, from_file: true };
    assert_eq!(InputSource::of(data, String::from("-")), InputSource::Literal(String::from("-")));
    assert_eq!(InputSource::of(file, String::from("-")), InputSource::Stdin);
    assert_eq!(InputSource::of(file, String::from("a.txt")), InputSource::File(String::from("a.txt")));
}

#[test]
fn scan_takes_the_input_option_out() {
    let scanned = scan_args(&args(&["run", "kenny/factor/0.1.0", "-t", "79"]));
    assert_eq!(
        scanned,
        Ok(ScannedArgs {
            inputs: vec![InputRequest {
                kind: InputKind::Text,
                source: InputSource::Literal(String::from("79")),
            }],
            others: args(&["run", "kenny/factor/0.1.0"]),
        })
    );
}

#[test]
fn scan_keeps_the_order_of_the_other_arguments() {
    let scanned = scan_args(&args(&["run", "-J", "-", "--meta", "a/b", "-o", "out.png"])).unwrap();
    assert_eq!(scanned.others, args(&["run", "--meta", "a/b", "-o", "out.png"]));
    assert_eq!(
        scanned.inputs,
        vec![InputRequest { kind: InputKind::Json, source: InputSource::Stdin }]
    );
}

#[test]
fn scan_of_nothing_finds_nothing() {
    assert_eq!(scan_args(&Vec::new()), Ok(ScannedArgs { inputs: Vec::new(), others: Vec::new() }));
}

#[test]
fn scan_without_input_options_keeps_everything() {
    let scanned = scan_args(&args(&["run", "a/b", "--response"])).unwrap();
    assert!(scanned.inputs.is_empty());
    assert_eq!(scanned.others, args(&["run", "a/b", "--response"]));
}

#[test]
fn scan_finds_every_input_option_in_order() {
    let scanned = scan_args(&args(&["--text", "a", "x/y", "--json", "b", "-B", "in.png"])).unwrap();
    assert_eq!(
        scanned.inputs,
        vec![
            InputRequest { kind: InputKind::Text, source: InputSource::Literal(String::from("a")) },
            InputRequest { kind: InputKind::Json, source: InputSource::Literal(String::from("b")) },
            InputRequest {
                kind: InputKind::Binary,
                source: InputSource::File(String::from("in.png")),
            },
        ]
    );
    assert_eq!(scanned.others, args(&["x/y"]));
}

#[test]
fn scan_gives_an_option_the_next_argument_whatever_it_is() {
    let scanned = scan_args(&args(&["-d", "-j", "x/y"])).unwrap();
    assert_eq!(
        scanned.inputs,
        vec![InputRequest { kind: InputKind::Auto, source: InputSource::Literal(String::from("-j")) }]
    );
    assert_eq!(scanned.others, args(&["x/y"]));
}

#[test]
fn scan_misses_the_value_of_a_last_option() {
    assert_eq!(
        scan_args(&args(&["run", "x/y", "-d"])),
        Err(Failure::MissingValue(String::from("-d")))
    );
    assert_eq!(
        scan_args(&args(&["--binary-file"])),
        Err(Failure::MissingValue(String::from("--binary-file")))
    );
    assert_eq!(
        scan_args(&args(&["-t", "a", "-T"])),
        Err(Failure::MissingValue(String::from("-T")))
    );
}
