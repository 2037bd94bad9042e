use algo_run::input::{InputData, InputError};
use algo_run::json::{check_json, is_brace_next, is_parser_safe, read_through};

fn keeps_track(bytes: &[u8]) -> bool {
    read_through(bytes).keeps_track
}

struct Shuffle(u64);

impl Shuffle {
    fn next(&mut self) -> u64 {
        self.0 ^= self.0 << 13;
        self.0 ^= self.0 >> 7;
        self.0 ^= self.0 << 17;
        self.0
    }

    fn below(&mut self, n: usize) -> usize {
        (self.next() % (n as u64)) as usize
    }
}

const SCALARS: [&str; 30] = [
    "1",
    "-1",
    "0",
    "1.5",
    "1e5",
    "2E-3",
    "null",
    "true",
    "false",
    "\"\"",
    "\"a\"",
    "\"\\\"\"",
    "\"\\u0041\"",
    "\"[{\"",
    "\"\\uD83D\\uDE00\"",
    "\"\\uD83D\"",
    "\"\\uDC00\"",
    "\"\\uD83D\\u0041\"",
    "18446744073709551615",
    "18446744073709551616",
    "-9223372036854775808",
    "-9223372036854775809",
    "1e999999999",
    "1e-999999999",
    "0.00000000000000000001",
    "01",
    "-0",
    "\"\u{e9}\u{1f600}\"",
    "\"\\n\\t\\/\\b\\f\\r\\\\\"",
    "123456789012345678901234567890.5e+3",
];

const NOISE: [&str; 30] = [
    "[", "]", "{", "}", ",", ":", "\"", " ", "\n", "1", "a", "\\", "e", "-", "\"k\"", ", ", "\\u",
    "\\uD83D", "u", ".", "+", "\t", "\u{1}", "\u{e9}", ",}", ", }", "{,}", "\"k\":", "e5", "E-5",
];

fn document(shuffle: &mut Shuffle, depth: usize, out: &mut Vec<String>) {
    let pick = if depth == 0 { 0 } else { shuffle.below(3) };
    match pick {
        0 => out.push(SCALARS[shuffle.below(SCALARS.len())].to_string()),
        1 => {
            out.push("[".to_string());
            let members = shuffle.below(4);
            for i in 0..members {
                if i > 0 {
                    out.push(",".to_string());
                }
                document(shuffle, depth - 1, out);
            }
            out.push("]".to_string());
        }
        _ => {
            out.push("{".to_string());
            let members = shuffle.below(4);
            for i in 0..members {
                if i > 0 {
                    out.push(",".to_string());
                }
                out.push(format!("\"k{}\"", i));
                out.push(":".to_string());
                document(shuffle, depth - 1, out);
            }
            out.push("}".to_string());
        }
    }
}

fn damaged_document(shuffle: &mut Shuffle) -> String {
    let mut parts = Vec::new();
    document(shuffle, 6, &mut parts);
    let edits = shuffle.below(5);
    for _ in 0..edits {
        let at = shuffle.below(parts.len() + 1);
        match shuffle.below(3) {
            0 => parts.insert(at, NOISE[shuffle.below(NOISE.len())].to_string()),
            1 => {
                if at < parts.len() {
                    parts.remove(at);
                }
            }
            _ => {
                if at < parts.len() {
                    parts[at] = NOISE[shuffle.below(NOISE.len())].to_string();
                }
            }
        }
    }
    parts.concat()
}

#[test]
fn every_generated_text_gets_its_answer() {
    let mut shuffle = Shuffle(0x9E3779B97F4A7C15);
    let mut answered = 0;
    let mut json = 0;
    for _ in 0..200_000 {
        let text = damaged_document(&mut shuffle);
        let safe = is_parser_safe(text.as_bytes());
        let verdict = check_json(&text);
        assert_eq!(verdict.is_some(), safe);
        match InputData::auto_checked(text.clone().into_bytes()) {
            Ok(InputData::Json(kept)) => {
                assert_eq!(verdict, Some(true));
                assert_eq!(kept, text);
                json += 1;
            }
            Ok(InputData::Text(kept)) => {
                assert_eq!(verdict, Some(false));
                assert_eq!(kept, text);
            }
            Ok(InputData::Binary(_)) => panic!("a text was taken as binary: {:?}", text),
            Err(error) => {
                assert_eq!(error, InputError::Uninspectable);
                assert_eq!(verdict, None);
            }
        }
        if safe {
            answered += 1;
        }
    }
    assert!(answered > 190_000);
    assert!(json > 20_000);
}

#[test]
fn undamaged_documents_are_json() {
    let mut shuffle = Shuffle(20_240_229);
    let mut json = 0;
    for _ in 0..20_000 {
        let mut parts = Vec::new();
        document(&mut shuffle, 5, &mut parts);
        let text = parts.concat();
        let refused = [
            "\"\\uD83D\"",
            "\"\\uDC00\"",
            "\"\\uD83D\\u0041\"",
            "18446744073709551616",
            "-9223372036854775809",
            "01",
            "123456789012345678901234567890.5e+3",
        ];
        let sound = parts.iter().all(|part| !refused.contains(&part.as_str()));
        let verdict = check_json(&text);
        if sound {
            assert_eq!(verdict, Some(true), "{}", text);
            json += 1;
        } else {
            assert_eq!(verdict, Some(false), "{}", text);
        }
    }
    assert!(json > 5_000);
}

#[test]
fn comma_before_the_brace_of_an_inner_object_is_found() {
    assert!(!keeps_track(b"[{\"a\":1,}]"));
    assert!(!keeps_track(b"[{\"a\":1, \n\t\r }]"));
    assert!(!keeps_track(b"[{\"a\":{\"b\":1,},2]"));
    assert!(!keeps_track(b"{\"a\":{\"b\":1,}}"));
    assert!(!keeps_track(b"[[],{,}"));
}

#[test]
fn comma_elsewhere_is_no_trouble() {
    assert!(keeps_track(b""));
    assert!(keeps_track(b"{\"a\":1,\"b\":2}"));
    assert!(keeps_track(b"[[1,2,]]"));
    assert!(keeps_track(b"},"));
    assert!(keeps_track(b",x}"));
    assert!(keeps_track(b"a, b, }"));
    assert!(keeps_track(b"{\"a\":1,}"));
    assert!(keeps_track(b"[1,}"));
    assert!(keeps_track(b"[[1,}"));
    assert!(keeps_track(b"{\"a\":[1,}"));
    assert!(keeps_track(b"\",}\""));
    assert!(keeps_track(b"[{\"a\":\",}\"}]"));
    assert!(keeps_track(b"[{\"a\":1,x}]"));
}

#[test]
fn closing_brace_is_looked_for_behind_blanks() {
    let text = b"a \n}\t x";
    assert!(!is_brace_next(text, 0));
    assert!(is_brace_next(text, 1));
    assert!(is_brace_next(text, 2));
    assert!(is_brace_next(text, 3));
    assert!(!is_brace_next(text, 4));
    assert!(!is_brace_next(text, 6));
    assert!(!is_brace_next(text, 7));
    assert!(!is_brace_next(b"  ", 0));
    assert!(!is_brace_next(text, 70));
}

#[test]
fn comma_before_the_brace_of_an_inner_object_is_not_inspected() {
    assert_eq!(check_json("[{\"a\":{\"b\":1,},2]"), None);
    assert_eq!(
        InputData::auto_checked(b"[{\"a\":{\"b\":1,},2]".to_vec()),
        Err(InputError::Uninspectable)
    );
    assert_eq!(
        InputData::text(b"[{\"a\":{\"b\":1,},2]".to_vec()),
        Ok(InputData::Text(String::from("[{\"a\":{\"b\":1,},2]")))
    );
}

#[test]
fn comma_before_a_brace_elsewhere_is_inspected() {
    assert_eq!(check_json("{\"a\":1,}"), Some(false));
    assert_eq!(check_json("a,}"), Some(false));
    assert_eq!(check_json("a, b, }"), Some(false));
    assert_eq!(check_json("\",}\""), Some(true));
    assert_eq!(check_json("[{\"a\":\"b,}\"}]"), Some(true));
    assert_eq!(check_json("[1,}"), Some(false));
    assert_eq!(
        InputData::auto_checked(b"a,}".to_vec()),
        Ok(InputData::Text(String::from("a,}")))
    );
    assert_eq!(
        InputData::auto_checked(b"\",}\"".to_vec()),
        Ok(InputData::Json(String::from("\",}\"")))
    );
}

#[test]
fn digits_behind_an_e_in_a_string_are_inspected() {
    assert_eq!(check_json("\"e1234567890\""), Some(true));
    assert_eq!(
        InputData::auto_checked(b"\"e1234567890\"".to_vec()),
        Ok(InputData::Json(String::from("\"e1234567890\"")))
    );
    assert_eq!(check_json("e1234567890"), Some(false));
    assert_eq!(check_json("true e1234567890"), Some(false));
    assert_eq!(check_json("true 1e1234567890"), Some(false));
    assert_eq!(check_json("12 e1234567890"), Some(false));
}

#[test]
fn keys_of_nested_objects_are_read_up_to_the_limit() {
    let key = "k".repeat(21845);
    let text = format!("{{\"{}\":{{\"{}\":{{\"{}\":1}}}}}}", key, key, key);
    assert_eq!(check_json(&text), Some(true));
    let text = format!("{{\"{}\":{{\"{}\":{{\"{}k\":1}}}}}}", key, key, key);
    assert_eq!(check_json(&text), None);
    let text = format!("{{\"{}\":1,\"{}\":2,\"{}k\":{{\"{}\":3}}}}", key, key, key, key);
    assert_eq!(check_json(&text), Some(true));
}
