use algo_run::flags::InputKind;
use algo_run::input::{InputData, InputError};

fn nested(depth: usize) -> Vec<u8> {
    let mut text = String::new();
    for _ in 0..depth {
        text.push('[');
    }
    for _ in 0..depth {
        text.push(']');
    }
    text.into_bytes()
}

#[test]
fn auto_takes_a_json_object_as_json() {
    let data = InputData::auto_checked(b"{\"a\":1}".to_vec());
    assert_eq!(data, Ok(InputData::Json(String::from("{\"a\":1}"))));
}

#[test]
fn auto_takes_a_json_number_as_json() {
    let data = InputData::auto_checked(b"42".to_vec());
    assert_eq!(data, Ok(InputData::Json(String::from("42"))));
}

#[test]
fn auto_takes_a_quoted_string_as_json() {
    let data = InputData::auto_checked(b"\"hello\"".to_vec());
    assert_eq!(data, Ok(InputData::Json(String::from("\"hello\""))));
}

#[test]
fn auto_keeps_the_whitespace_of_json() {
    let data = InputData::auto_checked(b" [1, 2]\n".to_vec());
    assert_eq!(data, Ok(InputData::Json(String::from(" [1, 2]\n"))));
}

#[test]
fn auto_takes_plain_words_as_text() {
    let data = InputData::auto_checked(b"hello world".to_vec());
    assert_eq!(data, Ok(InputData::Text(String::from("hello world"))));
}

#[test]
fn auto_takes_broken_json_as_text() {
    let data = InputData::auto_checked(b"{\"a\":1".to_vec());
    assert_eq!(data, Ok(InputData::Text(String::from("{\"a\":1"))));
}

#[test]
fn auto_takes_json_with_trailing_words_as_text() {
    let data = InputData::auto_checked(b"42 apples".to_vec());
    assert_eq!(data, Ok(InputData::Text(String::from("42 apples"))));
}

#[test]
fn auto_takes_nothing_as_text() {
    let data = InputData::auto_checked(Vec::new());
    assert_eq!(data, Ok(InputData::Text(String::new())));
}

#[test]
fn auto_takes_text_beyond_ascii_as_text() {
    let data = InputData::auto_checked("gr\u{fc}\u{df}e \u{1f600}".as_bytes().to_vec());
    assert_eq!(data, Ok(InputData::Text(String::from("gr\u{fc}\u{df}e \u{1f600}"))));
}

#[test]
fn auto_takes_bytes_that_are_no_text_as_binary() {
    let data = InputData::auto_checked(vec![0xFF, 0xFE, 0x00]);
    assert_eq!(data, Ok(InputData::Binary(vec![0xFF, 0xFE, 0x00])));
}

#[test]
fn auto_takes_a_cut_off_character_as_binary() {
    let data = InputData::auto_checked(vec![b'a', 0xC3]);
    assert_eq!(data, Ok(InputData::Binary(vec![b'a', 0xC3])));
}

#[test]
fn auto_takes_long_binary_data() {
    let mut bytes = vec![0x80u8; 100_000];
    bytes[0] = 0xFF;
    let data = InputData::auto_checked(bytes.clone());
    assert_eq!(data, Ok(InputData::Binary(bytes)));
}

#[test]
fn auto_without_the_check_agrees_on_small_inputs() {
    assert_eq!(InputData::auto(b"[true]".to_vec()), InputData::Json(String::from("[true]")));
    assert_eq!(InputData::auto(b"true story".to_vec()), InputData::Text(String::from("true story")));
    assert_eq!(InputData::auto(vec![0xC0, 0x80]), InputData::Binary(vec![0xC0, 0x80]));
}

#[test]
fn auto_reads_nesting_up_to_the_limit() {
    let bytes = nested(128);
    let text = String::from_utf8(bytes.clone()).unwrap();
    assert_eq!(InputData::auto_checked(bytes), Ok(InputData::Json(text)));
}

#[test]
fn auto_refuses_nesting_past_the_limit() {
    assert_eq!(InputData::auto_checked(nested(129)), Err(InputError::Uninspectable));
}

fn object_with_key_of(length: usize) -> Vec<u8> {
    let mut text = String::from("{\"");
    for _ in 0..length {
        text.push('k');
    }
    text.push_str("\": 1}");
    text.into_bytes()
}

#[test]
fn auto_takes_a_long_text() {
    let bytes = vec![b'a'; 1_000_000];
    let text = String::from_utf8(bytes.clone()).unwrap();
    assert_eq!(InputData::auto_checked(bytes), Ok(InputData::Text(text)));
}

#[test]
fn auto_takes_a_long_document() {
    let mut text = String::from("[\"");
    for _ in 0..300_000 {
        text.push_str("QUJD");
    }
    text.push_str("\"");
    for n in 0..50_000 {
        text.push_str(", ");
        text.push_str(&n.to_string());
    }
    text.push(']');
    assert!(text.len() > 1_400_000);
    assert_eq!(InputData::auto_checked(text.clone().into_bytes()), Ok(InputData::Json(text)));
}

#[test]
fn auto_takes_keys_up_to_the_limit() {
    let bytes = object_with_key_of(65535);
    let text = String::from_utf8(bytes.clone()).unwrap();
    assert_eq!(InputData::auto_checked(bytes), Ok(InputData::Json(text)));
}

#[test]
fn auto_refuses_a_key_past_the_limit() {
    assert_eq!(
        InputData::auto_checked(object_with_key_of(65536)),
        Err(InputError::Uninspectable)
    );
}

#[test]
fn auto_refuses_keys_of_open_objects_that_are_too_long_together() {
    let key = "k".repeat(40_000);
    let text = format!("{{\"{}\":{{\"{}\":1}}}}", key, key);
    assert_eq!(InputData::auto_checked(text.into_bytes()), Err(InputError::Uninspectable));
}

#[test]
fn auto_takes_many_short_keys() {
    let mut text = String::from("{");
    for n in 0..7000 {
        if n > 0 {
            text.push(',');
        }
        text.push_str(&format!("\"key{:07}\":{}", n, n));
    }
    text.push('}');
    assert_eq!(InputData::auto_checked(text.clone().into_bytes()), Ok(InputData::Json(text)));
}

#[test]
fn classified_goes_by_the_answer_it_is_given() {
    assert_eq!(
        InputData::classified(String::from("[1]"), true),
        InputData::Json(String::from("[1]"))
    );
    assert_eq!(
        InputData::classified(String::from("[1]"), false),
        InputData::Text(String::from("[1]"))
    );
    assert_eq!(
        InputData::classified(String::from("words"), true),
        InputData::Json(String::from("words"))
    );
    assert_eq!(InputData::classified(String::new(), false), InputData::Text(String::new()));
}

#[test]
fn auto_refuses_an_exponent_of_ten_digits() {
    assert_eq!(
        InputData::auto_checked(b"1e1234567890".to_vec()),
        Err(InputError::Uninspectable)
    );
    assert_eq!(
        InputData::auto_checked(b"[2.5E-1234567890]".to_vec()),
        Err(InputError::Uninspectable)
    );
}

#[test]
fn auto_reads_an_exponent_of_nine_digits() {
    assert_eq!(
        InputData::auto_checked(b"1e-123456789".to_vec()),
        Ok(InputData::Json(String::from("1e-123456789")))
    );
}

#[test]
fn auto_reads_long_numbers_that_are_no_exponent() {
    assert_eq!(
        InputData::auto_checked(b"12345678901234567890".to_vec()),
        Ok(InputData::Json(String::from("12345678901234567890")))
    );
    assert_eq!(
        InputData::auto_checked(b"123456789012345678901234567890".to_vec()),
        Ok(InputData::Text(String::from("123456789012345678901234567890")))
    );
}

#[test]
fn text_takes_text() {
    assert_eq!(InputData::text(b"79".to_vec()), Ok(InputData::Text(String::from("79"))));
}

#[test]
fn text_takes_json_as_text() {
    assert_eq!(InputData::text(b"{}".to_vec()), Ok(InputData::Text(String::from("{}"))));
}

#[test]
fn text_refuses_bytes_that_are_no_text() {
    assert_eq!(InputData::text(vec![0xFF, 0xFE, 0x00]), Err(InputError::NotUtf8));
}

#[test]
fn json_does_not_look_at_the_text() {
    assert_eq!(
        InputData::json(b"not json at all".to_vec()),
        Ok(InputData::Json(String::from("not json at all")))
    );
}

#[test]
fn json_refuses_bytes_that_are_no_text() {
    assert_eq!(InputData::json(vec![0x80]), Err(InputError::NotUtf8));
}

#[test]
fn binary_takes_anything() {
    assert_eq!(InputData::binary(vec![0, 159, 146, 150]), InputData::Binary(vec![0, 159, 146, 150]));
    assert_eq!(InputData::binary(b"{}".to_vec()), InputData::Binary(b"{}".to_vec()));
}

#[test]
fn from_bytes_goes_by_the_kind() {
    assert_eq!(
        InputData::from_bytes(InputKind::Auto, b"[1]".to_vec()),
        Ok(InputData::Json(String::from("[1]")))
    );
    assert_eq!(
        InputData::from_bytes(InputKind::Json, b"oops".to_vec()),
        Ok(InputData::Json(String::from("oops")))
    );
    assert_eq!(
        InputData::from_bytes(InputKind::Text, b"[1]".to_vec()),
        Ok(InputData::Text(String::from("[1]")))
    );
    assert_eq!(
        InputData::from_bytes(InputKind::Binary, b"[1]".to_vec()),
        Ok(InputData::Binary(b"[1]".to_vec()))
    );
    assert_eq!(InputData::from_bytes(InputKind::Text, vec![0xFF]), Err(InputError::NotUtf8));
    assert_eq!(InputData::from_bytes(InputKind::Json, vec![0xFF]), Err(InputError::NotUtf8));
    assert_eq!(
        InputData::from_bytes(InputKind::Auto, vec![0xFF]),
        Ok(InputData::Binary(vec![0xFF]))
    );
}

#[test]
fn from_literal_goes_by_the_kind() {
    assert_eq!(
        InputData::from_literal(InputKind::Auto, String::from("{\"a\":1}")),
        Ok(InputData::Json(String::from("{\"a\":1}")))
    );
    assert_eq!(
        InputData::from_literal(InputKind::Auto, String::from("seventy-nine")),
        Ok(InputData::Text(String::from("seventy-nine")))
    );
    assert_eq!(
        InputData::from_literal(InputKind::Json, String::from("seventy-nine")),
        Ok(InputData::Json(String::from("seventy-nine")))
    );
    assert_eq!(
        InputData::from_literal(InputKind::Text, String::from("79")),
        Ok(InputData::Text(String::from("79")))
    );
    assert_eq!(
        InputData::from_literal(InputKind::Binary, String::from("\u{e9}")),
        Ok(InputData::Binary(vec![0xC3, 0xA9]))
    );
}

#[test]
fn from_literal_refuses_to_detect_what_it_cannot_inspect() {
    let mut deep = String::new();
    for _ in 0..200 {
        deep.push('{');
    }
    assert_eq!(InputData::from_literal(InputKind::Auto, deep.clone()), Err(InputError::Uninspectable));
    assert_eq!(InputData::from_literal(InputKind::Text, deep.clone()), Ok(InputData::Text(deep)));
}

#[test]
fn detection_can_run_on_small_texts_and_on_all_binary_data() {
    assert!(InputData::can_detect(b"{\"a\":1}"));
    assert!(InputData::can_detect(b"hello world"));
    assert!(InputData::can_detect(b""));
    assert!(InputData::can_detect(&vec![0xFF; 100_000]));
    assert!(InputData::can_detect(&vec![b' '; 65536]));
    assert!(!InputData::can_detect(&object_with_key_of(65536)));
    assert!(!InputData::can_detect(b"{\"a\":{\"b\":1,}}"));
    assert!(InputData::can_detect(b"{\"a\":1,}"));
    assert!(InputData::can_detect(b"a,}"));
    assert!(InputData::can_detect(b"\"e1234567890\""));
    assert!(!InputData::can_detect(b"1E+1234567890"));
}

#[test]
fn detection_runs_on_texts_that_begin_with_a_word() {
    let mut text = String::from("notes: ");
    for _ in 0..300 {
        text.push_str("[{\"a\":{\"b\":1,},2] 1e1234567890 ");
    }
    assert!(InputData::can_detect(text.as_bytes()));
    assert_eq!(InputData::auto_checked(text.clone().into_bytes()), Ok(InputData::Text(text)));
}

#[test]
fn detection_runs_on_texts_that_begin_with_a_string_or_a_name() {
    for text in ["\"a\" [[{\"a\":1,}]]", "true [[{\"a\":1,}]]", "null 1e1234567890"] {
        assert_eq!(
            InputData::auto_checked(text.as_bytes().to_vec()),
            Ok(InputData::Text(String::from(text)))
        );
    }
}
