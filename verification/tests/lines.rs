use log_metrics::decimal::decimal_string;
use log_metrics::event::{Field, ParseError, ParseReason, ParsedEvent};
use log_metrics::grammar::{detect, sniff, white_space, Grammar, LogFormat};
use log_metrics::guard::refuse;
use log_metrics::json::{event_from_members, parse_json_line, Member};
use log_metrics::text::{event_from_tokens, TextParser};

fn event(operation: &str, username: &str, nanos: i64) -> ParsedEvent {
    ParsedEvent {
        operation: operation.to_string(),
        username: username.to_string(),
        event_time_nanos: nanos,
    }
}

fn skipped(line: &str, reason: ParseReason) -> ParseError {
    ParseError { line: line.to_string(), reason }
}

#[test]
fn decimal_of_zero_and_small_numbers() {
    assert_eq!(decimal_string(0), "0");
    assert_eq!(decimal_string(7), "7");
    assert_eq!(decimal_string(10), "10");
    assert_eq!(decimal_string(1_000_000_000), "1000000000");
    assert_eq!(decimal_string(-42), "-42");
}

#[test]
fn decimal_of_the_extremes() {
    assert_eq!(decimal_string(i64::MAX), "9223372036854775807");
    assert_eq!(decimal_string(i64::MIN), "-9223372036854775808");
}

#[test]
fn decimal_agrees_with_the_standard_rendering() {
    let samples: [i64; 8] = [1, 9, 99, 100, 101, 1234567890123, -1, -1000];
    for n in samples {
        assert_eq!(decimal_string(n), n.to_string());
    }
}

#[test]
fn white_space_is_the_unicode_property() {
    let mut code = 0u32;
    while code < 0x3100 {
        if let Some(c) = char::from_u32(code) {
            assert_eq!(white_space(c), c.is_whitespace(), "U+{:04X}", code);
        }
        code += 1;
    }
}

#[test]
fn sniffing_looks_past_leading_white_space() {
    assert_eq!(sniff("{\"a\":1}"), Grammar::Json);
    assert_eq!(sniff("  \t{\"a\":1}"), Grammar::Json);
    assert_eq!(sniff("\u{3000}{"), Grammar::Json);
    assert_eq!(sniff("2015-01-01 00:00:00 ugi=a cmd=b"), Grammar::Text);
    assert_eq!(sniff("x{"), Grammar::Text);
}

#[test]
fn an_empty_first_line_is_text() {
    assert_eq!(sniff(""), Grammar::Text);
    assert_eq!(sniff("   "), Grammar::Text);
    assert_eq!(detect("", LogFormat::Auto), Grammar::Text);
}

#[test]
fn a_fixed_format_overrides_the_first_line() {
    assert_eq!(detect("{}", LogFormat::Text), Grammar::Text);
    assert_eq!(detect("plain", LogFormat::Json), Grammar::Json);
    assert_eq!(detect("{}", LogFormat::Auto), Grammar::Json);
    assert_eq!(detect("plain", LogFormat::Auto), Grammar::Text);
}

#[test]
fn json_line_gives_its_event() {
    let line = "{\"operation\":\"OPEN\",\"username\":\"alice\",\"eventTime\":1000}";
    assert_eq!(parse_json_line(line), Ok(event("OPEN", "alice", 1_000_000_000)));
}

#[test]
fn json_line_with_other_members_and_spacing() {
    let line = " { \"src\": \"/a/b\", \"eventTime\": 1433160000123, \"username\": \"bob\", \"operation\": \"delete\", \"ok\": true } ";
    assert_eq!(parse_json_line(line), Ok(event("delete", "bob", 1_433_160_000_123_000_000)));
}

#[test]
fn json_line_with_a_negative_time() {
    let line = "{\"operation\":\"o\",\"username\":\"u\",\"eventTime\":-5}";
    assert_eq!(parse_json_line(line), Ok(event("o", "u", -5_000_000)));
}

#[test]
fn json_line_keeps_escapes_as_the_reader_decodes_them() {
    let line = "{\"operation\":\"a\\u0041\\n\",\"username\":\"\\u00e9\",\"eventTime\":0}";
    assert_eq!(parse_json_line(line), Ok(event("aA\n", "\u{e9}", 0)));
}

#[test]
fn invalid_json_is_an_error_that_names_the_line() {
    for line in ["", "{", "not json", "{\"operation\":}", "{\"a\":1} trailing"] {
        assert_eq!(parse_json_line(line), Err(skipped(line, ParseReason::InvalidJson)));
    }
}

#[test]
fn missing_members_are_named_in_order() {
    let line = "{}";
    assert_eq!(
        parse_json_line(line),
        Err(skipped(line, ParseReason::MissingField(Field::Operation)))
    );
    let line = "{\"operation\":\"o\"}";
    assert_eq!(
        parse_json_line(line),
        Err(skipped(line, ParseReason::MissingField(Field::Username)))
    );
    let line = "{\"operation\":\"o\",\"username\":\"u\"}";
    assert_eq!(
        parse_json_line(line),
        Err(skipped(line, ParseReason::MissingField(Field::EventTime)))
    );
}

#[test]
fn a_document_that_is_no_object_has_no_members() {
    for line in ["[1,2]", "42", "\"text\"", "null"] {
        assert_eq!(
            parse_json_line(line),
            Err(skipped(line, ParseReason::MissingField(Field::Operation)))
        );
    }
}

#[test]
fn members_of_the_wrong_type_are_named() {
    let line = "{\"operation\":1,\"username\":\"u\",\"eventTime\":1}";
    assert_eq!(parse_json_line(line), Err(skipped(line, ParseReason::WrongType(Field::Operation))));
    let line = "{\"operation\":\"o\",\"username\":null,\"eventTime\":1}";
    assert_eq!(parse_json_line(line), Err(skipped(line, ParseReason::WrongType(Field::Username))));
    let line = "{\"operation\":\"o\",\"username\":\"u\",\"eventTime\":\"1\"}";
    assert_eq!(parse_json_line(line), Err(skipped(line, ParseReason::WrongType(Field::EventTime))));
    let line = "{\"operation\":\"o\",\"username\":\"u\",\"eventTime\":1.5}";
    assert_eq!(parse_json_line(line), Err(skipped(line, ParseReason::WrongType(Field::EventTime))));
    let line = "{\"operation\":\"o\",\"username\":\"u\",\"eventTime\":18446744073709551615}";
    assert_eq!(parse_json_line(line), Err(skipped(line, ParseReason::WrongType(Field::EventTime))));
}

#[test]
fn a_time_beyond_64_bits_of_nanoseconds_is_out_of_range() {
    let line = "{\"operation\":\"o\",\"username\":\"u\",\"eventTime\":9223372036855}";
    assert_eq!(parse_json_line(line), Err(skipped(line, ParseReason::TimestampOutOfRange)));
    let line = "{\"operation\":\"o\",\"username\":\"u\",\"eventTime\":9223372036854}";
    assert_eq!(parse_json_line(line), Ok(event("o", "u", 9_223_372_036_854_000_000)));
    let line = "{\"operation\":\"o\",\"username\":\"u\",\"eventTime\":-9223372036855}";
    assert_eq!(parse_json_line(line), Err(skipped(line, ParseReason::TimestampOutOfRange)));
}

#[test]
fn a_comma_before_a_closing_brace_is_never_handed_to_the_reader() {
    for line in [
        "[{\"a\":{\"b\":1,},\"c\":2}]",
        "{\"k\":[{\"a\":{\"b\":1,},7]}",
        "{\"a\":{\"b\":1, \t\r\n},\"c\":2}",
        "{\"operation\":\"o\",\"username\":\"u\",\"eventTime\":1,}",
        "[1,}",
    ] {
        assert_eq!(refuse(line.as_bytes()), Some(ParseReason::InvalidJson), "{}", line);
        assert_eq!(parse_json_line(line), Err(skipped(line, ParseReason::InvalidJson)));
    }
}

#[test]
fn a_comma_and_a_brace_inside_a_string_are_text() {
    let line = "{\"operation\":\"a,}\",\"username\":\",  }\",\"eventTime\":3}";
    assert_eq!(refuse(line.as_bytes()), None);
    assert_eq!(parse_json_line(line), Ok(event("a,}", ",  }", 3_000_000)));
    let line = "{\"operation\":\"q\\\",}\",\"username\":\"u\",\"eventTime\":3}";
    assert_eq!(parse_json_line(line), Ok(event("q\",}", "u", 3_000_000)));
}

#[test]
fn letters_and_digits_inside_a_string_are_no_exponent() {
    let line = "{\"operation\":\"OPEN\",\"username\":\"e1234567890\",\"eventTime\":1000}";
    assert_eq!(refuse(line.as_bytes()), None);
    assert_eq!(parse_json_line(line), Ok(event("OPEN", "e1234567890", 1_000_000_000)));
    let line = "{\"operation\":\"o\",\"username\":\"u\",\"eventTime\":1,\"src\":\"/tmp/stage170000000000000000000000000\"}";
    assert_eq!(parse_json_line(line), Ok(event("o", "u", 1_000_000)));
    let line = "\"E-99999999999999999999999999\"";
    assert_eq!(refuse(line.as_bytes()), None);
}

#[test]
fn an_exponent_that_fits_no_machine_word_is_refused() {
    for line in [
        "1e99999999999999999999999999",
        "{\"a\":1E-99999999999999999999999999}",
        "[2.5e+99999999999999999999999999]",
    ] {
        assert_eq!(refuse(line.as_bytes()), Some(ParseReason::ExponentTooLong), "{}", line);
        assert_eq!(parse_json_line(line), Err(skipped(line, ParseReason::ExponentTooLong)));
    }
}

#[test]
fn an_exponent_with_many_digits_that_fits_is_read() {
    assert_eq!(refuse(b"1e0000000000000000000000000000001"), None);
    assert_eq!(refuse(b"1e+123456789"), None);
    assert_eq!(refuse(b"1e-4294967295"), None);
    assert_eq!(refuse(b"12345678901234567890123456789"), None);
    let line = "{\"operation\":\"o\",\"username\":\"u\",\"eventTime\":1,\"x\":1e0000000000000000000000000000001}";
    assert_eq!(parse_json_line(line), Ok(event("o", "u", 1_000_000)));
}

#[test]
fn many_arrays_and_objects_side_by_side_are_not_deep() {
    let flat = format!(
        "{{\"operation\":\"o\",\"username\":\"u\",\"eventTime\":1,\"x\":[{}{{}}]}}",
        "{},".repeat(200)
    );
    assert_eq!(refuse(flat.as_bytes()), None);
    assert_eq!(parse_json_line(&flat), Ok(event("o", "u", 1_000_000)));
    let in_text = format!(
        "{{\"operation\":\"{}\",\"username\":\"u\",\"eventTime\":1}}",
        "[{".repeat(200)
    );
    assert_eq!(parse_json_line(&in_text), Ok(event(&"[{".repeat(200), "u", 1_000_000)));
}

#[test]
fn nesting_up_to_the_bound_is_read_and_beyond_it_refused() {
    let nested = |depth: usize| {
        format!(
            "{{\"operation\":\"o\",\"username\":\"u\",\"eventTime\":1,\"x\":{}{}}}",
            "[".repeat(depth - 1),
            "]".repeat(depth - 1)
        )
    };
    assert_eq!(refuse(nested(128).as_bytes()), None);
    assert_eq!(parse_json_line(&nested(128)), Ok(event("o", "u", 1_000_000)));
    let deep = nested(129);
    assert_eq!(refuse(deep.as_bytes()), Some(ParseReason::NestingTooDeep));
    assert_eq!(parse_json_line(&deep), Err(skipped(&deep, ParseReason::NestingTooDeep)));
    let open = "[".repeat(129);
    assert_eq!(parse_json_line(&open), Err(skipped(&open, ParseReason::NestingTooDeep)));
    let open = "[".repeat(128);
    assert_eq!(parse_json_line(&open), Err(skipped(&open, ParseReason::InvalidJson)));
}

#[test]
fn a_long_line_with_short_keys_is_read() {
    let long = format!(
        "{{\"operation\":\"{}\",\"username\":\"u\",\"eventTime\":1}}",
        "x".repeat(70_000)
    );
    assert_eq!(refuse(long.as_bytes()), None);
    assert_eq!(parse_json_line(&long), Ok(event(&"x".repeat(70_000), "u", 1_000_000)));
    let many = format!(
        "{{\"operation\":\"o\",\"username\":\"u\",\"eventTime\":1{}}}",
        (0..5_000).map(|i| format!(",\"key_number_{:06}\":{}", i, i)).collect::<String>()
    );
    assert!(many.len() > 100_000);
    assert_eq!(parse_json_line(&many), Ok(event("o", "u", 1_000_000)));
}

#[test]
fn keys_beyond_what_the_reader_holds_are_refused() {
    let key = |bytes: usize| "k".repeat(bytes);
    let line = format!("{{\"{}\":1}}", key(65_535));
    assert_eq!(refuse(line.as_bytes()), None);
    assert_eq!(
        parse_json_line(&line),
        Err(skipped(&line, ParseReason::MissingField(Field::Operation)))
    );
    let line = format!("{{\"{}\":1}}", key(65_536));
    assert_eq!(refuse(line.as_bytes()), Some(ParseReason::KeysTooLong));
    assert_eq!(parse_json_line(&line), Err(skipped(&line, ParseReason::KeysTooLong)));
    let nested = format!("{{\"{}\":{{\"{}\":1}}}}", key(40_000), key(25_535));
    assert_eq!(refuse(nested.as_bytes()), None);
    let nested = format!("{{\"{}\":{{\"{}\":1}}}}", key(40_000), key(25_536));
    assert_eq!(refuse(nested.as_bytes()), Some(ParseReason::KeysTooLong));
    let in_turn = format!("{{\"{}\":1,\"{}\":2}}", key(40_000), key(40_000));
    assert_eq!(refuse(in_turn.as_bytes()), None);
    let in_array = format!("[{{\"{}\":1}},{{\"{}\":2}}]", key(40_000), key(40_000));
    assert_eq!(refuse(in_array.as_bytes()), None);
}

#[test]
fn event_from_members_judges_each_member() {
    let text = |s: &str| Some(Member::Text(s.to_string()));
    assert_eq!(
        event_from_members("l", text("o"), text("u"), Some(Member::Integer(2))),
        Ok(event("o", "u", 2_000_000))
    );
    assert_eq!(
        event_from_members("l", None, None, None),
        Err(skipped("l", ParseReason::MissingField(Field::Operation)))
    );
    assert_eq!(
        event_from_members("l", Some(Member::Other), None, None),
        Err(skipped("l", ParseReason::WrongType(Field::Operation)))
    );
    assert_eq!(
        event_from_members("l", text("o"), Some(Member::Integer(1)), None),
        Err(skipped("l", ParseReason::WrongType(Field::Username)))
    );
    assert_eq!(
        event_from_members("l", text("o"), text("u"), text("t")),
        Err(skipped("l", ParseReason::WrongType(Field::EventTime)))
    );
    assert_eq!(
        event_from_members("l", text("o"), text("u"), Some(Member::Integer(i64::MAX))),
        Err(skipped("l", ParseReason::TimestampOutOfRange))
    );
}

#[test]
fn the_text_patterns_compile() {
    assert!(TextParser::new().is_some());
}

#[test]
fn text_line_gives_its_event() {
    let parser = TextParser::new().unwrap();
    let line = "2015-06-01 12:00:00,123 INFO FSNamesystem.audit: allowed=true\tugi=hdfs (auth:SIMPLE)\tip=/10.0.0.1\tcmd=listStatus\tsrc=/tmp\tdst=null\tperm=null";
    assert_eq!(parser.parse_line(line), Ok(event("listStatus", "hdfs", 1_433_160_000_000_000_000)));
}

#[test]
fn text_line_at_the_epoch() {
    let parser = TextParser::new().unwrap();
    let line = "1970-01-01 00:00:01 ugi=root cmd=open";
    assert_eq!(parser.parse_line(line), Ok(event("open", "root", 1_000_000_000)));
    let line = "1969-12-31 23:59:59 ugi=root cmd=open";
    assert_eq!(parser.parse_line(line), Ok(event("open", "root", -1_000_000_000)));
}

#[test]
fn text_line_takes_the_last_marker_of_each_kind() {
    let parser = TextParser::new().unwrap();
    let line = "2015-06-01 12:00:00 ugi=first cmd=one ugi=second cmd=two";
    assert_eq!(parser.parse_line(line), Ok(event("two", "second", 1_433_160_000_000_000_000)));
}

#[test]
fn text_line_without_a_piece_is_skipped() {
    let parser = TextParser::new().unwrap();
    let line = "nothing";
    assert_eq!(parser.parse_line(line), Err(skipped(line, ParseReason::NoTimestamp)));
    let line = "";
    assert_eq!(parser.parse_line(line), Err(skipped(line, ParseReason::NoTimestamp)));
    let line = "yesterday 12:00 ugi=a cmd=b";
    assert_eq!(parser.parse_line(line), Err(skipped(line, ParseReason::BadTimestamp)));
    let line = "2015-13-01 12:00:00 ugi=a cmd=b";
    assert_eq!(parser.parse_line(line), Err(skipped(line, ParseReason::BadTimestamp)));
    let line = "2015-06-01 12:00:00 cmd=b";
    assert_eq!(parser.parse_line(line), Err(skipped(line, ParseReason::NoUsername)));
    let line = "2015-06-01 12:00:00 ugi=a";
    assert_eq!(parser.parse_line(line), Err(skipped(line, ParseReason::NoOperation)));
    let line = "2015-06-01 12:00:00 ugi= cmd=b";
    assert_eq!(parser.parse_line(line), Err(skipped(line, ParseReason::NoUsername)));
}

#[test]
fn text_line_far_in_the_future_is_out_of_range() {
    let parser = TextParser::new().unwrap();
    let line = "2262-04-11 23:47:16 ugi=a cmd=b";
    assert_eq!(parser.parse_line(line), Ok(event("b", "a", 9_223_372_036_000_000_000)));
    let line = "2262-04-11 23:47:17 ugi=a cmd=b";
    assert_eq!(parser.parse_line(line), Err(skipped(line, ParseReason::TimestampOutOfRange)));
    let line = "9999-12-31 23:59:59 ugi=a cmd=b";
    assert_eq!(parser.parse_line(line), Err(skipped(line, ParseReason::TimestampOutOfRange)));
}

#[test]
fn event_from_tokens_judges_each_piece() {
    let some = |s: &str| Some(s.to_string());
    assert_eq!(
        event_from_tokens("l", Some(Some(3)), some("u"), some("o")),
        Ok(event("o", "u", 3_000_000_000))
    );
    assert_eq!(
        event_from_tokens("l", None, some("u"), some("o")),
        Err(skipped("l", ParseReason::NoTimestamp))
    );
    assert_eq!(
        event_from_tokens("l", Some(None), None, None),
        Err(skipped("l", ParseReason::BadTimestamp))
    );
    assert_eq!(
        event_from_tokens("l", Some(Some(3)), None, None),
        Err(skipped("l", ParseReason::NoUsername))
    );
    assert_eq!(
        event_from_tokens("l", Some(Some(3)), some("u"), None),
        Err(skipped("l", ParseReason::NoOperation))
    );
    assert_eq!(
        event_from_tokens("l", Some(Some(i64::MAX)), some("u"), some("o")),
        Err(skipped("l", ParseReason::TimestampOutOfRange))
    );
}
