use microparsec::{Context, ContextParserT, ParserType, RegexParser, StringParserT};

fn phone() -> RegexParser {
    RegexParser::new(r"\+\d{2}\s\d{3}\s\d{5}", "Phone number")
}

#[test]
fn phone_number_matches_whole_input() {
    let res = phone().parse("+12 345 67890").unwrap();
    assert_eq!(res.val, "+12 345 67890");
    assert_eq!(res.ctx.pos, 13);
    assert_eq!(res.ctx.txt, "+12 345 67890");
}

#[test]
fn phone_number_mismatch_fails_at_start() {
    let err = phone().parse("+12 45 6890").unwrap_err();
    assert_eq!(
        err.get_error_message(),
        "[Parser error] Expected `Phone number` at position: 0"
    );
    assert_eq!(err.ctx.pos, 0);
    assert_eq!(err.parsers, vec![ParserType::Regex]);
}

#[test]
fn phone_number_on_empty_input_fails() {
    let err = phone().parse("").unwrap_err();
    assert_eq!(
        err.get_error_message(),
        "[Parser error] Expected `Phone number` at position: 0"
    );
}

#[test]
fn phone_number_from_advanced_cursor() {
    let ctx = Context::at("xxxx+12 345 67890".to_string(), 4).unwrap();
    let res = phone().parse_from_context(ctx).unwrap();
    assert_eq!(res.val, "+12 345 67890");
    assert_eq!(res.ctx.pos, 17);
}

#[test]
fn match_later_in_input_is_not_accepted() {
    let ctx = Context::new("xxxx+12 345 67890".to_string());
    let err = phone().parse_from_context(ctx).unwrap_err();
    assert_eq!(err.ctx.pos, 0);
}

#[test]
fn failure_message_reports_multi_digit_position() {
    let ctx = Context::at("abcdefghijkl 42".to_string(), 12).unwrap();
    let err = RegexParser::new(r"\d+", "number").parse_from_context(ctx).unwrap_err();
    assert_eq!(err.ctx.pos, 12);
    assert_eq!(
        err.get_error_message(),
        "[Parser error] Expected `number` at position: 12"
    );
}

#[test]
fn match_consumes_only_the_match() {
    let ctx = Context::at("ab 123 cd".to_string(), 3).unwrap();
    let res = RegexParser::new(r"\d+", "number").parse_from_context(ctx).unwrap();
    assert_eq!(res.val, "123");
    assert_eq!(res.ctx.pos, 6);
}

#[test]
fn zero_length_match_keeps_position() {
    let res = RegexParser::new(r"a*", "as").parse("bbb").unwrap();
    assert_eq!(res.val, "");
    assert_eq!(res.ctx.pos, 0);
}

#[test]
fn offsets_count_bytes_of_multibyte_text() {
    let ctx = Context::at("é1".to_string(), 2).unwrap();
    let res = RegexParser::new(r"\d", "digit").parse_from_context(ctx).unwrap();
    assert_eq!(res.val, "1");
    assert_eq!(res.ctx.pos, 3);
    let res = RegexParser::new(r"é", "accent").parse("é1").unwrap();
    assert_eq!(res.ctx.pos, 2);
}

#[test]
fn cursor_inside_a_character_is_refused() {
    assert!(Context::at("é1".to_string(), 1).is_none());
    assert!(Context::at("ab".to_string(), 3).is_none());
    assert!(Context::at("ab".to_string(), 2).is_some());
}

#[test]
fn attempt_twice_gives_same_result() {
    let p = phone();
    let ctx = Context::at("xxxx+12 345 67890".to_string(), 4).unwrap();
    let a = p.parse_from_context(ctx.clone()).unwrap();
    let b = p.parse_from_context(ctx).unwrap();
    assert_eq!(a.val, b.val);
    assert_eq!(a.ctx.pos, b.ctx.pos);
    let e1 = p.parse("nope").unwrap_err();
    let e2 = p.parse("nope").unwrap_err();
    assert_eq!(e1.get_error_message(), e2.get_error_message());
    assert_eq!(e1.ctx.pos, e2.ctx.pos);
}

#[test]
fn failed_attempt_does_not_move_cursor() {
    let ctx = Context::at("abc xyz".to_string(), 4).unwrap();
    let err = RegexParser::new(r"\d", "digit").parse_from_context(ctx).unwrap_err();
    assert_eq!(err.ctx.pos, 4);
    assert_eq!(err.ctx.txt, "abc xyz");
}

#[test]
fn parser_reports_kind_and_label() {
    let p = phone();
    assert_eq!(p.get_parser_type(), ParserType::Regex);
    assert_eq!(p.get_generic_error_message(), "Phone number");
}

#[test]
fn invalid_pattern_is_reported_by_try_parse() {
    let p = RegexParser::new(r"foo(bar", "foo");
    assert!(!p.is_valid());
    assert!(p.try_parse("foobar").is_none());
    let q = RegexParser::new(r"foo", "foo");
    assert!(q.is_valid());
    assert_eq!(q.try_parse("foobar").unwrap().unwrap().val, "foo");
}
