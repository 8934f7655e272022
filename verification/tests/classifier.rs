use nu_iox::nuerror::{remove_colon_from_string, remove_slash_from_string, trim_string};
use nu_iox::text::{blank, chars_of, lists, push_decimal, remove_chars, split_at_marker, string_of, trim_blanks};
use nu_iox::{
    number_of_csv_records, Classified, CommandType, Error, GenericError, Ioxsql, MarkerError,
    NuIoxError, NuIoxErrorHandler, NuIoxErrorType, Span,
};

const FAILURE: &str = "... , details: x, message: Table not found (status: 404: extra)";

#[test]
fn remote_failure_is_classified_with_message_and_status() {
    match Ioxsql::classify(FAILURE.to_string()) {
        Classified::Failure(handler) => {
            let record = handler.nu_iox_error().unwrap();
            assert_eq!(record.message(), "Table not found");
            assert_eq!(record.status(), "404");
            assert_eq!(record.header(), "... ");
            assert_eq!(record.start(), FAILURE);
            assert_eq!(record.error_type(), NuIoxErrorType::TableNotFound);
            assert_eq!(handler.ctype(), CommandType::Sql);
        }
        Classified::Data(text) => panic!("taken for a table: {}", text),
    }
}

#[test]
fn fields_are_the_parts_between_the_markers() {
    let record = NuIoxError::parse(
        "Error: running query, details: [a, b], message: \"no (such) table; 'cpu'\", status: NotFound",
    )
    .unwrap();
    assert_eq!(record.header(), "Error running query");
    assert_eq!(record.message(), "no such table cpu");
    assert_eq!(record.status(), "NotFound");
}

#[test]
fn each_marker_is_looked_up_behind_the_one_before() {
    // `status: ` in front of the message marker is not the status marker.
    let record =
        NuIoxError::parse("status: early, details: d, message: m status: late: rest").unwrap();
    assert_eq!(record.header(), "status early");
    assert_eq!(record.message(), "m");
    assert_eq!(record.status(), "late");
}

#[test]
fn status_without_colon_is_kept_whole() {
    let record = NuIoxError::parse("h, details: d, message: m status:  503 unavailable ").unwrap();
    assert_eq!(record.status(), " 503 unavailable ");
}

#[test]
fn status_ends_at_its_first_colon() {
    let record = NuIoxError::parse("h, details: d, message: m status: 404 : a: b").unwrap();
    assert_eq!(record.status(), "404 ");
    let record = NuIoxError::parse("h, details: d, message: m status: :404").unwrap();
    assert_eq!(record.status(), "");
}

#[test]
fn header_keeps_its_blanks() {
    let record = NuIoxError::parse("  a: b :\t, details: d, message: m status: s").unwrap();
    assert_eq!(record.header(), "  a b \t");
    let record = NuIoxError::parse(" : , details: d, message:  (m)  status: s").unwrap();
    assert_eq!(record.header(), "  ");
    assert_eq!(record.message(), "m");
}

#[test]
fn empty_parts_are_empty_fields() {
    let record = NuIoxError::parse(", details: , message: status: ").unwrap();
    assert_eq!(record.header(), "");
    assert_eq!(record.message(), "");
    assert_eq!(record.status(), "");
}

#[test]
fn missing_details_marker() {
    assert_eq!(
        NuIoxError::parse("x, message: m status: 1").err(),
        Some(MarkerError::Details)
    );
    assert_eq!(NuIoxError::parse("").err(), Some(MarkerError::Details));
}

#[test]
fn missing_message_marker() {
    assert_eq!(
        NuIoxError::parse("x, details: d status: 1").err(),
        Some(MarkerError::Message)
    );
    // The message marker in front of the details marker does not count.
    assert_eq!(
        NuIoxError::parse("x, message: m, details: d status: 1").err(),
        Some(MarkerError::Message)
    );
}

#[test]
fn missing_status_marker() {
    assert_eq!(
        NuIoxError::parse("x, details: d, message: m").err(),
        Some(MarkerError::Status)
    );
    assert_eq!(
        NuIoxError::parse("status: 1, details: d, message: m").err(),
        Some(MarkerError::Status)
    );
}

#[test]
fn text_without_markers_has_no_record() {
    let handler = NuIoxErrorHandler::new(CommandType::Sql, "connection refused".to_string());
    assert_eq!(handler.nu_iox_error().err(), Some(MarkerError::Details));
    assert_eq!(handler.nu_iox_error_check().unwrap(), "connection refused");
    let head = Span { start: 1, end: 2 };
    let failure = handler.nu_iox_error_generic(head).unwrap_err();
    assert_eq!(failure.error, "connection refused");
    assert_eq!(failure.msg, "TableNotFound");
    assert_eq!(failure.span, Some(head));
    assert_eq!(failure.help, None);
    let handler = NuIoxErrorHandler::new(CommandType::Sql, "a, details: b status: c".to_string());
    assert_eq!(handler.nu_iox_error().err(), Some(MarkerError::Message));
    let handler = NuIoxErrorHandler::new(CommandType::Sql, "a, details: b, message: c".to_string());
    assert_eq!(handler.nu_iox_error().err(), Some(MarkerError::Status));
}

#[test]
fn build_reads_what_parse_reads() {
    let record = NuIoxError::build(FAILURE);
    assert_eq!(record.message(), "Table not found");
    assert_eq!(record.status(), "404");
}

#[test]
fn reply_with_a_data_row_passes_unchanged() {
    let reply = "namespace_id,name\n1,foo\n".to_string();
    match Ioxsql::classify(reply.clone()) {
        Classified::Data(text) => assert_eq!(text, reply),
        Classified::Failure(_) => panic!("taken for a failure"),
    }
    // Markers in a table do not make it a failure.
    let marked = "text\n\"a, details: b, message: c status: d\"\n".to_string();
    match Ioxsql::classify(marked.clone()) {
        Classified::Data(text) => assert_eq!(text, marked),
        Classified::Failure(_) => panic!("taken for a failure"),
    }
}

#[test]
fn table_without_rows_is_taken_for_a_failure() {
    match Ioxsql::classify("host,usage\n".to_string()) {
        Classified::Failure(handler) => {
            assert_eq!(handler.nu_iox_error().err(), Some(MarkerError::Details));
            let failure = handler
                .nu_iox_error_generic(Span { start: 0, end: 0 })
                .unwrap_err();
            assert_eq!(failure.error, "host,usage\n");
        }
        Classified::Data(_) => panic!("taken for a table"),
    }
}

#[test]
fn classification_by_a_given_count() {
    assert!(matches!(
        Ioxsql::classify_counted("a,b\n1,2\n".to_string(), 1),
        Classified::Data(_)
    ));
    assert!(matches!(
        Ioxsql::classify_counted("a,b\n1,2\n".to_string(), 0),
        Classified::Failure(_)
    ));
    assert!(matches!(
        Ioxsql::classify_counted(FAILURE.to_string(), usize::MAX),
        Classified::Data(_)
    ));
}

#[test]
fn run_hands_a_table_on() {
    let head = Span { start: 3, end: 9 };
    let out = Ioxsql::run("a\n1\n".to_string(), head);
    assert_eq!(out.unwrap(), "a\n1\n");
}

#[test]
fn run_raises_the_failure_at_the_head() {
    let head = Span { start: 3, end: 9 };
    let failure: GenericError = Ioxsql::run(FAILURE.to_string(), head).unwrap_err();
    assert_eq!(failure.error, "Table not found");
    assert_eq!(failure.msg, "TableNotFound");
    assert_eq!(failure.span, Some(head));
    assert_eq!(failure.help, None);
}

#[test]
fn handler_keeps_the_reply() {
    let handler = NuIoxErrorHandler::new(CommandType::Write, FAILURE.to_string());
    assert_eq!(handler.ctype(), CommandType::Write);
    assert_eq!(handler.nu_iox_error_check().unwrap(), FAILURE);
    let failure = handler
        .nu_iox_error_generic(Span { start: 0, end: 0 })
        .unwrap_err();
    assert_eq!(failure.error, "Table not found");
    assert_eq!(failure.span, Some(Span { start: 0, end: 0 }));
}

#[test]
fn kind_is_shown_by_its_name() {
    assert_eq!(NuIoxErrorType::TableNotFound.to_string(), "TableNotFound");
}

#[test]
fn counting_data_rows() {
    assert_eq!(number_of_csv_records(""), 0);
    assert_eq!(number_of_csv_records("a,b\n"), 0);
    assert_eq!(number_of_csv_records("a,b\n1,2\n"), 1);
    assert_eq!(number_of_csv_records("a,b\n1,2\n3,4\n5,6"), 3);
    assert_eq!(number_of_csv_records(FAILURE), 0);
    assert_eq!(number_of_csv_records("a,b\n\"x\ny\",2\n"), 1);
}

#[test]
fn rejected_rows_are_not_counted() {
    assert_eq!(number_of_csv_records("a,b\n1\n2,3\n"), 1);
    assert_eq!(number_of_csv_records("a,b\n1,2,3\n"), 0);
    assert_eq!(number_of_csv_records("a,b\n1\n2\n3,4\n5,6\n7\n"), 2);
}

#[test]
fn splitting_at_the_first_marker() {
    assert_eq!(split_at_marker("eof", "hello, worldeof"), Some(("hello, world", "")));
    assert_eq!(split_at_marker("eof", "1eof2eof"), Some(("1", "2eof")));
    assert_eq!(split_at_marker("eof", "hello, world"), None);
    assert_eq!(split_at_marker("aab", "aaab"), Some(("a", "")));
    assert_eq!(split_at_marker("", "abc"), Some(("", "abc")));
    assert_eq!(split_at_marker("é: ", "añé: ö"), Some(("añ", "ö")));
}

#[test]
fn characters_taken_out_of_a_message() {
    assert_eq!(
        remove_slash_from_string(&"(a), \"b\"; 'c': d".to_string()),
        "a b c: d"
    );
    assert_eq!(remove_slash_from_string(&String::new()), "");
    assert_eq!(remove_slash_from_string(&"();,'\"".to_string()), "");
}

#[test]
fn characters_taken_out_of_a_header() {
    assert_eq!(remove_colon_from_string(&"a: b:: (c)".to_string()), "a b (c)");
    assert_eq!(remove_colon_from_string(&":::".to_string()), "");
}

#[test]
fn white_space_is_trimmed_at_both_ends() {
    assert_eq!(trim_string("  a b \t\n"), "a b");
    assert_eq!(trim_string("\u{a0}\u{2003}x\u{3000}\u{85}"), "x");
    assert_eq!(trim_string(" \r\n "), "");
    assert_eq!(trim_string(""), "");
    assert_eq!(trim_string("x"), "x");
    assert_eq!(trim_string("\u{200b}x"), "\u{200b}x");
}

#[test]
fn error_text_is_what_gets_classified() {
    let error = Error::RunningRemoteQuery {
        source: "transport, details: [], message: boom (status: Unavailable: x".to_string(),
    };
    let reply = Ioxsql::reply(Err(error));
    assert_eq!(
        reply,
        "Error running remote query: transport, details: [], message: boom (status: Unavailable: x"
    );
    match Ioxsql::classify(reply) {
        Classified::Failure(handler) => {
            let record = handler.nu_iox_error().unwrap();
            assert_eq!(record.header(), "Error running remote query transport");
            assert_eq!(record.message(), "boom");
            assert_eq!(record.status(), "Unavailable");
        }
        Classified::Data(_) => panic!("taken for a table"),
    }
    assert_eq!(Ioxsql::reply(Ok("a\n1\n".to_string())), "a\n1\n");
}

#[test]
fn record_is_shown_line_by_line() {
    assert_eq!(
        NuIoxError::build(FAILURE).print(),
        vec!["TableNotFound", "\"...\"", "\"404\"", "\"Table not found\""]
    );
    assert_eq!(
        NuIoxError::build(" a\\b:\t, details: , message:  m status: \n5 ").print(),
        vec!["TableNotFound", "\"a\\\\b\"", "\"5\"", "\"m\""]
    );
}

#[test]
fn decimal_numerals() {
    let cases: Vec<(u128, &str)> = vec![
        (0, "0"),
        (7, "7"),
        (10, "10"),
        (109, "109"),
        (1_000_000, "1000000"),
        (u64::MAX as u128, "18446744073709551615"),
        (u128::MAX, "340282366920938463463374607431768211455"),
    ];
    for (number, numeral) in cases {
        let mut out = vec!['#'];
        push_decimal(number, &mut out);
        assert_eq!(string_of(&out), format!("#{}", numeral));
    }
}

#[test]
fn characters_of_a_text_and_back() {
    assert_eq!(chars_of("añ→b"), vec!['a', 'ñ', '→', 'b']);
    assert_eq!(chars_of(""), Vec::<char>::new());
    assert_eq!(string_of(&vec!['a', 'ñ', '→', 'b']), "añ→b");
    assert_eq!(string_of(&vec![]), "");
}

#[test]
fn listed_characters_are_removed() {
    let unwanted = vec!['a', 'ñ'];
    assert!(lists(&unwanted, 'ñ'));
    assert!(!lists(&unwanted, 'n'));
    assert!(!lists(&vec![], 'a'));
    assert_eq!(remove_chars(&chars_of("bañana"), &unwanted), chars_of("bn"));
    assert_eq!(remove_chars(&chars_of("bañana"), &vec![]), chars_of("bañana"));
    assert_eq!(trim_blanks(&chars_of(" \u{2028}a b\u{202f}")), chars_of("a b"));
}

#[test]
fn white_space_is_told_from_the_rest() {
    for c in ['\t', '\n', '\u{b}', '\u{c}', '\r', ' ', '\u{85}', '\u{a0}', '\u{1680}', '\u{2000}',
        '\u{2005}', '\u{200a}', '\u{2028}', '\u{2029}', '\u{202f}', '\u{205f}', '\u{3000}']
    {
        assert!(blank(c));
        assert!(c.is_whitespace());
    }
    for c in ['a', '0', '\u{8}', '\u{e}', '\u{1f}', '\u{200b}', '\u{180e}', '\u{feff}', '\u{2060}', '_'] {
        assert!(!blank(c));
        assert!(!c.is_whitespace());
    }
}

#[test]
fn white_space_is_what_the_language_takes_for_it() {
    let mut code = 0u32;
    while code <= 0x10ffff {
        if let Some(c) = char::from_u32(code) {
            assert_eq!(blank(c), c.is_whitespace());
        }
        code += 1;
    }
}

#[test]
fn run_raises_a_reply_without_markers_as_it_came() {
    let head = Span { start: 3, end: 9 };
    let failure = Ioxsql::run("rpc timed out".to_string(), head).unwrap_err();
    assert_eq!(failure.error, "rpc timed out");
    assert_eq!(failure.msg, "TableNotFound");
    assert_eq!(failure.span, Some(head));
}
