use restream::timecode::{parse_time_to_seconds, parse_time_to_time};

#[test]
fn parses_hours_minutes_seconds() {
    assert_eq!(parse_time_to_time("01:02:03"), 3723);
}

#[test]
fn parses_minutes_seconds() {
    assert_eq!(parse_time_to_time("02:05"), 125);
}

#[test]
fn parses_bare_seconds() {
    assert_eq!(parse_time_to_time("45"), 45);
}

#[test]
fn empty_code_is_zero() {
    assert_eq!(parse_time_to_time(""), 0);
}

#[test]
fn non_numeric_fields_are_zero() {
    assert_eq!(parse_time_to_time("x:y"), 0);
}

#[test]
fn one_bad_field_counts_as_zero() {
    assert_eq!(parse_time_to_time("1:xx:03"), 3603);
    assert_eq!(parse_time_to_time("x:10"), 10);
    assert_eq!(parse_time_to_time("10:"), 600);
    assert_eq!(parse_time_to_time(":7"), 7);
}

#[test]
fn four_fields_are_zero() {
    assert_eq!(parse_time_to_time("1:2:3:4"), 0);
    assert_eq!(parse_time_to_time(":::"), 0);
}

#[test]
fn signs_are_read_as_the_integer_parser_reads_them() {
    assert_eq!(parse_time_to_time("+5"), 5);
    assert_eq!(parse_time_to_time("-5"), -5);
    assert_eq!(parse_time_to_time("-1:00"), -60);
    assert_eq!(parse_time_to_time("+"), 0);
    assert_eq!(parse_time_to_time("-"), 0);
    assert_eq!(parse_time_to_time("5-"), 0);
    assert_eq!(parse_time_to_time(" 5"), 0);
    assert_eq!(parse_time_to_time("5 "), 0);
    assert_eq!(parse_time_to_time("1.5"), 0);
}

#[test]
fn fields_beyond_thirty_two_bits_are_zero() {
    assert_eq!(parse_time_to_time("2147483647"), 2147483647);
    assert_eq!(parse_time_to_time("2147483648"), 0);
    assert_eq!(parse_time_to_time("-2147483648"), -2147483648);
    assert_eq!(parse_time_to_time("-2147483649"), 0);
    assert_eq!(parse_time_to_time("99999999999999999999999"), 0);
    assert_eq!(parse_time_to_time("0000000000000000000000012"), 12);
}

#[test]
fn large_hours_do_not_wrap() {
    assert_eq!(parse_time_to_time("2147483647:00:00"), 2147483647i64 * 3600);
    assert_eq!(
        parse_time_to_time("2147483647:2147483647:2147483647"),
        2147483647i64 * 3661
    );
}

#[test]
fn every_field_agrees_with_the_standard_integer_parser() {
    let samples = [
        "", "0", "7", "007", "+7", "-7", "--7", "+-7", "7+", "a", "1a", "a1", " 1", "1 ", "١",
        "2147483647", "2147483648", "-2147483648", "-2147483649", "+2147483647", "+2147483648",
        "00000000002147483647", "1_000", "0x10", "1e3", "12345678901",
    ];
    for s in samples {
        let expected = s.parse::<i32>().unwrap_or(0) as i64;
        assert_eq!(parse_time_to_time(s), expected);
    }
}

#[test]
fn non_ascii_text_is_handled() {
    assert_eq!(parse_time_to_time("é:10"), 10);
    assert_eq!(parse_time_to_time("１２"), 0);
}

#[test]
fn both_names_agree() {
    for s in ["01:02:03", "02:05", "45", "", "x:y", "1:2:3:4"] {
        assert_eq!(parse_time_to_seconds(s), parse_time_to_time(s));
    }
}

#[test]
fn characters_are_listed_in_order() {
    assert_eq!(restream::timecode::chars_of(""), Vec::<char>::new());
    assert_eq!(restream::timecode::chars_of("1:é"), vec!['1', ':', 'é']);
}

#[test]
fn fields_are_bounded_by_separators() {
    let chars = restream::timecode::chars_of("01:2:");
    assert_eq!(restream::timecode::field_bounds(&chars), vec![(0, 2), (3, 4), (5, 5)]);
    let chars = restream::timecode::chars_of("");
    assert_eq!(restream::timecode::field_bounds(&chars), vec![(0, 0)]);
    let chars = restream::timecode::chars_of("::");
    assert_eq!(restream::timecode::field_bounds(&chars), vec![(0, 0), (1, 1), (2, 2)]);
}

#[test]
fn one_field_is_read_where_it_stands() {
    let chars = restream::timecode::chars_of("12:-7:x9");
    assert_eq!(restream::timecode::parse_field_at(&chars, 0, 2), Some(12));
    assert_eq!(restream::timecode::parse_field_at(&chars, 3, 5), Some(-7));
    assert_eq!(restream::timecode::parse_field_at(&chars, 6, 8), None);
    assert_eq!(restream::timecode::parse_field_at(&chars, 7, 8), Some(9));
    assert_eq!(restream::timecode::parse_field_at(&chars, 2, 2), None);
    assert_eq!(restream::timecode::parse_field_at(&chars, 0, 5), None);
}
