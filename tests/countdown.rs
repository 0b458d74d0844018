use date_countdown::calendar::CalendarDate;
use date_countdown::countdown::{CountdownError, DateCountDown};
use date_countdown::text::decimal_string;

fn date(y: i32, m: u32, d: u32) -> CalendarDate {
    CalendarDate::from_ymd(y, m, d).unwrap()
}

fn counter(y: i32, m: u32, d: u32) -> DateCountDown {
    DateCountDown::new(date(y, m, d), "/opt/bin/dates.txt".to_string())
}

fn lines(ls: &[&str]) -> Vec<String> {
    ls.iter().map(|s| s.to_string()).collect()
}

#[test]
fn future_date_counts_days_remaining() {
    let c = counter(2024, 1, 10);
    assert_eq!(c.parse_line("2024/01/15 Trip", 1), Ok("距离 Trip 还有 5 天".to_string()));
}

#[test]
fn past_date_counts_days_passed() {
    let c = counter(2024, 1, 10);
    assert_eq!(
        c.parse_line("2024-01-05 Deadline", 2),
        Ok("距离 Deadline 已经过去了 5 天".to_string())
    );
}

#[test]
fn same_date_is_today() {
    let c = counter(2024, 1, 10);
    assert_eq!(c.parse_line("2024-01-10 Birthday", 3), Ok("Birthday 就在今天".to_string()));
}

#[test]
fn whole_file_example_stops_at_bad_line() {
    let c = counter(2024, 1, 10);
    let report = c.run_lines(&lines(&[
        "2024/01/15 Trip",
        "2024-01-05 Deadline",
        "2024-01-10 Birthday",
        "badline",
    ]));
    assert_eq!(
        report.printed,
        lines(&["距离 Trip 还有 5 天", "距离 Deadline 已经过去了 5 天", "Birthday 就在今天"])
    );
    let err = report.error.unwrap();
    assert_eq!(err, CountdownError::MissingSeparator { line: 4 });
    assert_eq!(err.message(), "Failed to parse line 4: No spaces found.");
}

#[test]
fn run_numbers_lines_counting_skipped_ones() {
    let c = counter(2024, 1, 10);
    let report = c.run_lines(&lines(&["# comment", "", "2024-01-11 a", "oops"]));
    assert_eq!(report.printed, lines(&["距离 a 还有 1 天"]));
    assert_eq!(report.error, Some(CountdownError::MissingSeparator { line: 4 }));
}

#[test]
fn run_stops_at_first_failure() {
    let c = counter(2024, 1, 10);
    let report = c.run_lines(&lines(&["2024-02-30 x", "2024-01-11 y"]));
    assert!(report.printed.is_empty());
    assert!(matches!(report.error, Some(CountdownError::InvalidDate { line: 1, .. })));
}

#[test]
fn only_blank_and_comment_lines_print_nothing() {
    let c = counter(2024, 1, 10);
    let report = c.run_lines(&lines(&["", "# heading", "#2024-01-11 hidden", ""]));
    assert!(report.printed.is_empty());
    assert_eq!(report.error, None);
    let empty = c.run_lines(&Vec::new());
    assert!(empty.printed.is_empty());
    assert_eq!(empty.error, None);
}

#[test]
fn process_line_skips_blank_and_comment() {
    let c = counter(2024, 1, 10);
    assert_eq!(c.process_line("", 1), Ok(None));
    assert_eq!(c.process_line("# 2024-01-11 x", 2), Ok(None));
    assert_eq!(c.process_line("2024-01-11 x", 3), Ok(Some("距离 x 还有 1 天".to_string())));
}

#[test]
fn parsing_twice_gives_the_same_result() {
    let c = counter(2024, 1, 10);
    for line in ["2024/3/5 X", "2024-13-1 X", "nospace"] {
        assert_eq!(c.parse_line(line, 7), c.parse_line(line, 7));
    }
}

#[test]
fn slash_and_dash_dates_agree() {
    let c = counter(2024, 1, 10);
    let a = c.parse_line("2024/3/5 X", 1);
    let b = c.parse_line("2024-3-5 X", 1);
    assert_eq!(a, b);
    assert_eq!(a, Ok("距离 X 还有 55 天".to_string()));
}

#[test]
fn missing_separator_comes_before_date_parsing() {
    let c = counter(2024, 1, 10);
    assert_eq!(c.parse_line("2024/13/45", 9), Err(CountdownError::MissingSeparator { line: 9 }));
    assert_eq!(c.parse_line("garbage", 2), Err(CountdownError::MissingSeparator { line: 2 }));
}

#[test]
fn invalid_date_reports_normalized_token() {
    let c = counter(2024, 1, 10);
    match c.parse_line("2024/13/45 X", 6) {
        Err(CountdownError::InvalidDate { line, token, reason }) => {
            assert_eq!(line, 6);
            assert_eq!(token, "2024-13-45");
            assert!(!reason.is_empty());
            let msg = CountdownError::InvalidDate { line, token, reason: reason.clone() }.message();
            assert_eq!(
                msg,
                format!("Failed to parse line 6: Illegal date expression 2024-13-45: {}.", reason)
            );
        }
        other => panic!("unexpected {:?}", other),
    }
}

#[test]
fn label_keeps_its_spaces() {
    let c = counter(2024, 1, 10);
    assert_eq!(
        c.parse_line("2024-1-12 New  year party ", 1),
        Ok("距离 New  year party  还有 2 天".to_string())
    );
    assert_eq!(c.parse_line("2024-1-10 ", 1), Ok(" 就在今天".to_string()));
}

#[test]
fn leading_space_gives_empty_date() {
    let c = counter(2024, 1, 10);
    assert!(matches!(
        c.parse_line(" 2024-1-10 x", 1),
        Err(CountdownError::InvalidDate { line: 1, .. })
    ));
}

#[test]
fn long_spans_across_years() {
    let c = counter(2024, 1, 10);
    assert_eq!(c.parse_line("2025-01-10 a", 1), Ok("距离 a 还有 366 天".to_string()));
    assert_eq!(c.parse_line("2023-01-10 b", 1), Ok("距离 b 已经过去了 365 天".to_string()));
    assert_eq!(c.parse_line("1970-01-01 c", 1), Ok("距离 c 已经过去了 19732 天".to_string()));
}

#[test]
fn message_for_uses_day_difference() {
    let c = counter(2000, 2, 28);
    assert_eq!(c.message_for(&date(2000, 3, 1), "leap"), "距离 leap 还有 2 天");
    assert_eq!(c.message_for(&date(1999, 2, 28), "back"), "距离 back 已经过去了 365 天");
    assert_eq!(c.message_for(&date(2000, 2, 28), "now"), "now 就在今天");
}

#[test]
fn from_ymd_accepts_only_real_days() {
    assert!(CalendarDate::from_ymd(2024, 2, 29).is_some());
    assert!(CalendarDate::from_ymd(2023, 2, 29).is_none());
    assert!(CalendarDate::from_ymd(1900, 2, 29).is_none());
    assert!(CalendarDate::from_ymd(2000, 2, 29).is_some());
    assert!(CalendarDate::from_ymd(2024, 0, 1).is_none());
    assert!(CalendarDate::from_ymd(2024, 4, 31).is_none());
    assert!(CalendarDate::from_ymd(262142, 12, 31).is_some());
    assert!(CalendarDate::from_ymd(262143, 1, 1).is_none());
    assert!(CalendarDate::from_ymd(-262143, 1, 1).is_some());
    assert!(CalendarDate::from_ymd(-262144, 12, 31).is_none());
    let d = date(2024, 3, 5);
    assert_eq!((d.year(), d.month(), d.day()), (2024, 3, 5));
}

#[test]
fn file_error_messages() {
    let c = counter(2024, 1, 10);
    assert_eq!(c.date_file_path(), "/opt/bin/dates.txt");
    assert_eq!(c.today(), date(2024, 1, 10));
    assert_eq!(
        c.open_error("No such file".to_string()).message(),
        "Failed to open file \"/opt/bin/dates.txt\": No such file"
    );
    assert_eq!(
        c.read_error(3, "bad data".to_string()).message(),
        "Failed to read file \"/opt/bin/dates.txt\":3: bad data"
    );
}

#[test]
fn decimal_numerals() {
    assert_eq!(decimal_string(0), "0");
    assert_eq!(decimal_string(7), "7");
    assert_eq!(decimal_string(10), "10");
    assert_eq!(decimal_string(1234567890), "1234567890");
    assert_eq!(decimal_string(u64::MAX), u64::MAX.to_string());
}
