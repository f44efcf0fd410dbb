use chrono::TimeZone;
use zsh_histdb_skim::format::{date_pattern, listing_line};
use zsh_histdb_skim::history::History;
use zsh_histdb_skim::location::Location;
use zsh_histdb_skim::outside::LocalClock;
use zsh_histdb_skim::text::{i64_to_string, pad_right, parse_i64, u64_to_string};
use zsh_histdb_skim::title::generate_title;

fn record(cmd: &str, start: u64, duration: Option<i64>) -> History {
    History::from_row(
        17,
        cmd.to_string(),
        start,
        None,
        duration,
        3,
        42,
        "h1".to_string(),
        "/home/me".to_string(),
    )
}

#[test]
fn from_row_computes_the_search_range() {
    let h = record("ls -la", 0, None);
    assert_eq!(History::FORMAT_DATE_LENGTH, 10);
    assert_eq!(History::COMMAND_START, 11);
    assert_eq!(h.searchrange, [(11, 17)]);
    assert_eq!(h.get_matching_ranges(), Some(&[(11usize, 17usize)][..]));
    assert_eq!(h.command(), "ls -la");
    assert_eq!(record("", 0, None).searchrange, [(11, 11)]);
    assert_eq!(record("é", 0, None).searchrange, [(11, 13)]);
}

#[test]
fn clone_keeps_every_field() {
    let h = record("make", 9, Some(4));
    let c = h.clone();
    assert_eq!(c.id, 17);
    assert_eq!(c.cmd, "make");
    assert_eq!(c.start, 9);
    assert_eq!(c.exit_status, None);
    assert_eq!(c.duration, Some(4));
    assert_eq!(c.count, 3);
    assert_eq!(c.session, 42);
    assert_eq!(c.host, "h1");
    assert_eq!(c.dir, "/home/me");
    assert_eq!(c.searchrange, h.searchrange);
}

#[test]
fn numbers_are_written_in_decimal() {
    assert_eq!(u64_to_string(0), "0");
    assert_eq!(u64_to_string(7), "7");
    assert_eq!(u64_to_string(10), "10");
    assert_eq!(u64_to_string(1234567890), "1234567890");
    assert_eq!(u64_to_string(u64::MAX), "18446744073709551615");
    assert_eq!(i64_to_string(0), "0");
    assert_eq!(i64_to_string(-1), "-1");
    assert_eq!(i64_to_string(305), "305");
    assert_eq!(i64_to_string(i64::MAX), "9223372036854775807");
    assert_eq!(i64_to_string(i64::MIN), "-9223372036854775808");
}

#[test]
fn numbers_are_read_from_decimal() {
    assert_eq!(parse_i64("0"), Some(0));
    assert_eq!(parse_i64("42"), Some(42));
    assert_eq!(parse_i64("+42"), Some(42));
    assert_eq!(parse_i64("-42"), Some(-42));
    assert_eq!(parse_i64("007"), Some(7));
    assert_eq!(parse_i64("-0"), Some(0));
    assert_eq!(parse_i64("9223372036854775807"), Some(i64::MAX));
    assert_eq!(parse_i64("-9223372036854775808"), Some(i64::MIN));
    assert_eq!(parse_i64("0000000000000000000000000000009"), Some(9));
    assert_eq!(parse_i64("9223372036854775808"), None);
    assert_eq!(parse_i64("-9223372036854775809"), None);
    assert_eq!(parse_i64("99999999999999999999999999"), None);
    assert_eq!(parse_i64(""), None);
    assert_eq!(parse_i64("-"), None);
    assert_eq!(parse_i64("+"), None);
    assert_eq!(parse_i64("--1"), None);
    assert_eq!(parse_i64("1-"), None);
    assert_eq!(parse_i64(" 1"), None);
    assert_eq!(parse_i64("1 "), None);
    assert_eq!(parse_i64("12a"), None);
    assert_eq!(parse_i64("١٢"), None);
}

#[test]
fn reading_agrees_with_the_standard_library() {
    for text in ["0", "-0", "+5", "17", "-17", "", "x", "1x", "+", "9223372036854775808", "00012"] {
        assert_eq!(parse_i64(text), text.parse::<i64>().ok());
    }
}

#[test]
fn written_numbers_are_read_back() {
    for v in [0, 1, -1, 9, 10, -10, 99, 100, 4711, -4711, i64::MAX, i64::MIN, i64::MIN + 1] {
        assert_eq!(parse_i64(&i64_to_string(v)), Some(v));
        assert_eq!(i64_to_string(v), v.to_string());
    }
}

#[test]
fn padding_fills_up_to_the_width() {
    assert_eq!(pad_right("ab", 5), "ab   ");
    assert_eq!(pad_right("", 3), "   ");
    assert_eq!(pad_right("abcde", 5), "abcde");
    assert_eq!(pad_right("abcdef", 5), "abcdef");
    assert_eq!(pad_right("abc", 0), "abc");
    assert_eq!(pad_right("é", 3), "é  ");
    assert_eq!(pad_right("Runtime", 20), format!("{:20}", "Runtime"));
}

#[test]
fn listing_line_has_the_date_in_a_column_of_ten() {
    assert_eq!(listing_line("12:30", "ls -la"), "12:30      ls -la");
    assert_eq!(listing_line("24/12/2023", "make"), "24/12/2023 make");
    assert_eq!(listing_line("24/12/2023 12:30", "make"), "24/12/2023 12:30 make");
    assert_eq!(listing_line("12:30", "ls"), format!("{:10} {}", "12:30", "ls"));
}

#[test]
fn missing_numbers_get_the_none_mark() {
    assert_eq!(History::format_or_none(None), "\x1b[37;1m<NONE>\x1b[0m");
    assert_eq!(History::format_or_none(Some(0)), "0");
    assert_eq!(History::format_or_none(Some(-3)), "-3");
    assert_eq!(History::format_or_none(Some(127)), "127");
}

#[test]
fn durations_are_written_in_words() {
    assert_eq!(record("c", 0, Some(9420)).format_duration(), "2h 37m");
    assert_eq!(record("c", 0, Some(0)).format_duration(), "0s");
    assert_eq!(record("c", 0, Some(61)).format_duration(), "1m 1s");
    assert_eq!(record("c", 0, None).format_duration(), "\x1b[37;1m<NONE>\x1b[0m");
    assert_eq!(
        record("c", 0, Some(-1)).format_duration(),
        humantime::format_duration(std::time::Duration::from_secs(u64::MAX)).to_string()
    );
    assert_eq!(
        record("c", 0, Some(i64::MIN)).format_duration(),
        humantime::format_duration(std::time::Duration::from_secs(1 << 63)).to_string()
    );
}

fn clock(timestamp: i64, hour: u32, minute: u32, second: u32) -> LocalClock {
    LocalClock { timestamp, hour, minute, second }
}

#[test]
fn date_pattern_follows_the_day() {
    let now = clock(1_000_000, 1, 2, 3);
    let midnight = 1_000_000 - 3723;
    assert_eq!(date_pattern(true, 0, &now, "%d/%m/%Y"), "%d/%m/%Y %H:%M");
    assert_eq!(date_pattern(true, 2_000_000, &now, "%m/%d/%Y"), "%m/%d/%Y %H:%M");
    assert_eq!(date_pattern(false, midnight + 1, &now, "%d/%m/%Y"), "%H:%M");
    assert_eq!(date_pattern(false, midnight, &now, "%d/%m/%Y"), "%d/%m/%Y");
    assert_eq!(date_pattern(false, midnight - 1, &now, "%d/%m/%Y"), "%d/%m/%Y");
    assert_eq!(date_pattern(false, 1_000_000, &now, ""), "%H:%M");
    assert_eq!(date_pattern(false, 0, &now, ""), "");
    assert_eq!(date_pattern(false, i64::MAX, &clock(i64::MIN, 23, 59, 59), "x"), "%H:%M");
    assert_eq!(date_pattern(false, i64::MIN, &clock(i64::MIN, 23, 59, 59), "x"), "%H:%M");
    assert_eq!(date_pattern(false, i64::MIN, &clock(i64::MIN, 0, 0, 0), "x"), "x");
}

#[test]
fn old_commands_show_their_date() {
    let h = record("ls", 86_400 * 365, None);
    assert_eq!(h.format_date(false, "%s"), Some("31536000".to_string()));
    assert_eq!(h.format_date(false, "day"), Some("day".to_string()));
    assert_eq!(h.text("%s"), Some("31536000   ls".to_string()));
    let date = h.format_date(false, "%d/%m/%Y").unwrap();
    assert_eq!(date.len(), 10);
    assert_eq!(h.text("%d/%m/%Y"), Some(format!("{} ls", date)));
}

#[test]
fn full_dates_carry_the_time_of_day() {
    let h = record("ls", 86_400 * 365, None);
    let full = h.format_date(true, "%s").unwrap();
    assert!(full.starts_with("31536000 "));
    assert_eq!(full.len(), "31536000 00:00".len());
    assert_eq!(full.as_bytes()[full.len() - 3], b':');
}

#[test]
fn commands_of_the_future_show_the_time_of_day() {
    let h = record("ls", 32_503_680_000, None);
    let time = h.format_date(false, "%s").unwrap();
    assert_eq!(time.len(), 5);
    assert_eq!(time.as_bytes()[2], b':');
}

#[test]
fn start_times_beyond_the_calendar_fall_back_to_the_epoch() {
    let h = record("ls", 1 << 62, None);
    assert_eq!(h.format_date(false, "%s"), Some("0".to_string()));
    let h = record("ls", (1 << 63) + 5, None);
    assert_eq!(h.format_date(false, "%s"), Some("0".to_string()));
}

#[test]
fn start_times_are_taken_as_signed_seconds() {
    let h = record("ls", u64::MAX, None);
    assert_eq!(h.format_date(false, "%s"), Some("-1".to_string()));
    let h = record("ls", u64::MAX - 86_399, None);
    assert_eq!(h.format_date(false, "%s"), Some("-86400".to_string()));
}

#[test]
fn a_bad_date_pattern_gives_no_text() {
    let h = record("ls", 86_400 * 365, None);
    assert_eq!(h.format_date(false, "%Q"), None);
    assert_eq!(h.text("%Q"), None);
    assert_eq!(h.preview(80, "%Q"), None);
}

#[test]
fn preview_lists_the_details() {
    let h = record("ls -la", 86_400 * 365, Some(9420));
    let expected = "\x1b[1mDetails for 17\x1b[0m\n\n\
        \x1b[1mRuntime             \x1b[0m2h 37m\n\
        \x1b[1mHost                \x1b[0mh1\n\
        \x1b[1mExecuted            \x1b[0m3\n\
        \x1b[1mDirectory           \x1b[0m/home/me\n\
        \x1b[1mExit Status         \x1b[0m\x1b[37;1m<NONE>\x1b[0m\n\
        \x1b[1mSession             \x1b[0m42\n\
        \x1b[1mStart Time          \x1b[0m31536000\n\
        \x1b[1mCommand\x1b[0m\n\nls -la\n";
    assert_eq!(h.preview(80, "%s"), Some(expected.to_string()));
    assert_eq!(h.preview_with("2h 37m", "31536000", "ls -la"), expected);
}

#[test]
fn preview_wraps_the_command() {
    let h = record("Memory safety without garbage collection.", 86_400 * 365, None);
    let text = h.preview(15, "%s").unwrap();
    assert!(text.ends_with(
        "\x1b[1mCommand\x1b[0m\n\nMemory safety\nwithout garbage\ncollection.\n"
    ));
    assert!(text.contains("\x1b[1mRuntime             \x1b[0m\x1b[37;1m<NONE>\x1b[0m\n"));
}

#[test]
fn title_names_scope_and_grouping() {
    assert_eq!(
        generate_title(&Location::Session, true, "42"),
        "Session location history 42\n\
         F1: Session  F2: Directory  F3: Host  F4: Everywhere  Ctrl-R: Next  F5: Group on\n"
    );
    assert_eq!(
        generate_title(&Location::Directory, false, "/x"),
        "Directory location history /x\n\
         F1: Session  F2: Directory  F3: Host  F4: Everywhere  Ctrl-R: Next  F5: Group off\n"
    );
    assert!(generate_title(&Location::Machine, true, "h1").starts_with("Machine location history h1\n"));
    assert!(generate_title(&Location::Everywhere, true, "").starts_with("Everywhere \n"));
}

#[test]
fn search_range_marks_the_command_in_the_line() {
    for (date, cmd) in [("12:30", "ls -la"), ("24/12/2023", "échø 'ü'"), ("", ""), ("1", "x")] {
        let h = record(cmd, 0, None);
        let line = listing_line(date, cmd);
        let (from, to) = h.searchrange[0];
        assert_eq!(to, line.len());
        assert_eq!(&line.as_bytes()[from..to], cmd.as_bytes());
    }
}

#[test]
fn dates_are_shown_in_the_local_zone() {
    for start in [0u64, 86_400 * 365, 1_000_000_000, 1_700_000_000, 4_102_444_800] {
        let h = record("ls", start, None);
        let local = chrono::Local.timestamp_opt(start as i64, 0).unwrap();
        for pattern in ["%d/%m/%Y", "%m/%d/%Y", "%Y-%m-%d %H:%M:%S %z", "%c %Z"] {
            let full = format!("{} %H:%M", pattern);
            assert_eq!(h.format_date(true, pattern), Some(local.format(&full).to_string()));
        }
        let shown = h.format_date(false, "%d/%m/%Y").unwrap();
        assert!(
            shown == local.format("%d/%m/%Y").to_string()
                || shown == local.format("%H:%M").to_string()
        );
    }
}
