//! How a record is shown: the listing line and the preview.

use vstd::prelude::*;
use crate::history::History;
use crate::outside::{
    calendar_seconds, duration_text, humantime_format, local_clock, local_moment,
    offset_time_text, textwrap_fill, time_text, wrapped_text, LocalClock,
};
use crate::text::{decimal_text, i64_to_string, pad_right, padded};
use vstd::utf8::{encode_utf8, is_ascii_chars, is_ascii_chars_encode_utf8};

verus! {

/// Width of the name column in the preview.
pub const PREVIEW_NAME_WIDTH: usize = 20;

/// What stands for a value that the store does not have.
pub open spec fn none_text() -> Seq<char> {
    "\x1b[37;1m<NONE>\x1b[0m"@
}

/// A number in decimal, or the mark for a missing value.
pub open spec fn or_none_text(x: Option<i64>) -> Seq<char> {
    match x {
        Some(v) => decimal_text(v as int),
        None => none_text(),
    }
}

/// The seconds that a stored duration stands for. The store holds a
/// signed number; it is taken as unsigned, bit for bit.
pub open spec fn duration_seconds(d: i64) -> u64 {
    if d >= 0 {
        d as u64
    } else {
        (d + 0x1_0000_0000_0000_0000) as u64
    }
}

/// A stored start time as the signed number of seconds that the calendar
/// works with, bit for bit.
pub open spec fn start_seconds(start: u64) -> i64 {
    if start <= i64::MAX {
        start as i64
    } else {
        (start - 0x1_0000_0000_0000_0000) as i64
    }
}

/// The moment at which the day of `now` began, in seconds since the
/// epoch.
pub open spec fn day_beginning(now: LocalClock) -> int {
    now.timestamp - (now.hour * 3600 + now.minute * 60 + now.second)
}

/// The pattern by which a start time is shown: date and time of day for
/// the full form; else the time of day for a command of today and the date
/// for an older one.
pub open spec fn date_pattern_text(
    full: bool,
    start_timestamp: i64,
    now: LocalClock,
    date_format: Seq<char>,
) -> Seq<char> {
    if full {
        date_format + " %H:%M"@
    } else if start_timestamp > day_beginning(now) {
        "%H:%M"@
    } else {
        date_format
    }
}

/// Chooses the pattern for a start time.
pub fn date_pattern(full: bool, start_timestamp: i64, now: &LocalClock, date_format: &str) -> (pattern:
    String)
    ensures
        pattern@ == date_pattern_text(full, start_timestamp, *now, date_format@),
{
    let seconds_since_midnight: i128 = (now.hour as i128) * 3600 + (now.minute as i128) * 60 + (
    now.second as i128);
    let day_beginning: i128 = (now.timestamp as i128) - seconds_since_midnight;
    if full {
        let mut dateinfo = String::from_str("");
        dateinfo.append(date_format);
        dateinfo.append(" %H:%M");
        proof {
            reveal_strlit("");
        }
        dateinfo
    } else if (start_timestamp as i128) > day_beginning {
        String::from_str("%H:%M")
    } else {
        String::from_str(date_format)
    }
}

/// What an optional text says.
pub open spec fn text_view(text: Option<String>) -> Option<Seq<char>> {
    match text {
        Some(text) => Some(text@),
        None => None,
    }
}

/// The listing line of a command: the date in a column of ten, a blank,
/// the command.
pub open spec fn listing_text(date: Seq<char>, command: Seq<char>) -> Seq<char> {
    padded(date, History::FORMAT_DATE_LENGTH as nat) + " "@ + command
}

/// Lays out a listing line.
pub fn listing_line(date: &str, command: &str) -> (line: String)
    ensures
        line@ == listing_text(date@, command@),
{
    let mut line = pad_right(date, History::FORMAT_DATE_LENGTH);
    line.append(" ");
    line.append(command);
    line
}

/// The bytes of two texts, one behind the other, are the bytes of the one
/// behind the bytes of the other.
pub proof fn lemma_bytes_of_concat(first: Seq<char>, second: Seq<char>)
    ensures
        encode_utf8(first + second) == encode_utf8(first) + encode_utf8(second),
    decreases first.len(),
{
    if first.len() > 0 {
        lemma_bytes_of_concat(first.drop_first(), second);
        assert((first + second).drop_first() == first.drop_first() + second);
    }
}

/// The search range of a record is its command within its listing line:
/// where the date is plain ASCII and fits its column, the bytes of the
/// line from the start of the range to its end are the bytes of the
/// command, and the line ends where the range ends.
pub proof fn lemma_search_range_is_the_command(date: Seq<char>, command: Seq<char>)
    requires
        is_ascii_chars(date),
        date.len() <= History::FORMAT_DATE_LENGTH,
        History::command_len(command) + History::COMMAND_START <= usize::MAX,
    ensures
        ({
            let line = encode_utf8(listing_text(date, command));
            let range = History::highlight(command);
            &&& range.0 <= range.1 == line.len()
            &&& line.subrange(range.0 as int, range.1 as int) == encode_utf8(command)
        }),
{
    let column = padded(date, History::FORMAT_DATE_LENGTH as nat) + " "@;
    reveal_strlit(" ");
    assert(is_ascii_chars(column) && column.len() == History::COMMAND_START);
    is_ascii_chars_encode_utf8(column);
    lemma_bytes_of_concat(column, command);
}

/// One row of the preview: the name in bold in its column, then the
/// value.
pub open spec fn preview_row(name: Seq<char>, value: Seq<char>) -> Seq<char> {
    "\x1b[1m"@ + padded(name, PREVIEW_NAME_WIDTH as nat) + "\x1b[0m"@ + value + "\n"@
}

/// Adds one row to the preview.
fn push_row(information: &mut String, name: &str, value: &str)
    ensures
        final(information)@ == old(information)@ + preview_row(name@, value@),
{
    let label = pad_right(name, PREVIEW_NAME_WIDTH);
    information.append("\x1b[1m");
    information.append(label.as_str());
    information.append("\x1b[0m");
    information.append(value);
    information.append("\n");
}

/// The preview of a record, given the texts of its runtime and start time
/// and its command broken into lines: a heading with the record's id, a
/// row for each detail, and the command.
pub open spec fn preview_text(
    record: History,
    runtime: Seq<char>,
    start_time: Seq<char>,
    command: Seq<char>,
) -> Seq<char> {
    "\x1b[1mDetails for "@ + decimal_text(record.id as int) + "\x1b[0m\n\n"@ + preview_row(
        "Runtime"@,
        runtime,
    ) + preview_row("Host"@, record.host@) + preview_row(
        "Executed"@,
        decimal_text(record.count as int),
    ) + preview_row("Directory"@, record.dir@) + preview_row(
        "Exit Status"@,
        or_none_text(record.exit_status),
    ) + preview_row("Session"@, decimal_text(record.session as int)) + preview_row(
        "Start Time"@,
        start_time,
    ) + "\x1b[1mCommand\x1b[0m\n\n"@ + command + "\n"@
}

impl History {
    /// The start time as the calendar holds it, in seconds since the
    /// epoch.
    pub open spec fn start_timestamp(&self) -> i64 {
        calendar_seconds(start_seconds(self.start))
    }

    /// The text of the start time for a given reading of the clock and a
    /// given offset of local time from UTC: the calendar's text for the
    /// start time with the pattern that the reading calls for.
    pub open spec fn date_text(
        &self,
        full: bool,
        date_format: Seq<char>,
        now: LocalClock,
        offset: i32,
    ) -> Option<Seq<char>> {
        time_text(
            self.start_timestamp(),
            offset,
            date_pattern_text(full, self.start_timestamp(), now, date_format),
        )
    }

    /// Whether `text` is the text of the start time for some reading of
    /// the clock and some offset of local time from UTC. These two are all
    /// that the machine adds to the record and the pattern.
    pub open spec fn shows_date(
        &self,
        full: bool,
        date_format: Seq<char>,
        text: Option<Seq<char>>,
    ) -> bool {
        exists|now: LocalClock, offset: i32|
            #![trigger self.date_text(full, date_format, now, offset)]
            {
                &&& now.hour < 24
                &&& now.minute < 60
                &&& now.second < 60
                &&& -86_400 < offset < 86_400
                &&& text == self.date_text(full, date_format, now, offset)
            }
    }

    /// The listing line for a given text of the start time; none where
    /// there is no such text.
    pub open spec fn line_text(&self, date: Option<Seq<char>>) -> Option<Seq<char>> {
        match date {
            Some(date) => Some(listing_text(date, self.cmd@)),
            None => None,
        }
    }

    /// The preview for a window of `width` columns and a given text of the
    /// start time; none where there is no such text.
    pub open spec fn preview_for(&self, width: usize, start_time: Option<Seq<char>>) -> Option<
        Seq<char>,
    > {
        match start_time {
            Some(start_time) => Some(
                preview_text(
                    *self,
                    self.runtime_text(),
                    start_time,
                    wrapped_text(self.cmd@, width),
                ),
            ),
            None => None,
        }
    }

    /// The text of the runtime: what humantime writes for the stored
    /// seconds, or the mark for a missing value.
    pub open spec fn runtime_text(&self) -> Seq<char> {
        match self.duration {
            Some(d) => duration_text(duration_seconds(d)),
            None => none_text(),
        }
    }

    /// Shows a number, or the mark for a missing value.
    pub fn format_or_none(x: Option<i64>) -> (text: String)
        ensures
            text@ == or_none_text(x),
    {
        match x {
            Some(v) => i64_to_string(v),
            None => String::from_str("\x1b[37;1m<NONE>\x1b[0m"),
        }
    }

    /// Shows how long the command ran, in words, or the mark for a
    /// missing value.
    pub fn format_duration(&self) -> (text: String)
        ensures
            text@ == self.runtime_text(),
    {
        match self.duration {
            Some(d) => {
                let seconds: u64 = if d >= 0 {
                    d as u64
                } else {
                    u64::MAX - ((-(d + 1)) as u64)
                };
                humantime_format(seconds)
            },
            None => History::format_or_none(self.duration),
        }
    }

    /// Shows when the command started, in the local time zone: date and
    /// time of day if `full`, else the time of day for a command of today
    /// and the date for an older one. `date_format` is the pattern for the
    /// date.
    ///
    /// The result is the calendar's text for the start time with the
    /// pattern that the clock calls for, at the offset of the local zone.
    /// It is `None` exactly where the calendar has no text for these.
    pub fn format_date(&self, full: bool, date_format: &str) -> (text: Option<String>)
        ensures
            self.shows_date(full, date_format@, text_view(text)),
    {
        let seconds: i64 = if self.start <= 0x7fff_ffff_ffff_ffffu64 {
            self.start as i64
        } else {
            -((u64::MAX - self.start) as i64) - 1
        };
        assert(seconds == start_seconds(self.start));
        let moment = local_moment(seconds);
        let now = local_clock();
        let pattern = date_pattern(full, moment.timestamp, &now, date_format);
        let text = offset_time_text(moment.timestamp, moment.offset, pattern.as_str());
        assert(text_view(text) == self.date_text(full, date_format@, now, moment.offset));
        text
    }

    /// The listing line: the start time in its column, then the command.
    /// It is `None` exactly where the start time has no text.
    pub fn text(&self, date_format: &str) -> (line: Option<String>)
        ensures
            exists|date: Option<Seq<char>>|
                #![trigger self.shows_date(false, date_format@, date)]
                self.shows_date(false, date_format@, date) && text_view(line) == self.line_text(
                    date,
                ),
    {
        let date = self.format_date(false, date_format);
        let line = match &date {
            Some(date) => Some(listing_line(date.as_str(), self.cmd.as_str())),
            None => None,
        };
        assert(self.shows_date(false, date_format@, text_view(date)) && text_view(line)
            == self.line_text(text_view(date)));
        line
    }

    /// Lays out the preview from the texts that the outside world
    /// supplies.
    pub fn preview_with(&self, runtime: &str, start_time: &str, command: &str) -> (information:
        String)
        ensures
            information@ == preview_text(*self, runtime@, start_time@, command@),
    {
        let mut information = String::from_str("\x1b[1mDetails for ");
        information.append(i64_to_string(self.id).as_str());
        information.append("\x1b[0m\n\n");
        push_row(&mut information, "Runtime", runtime);
        push_row(&mut information, "Host", self.host.as_str());
        push_row(&mut information, "Executed", i64_to_string(self.count).as_str());
        push_row(&mut information, "Directory", self.dir.as_str());
        push_row(
            &mut information,
            "Exit Status",
            History::format_or_none(self.exit_status).as_str(),
        );
        push_row(&mut information, "Session", i64_to_string(self.session).as_str());
        push_row(&mut information, "Start Time", start_time);
        information.append("\x1b[1mCommand\x1b[0m\n\n");
        information.append(command);
        information.append("\n");
        information
    }

    /// The preview of the record for a window of `width` columns: the
    /// layout of `preview_with` over the runtime in words, the start time
    /// as `format_date` shows it, and the command broken into lines of that
    /// width. It is `None` exactly where the start time has no text.
    pub fn preview(&self, width: usize, date_format: &str) -> (information: Option<String>)
        ensures
            exists|start_time: Option<Seq<char>>|
                #![trigger self.shows_date(false, date_format@, start_time)]
                self.shows_date(false, date_format@, start_time) && text_view(information)
                    == self.preview_for(width, start_time),
    {
        let runtime = self.format_duration();
        let start_time = self.format_date(false, date_format);
        let information = match &start_time {
            Some(start_time) => {
                let command = textwrap_fill(self.cmd.as_str(), width);
                Some(self.preview_with(runtime.as_str(), start_time.as_str(), command.as_str()))
            },
            None => None,
        };
        assert(self.shows_date(false, date_format@, text_view(start_time)) && text_view(
            information,
        ) == self.preview_for(width, text_view(start_time)));
        information
    }
}

} // verus!
