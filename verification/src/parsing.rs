//! The log-line parser: a fixed grammar turning one text line into a
//! structured `LogEntry`, or a typed parse failure.
//!
//! The grammar, anchored at the start of the line, is:
//!
//! ```text
//! '[' YYYY-MM-DDTHH:MM:SS 'Z' ']' ' ' LEVEL ' - IP:' A '.' B '.' C '.' D WS* MESSAGE
//! ```
//!
//! where the timestamp digits are fixed-width, `LEVEL` is a non-empty run of
//! word characters, `A`..`D` are non-empty digit runs, `WS*` is a possibly
//! empty run of ASCII whitespace, and `MESSAGE` is the rest of the line
//! (absent when empty).

use vstd::prelude::*;

verus! {

/// A failure of `parse`, local to a single input line.
#[derive(Debug, Clone, Copy, PartialEq, Eq, Structural)]
pub enum ParsingError {
    /// The line does not match the expected grammar at all.
    MalformedLine,
    /// The timestamp segment is shaped like a timestamp but is not a valid
    /// calendar date or time of day.
    InvalidTimestamp,
    /// The level token is not exactly one of `INFO`, `ERROR`, `DEBUG`.
    UnknownLevel,
}

/// Classification of one log line; no ordering semantics beyond identity.
#[derive(Debug, Clone, Copy, PartialEq, Eq, Structural)]
pub enum LogLevel {
    Info,
    Error,
    Debug,
}

/// Is `s` exactly the token `INFO`?
pub open spec fn spec_is_info(s: Seq<char>) -> bool {
    s.len() == 4 && s[0] == 'I' && s[1] == 'N' && s[2] == 'F' && s[3] == 'O'
}

/// Is `s` exactly the token `ERROR`?
pub open spec fn spec_is_error(s: Seq<char>) -> bool {
    s.len() == 5 && s[0] == 'E' && s[1] == 'R' && s[2] == 'R' && s[3] == 'O' && s[4] == 'R'
}

/// Is `s` exactly the token `DEBUG`?
pub open spec fn spec_is_debug(s: Seq<char>) -> bool {
    s.len() == 5 && s[0] == 'D' && s[1] == 'E' && s[2] == 'B' && s[3] == 'U' && s[4] == 'G'
}

/// The level named by the token `s`, or `UnknownLevel` for any other token.
pub open spec fn spec_level_from(s: Seq<char>) -> Result<LogLevel, ParsingError> {
    if spec_is_info(s) {
        Ok(LogLevel::Info)
    } else if spec_is_error(s) {
        Ok(LogLevel::Error)
    } else if spec_is_debug(s) {
        Ok(LogLevel::Debug)
    } else {
        Err(ParsingError::UnknownLevel)
    }
}

impl LogLevel {
    /// Maps a level token to its `LogLevel`: exactly `INFO`, `ERROR` or
    /// `DEBUG` (case-sensitive), anything else being `UnknownLevel`.
    pub fn from_str(level: &str) -> (r: Result<LogLevel, ParsingError>)
        ensures
            r == spec_level_from(level@),
    {
        let n = level.unicode_len();
        if n == 4 {
            if level.get_char(0) == 'I' && level.get_char(1) == 'N' && level.get_char(2) == 'F'
                && level.get_char(3) == 'O' {
                Ok(LogLevel::Info)
            } else {
                Err(ParsingError::UnknownLevel)
            }
        } else if n == 5 {
            let c0 = level.get_char(0);
            let c1 = level.get_char(1);
            let c2 = level.get_char(2);
            let c3 = level.get_char(3);
            let c4 = level.get_char(4);
            if c0 == 'E' && c1 == 'R' && c2 == 'R' && c3 == 'O' && c4 == 'R' {
                Ok(LogLevel::Error)
            } else if c0 == 'D' && c1 == 'E' && c2 == 'B' && c3 == 'U' && c4 == 'G' {
                Ok(LogLevel::Debug)
            } else {
                Err(ParsingError::UnknownLevel)
            }
        } else {
            Err(ParsingError::UnknownLevel)
        }
    }

    /// The level's token, exactly as the grammar writes it: the round trip
    /// through `from_str` gives the level back.
    pub fn name(&self) -> (r: &'static str)
        ensures
            spec_level_from(r@) == Ok::<LogLevel, ParsingError>(*self),
    {
        proof {
            reveal_strlit("INFO");
            reveal_strlit("ERROR");
            reveal_strlit("DEBUG");
        }
        match *self {
            LogLevel::Info => "INFO",
            LogLevel::Error => "ERROR",
            LogLevel::Debug => "DEBUG",
        }
    }
}

/// An absolute point in time, normalized to UTC, kept as plain calendar
/// fields. A value is meaningful only when `wf()` holds.
#[derive(Debug, Clone, Copy, PartialEq, Eq, Structural)]
pub struct Timestamp {
    pub year: u16,
    pub month: u8,
    pub day: u8,
    pub hour: u8,
    pub minute: u8,
    pub second: u8,
}

/// Is `y` a leap year of the proleptic Gregorian calendar?
pub open spec fn spec_is_leap_year(y: int) -> bool {
    y % 4 == 0 && (y % 100 != 0 || y % 400 == 0)
}

/// Number of days of month `m` of year `y`.
pub open spec fn spec_days_in_month(y: int, m: int) -> int {
    if m == 2 {
        if spec_is_leap_year(y) {
            29
        } else {
            28
        }
    } else if m == 4 || m == 6 || m == 9 || m == 11 {
        30
    } else {
        31
    }
}

impl Timestamp {
    /// A valid UTC timestamp: a real calendar date with a four-digit year and
    /// a valid time of day. Second 60 is allowed, as RFC 3339 writes a leap
    /// second that way.
    pub open spec fn wf(self) -> bool {
        &&& self.year <= 9999
        &&& 1 <= self.month <= 12
        &&& 1 <= self.day
        &&& self.day as int <= spec_days_in_month(self.year as int, self.month as int)
        &&& self.hour <= 23
        &&& self.minute <= 59
        &&& self.second <= 60
    }

    /// Decides `wf()`.
    pub fn is_valid(&self) -> (r: bool)
        ensures
            r == self.wf(),
    {
        let days: u8 = days_in_month(self.year, self.month);
        self.year <= 9999 && 1 <= self.month && self.month <= 12 && 1 <= self.day
            && self.day <= days && self.hour <= 23 && self.minute <= 59 && self.second <= 60
    }
}

/// Number of days of month `m` of year `y`, for months 1 to 12.
pub fn days_in_month(y: u16, m: u8) -> (r: u8)
    ensures
        1 <= m <= 12 ==> r as int == spec_days_in_month(y as int, m as int),
{
    if m == 2 {
        if y % 4 == 0 && (y % 100 != 0 || y % 400 == 0) {
            29
        } else {
            28
        }
    } else if m == 4 || m == 6 || m == 9 || m == 11 {
        30
    } else {
        31
    }
}

/// An ASCII decimal digit.
pub open spec fn spec_is_digit(c: char) -> bool {
    48 <= c as u32 && c as u32 <= 57
}

/// The value of an ASCII decimal digit.
pub open spec fn spec_digit_val(c: char) -> int {
    c as int - 48
}

/// A word character: an ASCII letter, an ASCII digit, or an underscore.
pub open spec fn spec_is_word_char(c: char) -> bool {
    (65 <= c as u32 && c as u32 <= 90) || (97 <= c as u32 && c as u32 <= 122) || spec_is_digit(c)
        || c == '_'
}

/// An ASCII whitespace character.
pub open spec fn spec_is_space_char(c: char) -> bool {
    c == ' ' || c == '\t' || c == '\n' || c == '\r' || c as u32 == 11 || c as u32 == 12
}

/// First position at or after `i` that is past the run of word characters
/// starting at `i`.
pub open spec fn word_run_end(s: Seq<char>, i: int) -> int
    decreases s.len() - i,
{
    if 0 <= i && i < s.len() && spec_is_word_char(s[i]) {
        word_run_end(s, i + 1)
    } else {
        i
    }
}

/// First position at or after `i` that is past the run of digits starting at
/// `i`.
pub open spec fn digit_run_end(s: Seq<char>, i: int) -> int
    decreases s.len() - i,
{
    if 0 <= i && i < s.len() && spec_is_digit(s[i]) {
        digit_run_end(s, i + 1)
    } else {
        i
    }
}

/// First position at or after `i` that is past the run of whitespace starting
/// at `i`.
pub open spec fn space_run_end(s: Seq<char>, i: int) -> int
    decreases s.len() - i,
{
    if 0 <= i && i < s.len() && spec_is_space_char(s[i]) {
        space_run_end(s, i + 1)
    } else {
        i
    }
}

/// The fixed-width head of the grammar: a bracketed timestamp of shape
/// `[dddd-dd-ddTdd:dd:ddZ]` followed by one space.
pub open spec fn spec_ts_shape(s: Seq<char>) -> bool {
    &&& s.len() >= 23
    &&& s[0] == '['
    &&& spec_is_digit(s[1])
    &&& spec_is_digit(s[2])
    &&& spec_is_digit(s[3])
    &&& spec_is_digit(s[4])
    &&& s[5] == '-'
    &&& spec_is_digit(s[6])
    &&& spec_is_digit(s[7])
    &&& s[8] == '-'
    &&& spec_is_digit(s[9])
    &&& spec_is_digit(s[10])
    &&& s[11] == 'T'
    &&& spec_is_digit(s[12])
    &&& spec_is_digit(s[13])
    &&& s[14] == ':'
    &&& spec_is_digit(s[15])
    &&& spec_is_digit(s[16])
    &&& s[17] == ':'
    &&& spec_is_digit(s[18])
    &&& spec_is_digit(s[19])
    &&& s[20] == 'Z'
    &&& s[21] == ']'
    &&& s[22] == ' '
}

/// End of the level token, which starts right after the timestamp head.
pub open spec fn spec_level_end(s: Seq<char>) -> int {
    word_run_end(s, 23)
}

/// The literal ` - IP:` separator that must follow the level token.
pub open spec fn spec_sep_ok(s: Seq<char>) -> bool {
    let le = spec_level_end(s);
    &&& le + 6 <= s.len()
    &&& s[le] == ' '
    &&& s[le + 1] == '-'
    &&& s[le + 2] == ' '
    &&& s[le + 3] == 'I'
    &&& s[le + 4] == 'P'
    &&& s[le + 5] == ':'
}

/// Start of the address token.
pub open spec fn spec_ip_start(s: Seq<char>) -> int {
    spec_level_end(s) + 6
}

/// Ends of the four digit groups of the address token.
pub open spec fn spec_ip_d1(s: Seq<char>) -> int {
    digit_run_end(s, spec_ip_start(s))
}

pub open spec fn spec_ip_d2(s: Seq<char>) -> int {
    digit_run_end(s, spec_ip_d1(s) + 1)
}

pub open spec fn spec_ip_d3(s: Seq<char>) -> int {
    digit_run_end(s, spec_ip_d2(s) + 1)
}

pub open spec fn spec_ip_d4(s: Seq<char>) -> int {
    digit_run_end(s, spec_ip_d3(s) + 1)
}

/// The address token: four non-empty digit groups joined by dots.
pub open spec fn spec_ip_ok(s: Seq<char>) -> bool {
    let d1 = spec_ip_d1(s);
    let d2 = spec_ip_d2(s);
    let d3 = spec_ip_d3(s);
    let d4 = spec_ip_d4(s);
    &&& d1 > spec_ip_start(s)
    &&& d1 < s.len()
    &&& s[d1] == '.'
    &&& d2 > d1 + 1
    &&& d2 < s.len()
    &&& s[d2] == '.'
    &&& d3 > d2 + 1
    &&& d3 < s.len()
    &&& s[d3] == '.'
    &&& d4 > d3 + 1
}

/// Does the whole line match the grammar? The timestamp here has the right
/// shape but need not be a valid date; the level token is any non-empty word.
pub open spec fn matches_grammar(s: Seq<char>) -> bool {
    &&& spec_ts_shape(s)
    &&& spec_level_end(s) > 23
    &&& spec_sep_ok(s)
    &&& spec_ip_ok(s)
}

/// Start of the message: past the whitespace after the address token.
pub open spec fn spec_msg_start(s: Seq<char>) -> int {
    space_run_end(s, spec_ip_d4(s))
}

/// The timestamp named by the (shape-checked) line.
pub open spec fn spec_timestamp_of(s: Seq<char>) -> Timestamp {
    Timestamp {
        year: (spec_digit_val(s[1]) * 1000 + spec_digit_val(s[2]) * 100 + spec_digit_val(s[3]) * 10
            + spec_digit_val(s[4])) as u16,
        month: (spec_digit_val(s[6]) * 10 + spec_digit_val(s[7])) as u8,
        day: (spec_digit_val(s[9]) * 10 + spec_digit_val(s[10])) as u8,
        hour: (spec_digit_val(s[12]) * 10 + spec_digit_val(s[13])) as u8,
        minute: (spec_digit_val(s[15]) * 10 + spec_digit_val(s[16])) as u8,
        second: (spec_digit_val(s[18]) * 10 + spec_digit_val(s[19])) as u8,
    }
}

/// The level token of the line.
pub open spec fn spec_level_token(s: Seq<char>) -> Seq<char> {
    s.subrange(23, spec_level_end(s))
}

/// The message of the line: the rest after the whitespace run, absent when
/// empty.
pub open spec fn spec_message_of(s: Seq<char>) -> Option<Seq<char>> {
    let m = s.subrange(spec_msg_start(s), s.len() as int);
    if m.len() == 0 {
        None
    } else {
        Some(m)
    }
}

/// Mathematical image of one parsed record.
#[verifier::ext_equal]
pub ghost struct LogEntryView {
    pub timestamp: Timestamp,
    pub level: LogLevel,
    pub message: Option<Seq<char>>,
}

/// One parsed log record: timestamp normalized to UTC, level, and the
/// optional free-text message. Immutable once constructed.
#[derive(Debug, Clone)]
pub struct LogEntry {
    pub timestamp: Timestamp,
    pub level: LogLevel,
    pub message: Option<String>,
}

impl View for LogEntry {
    type V = LogEntryView;

    open spec fn view(&self) -> LogEntryView {
        LogEntryView {
            timestamp: self.timestamp,
            level: self.level,
            message: match self.message {
                Some(m) => Some(m@),
                None => None,
            },
        }
    }
}

/// The views of a parse result.
pub open spec fn spec_result_view(r: Result<LogEntry, ParsingError>) -> Result<
    LogEntryView,
    ParsingError,
> {
    match r {
        Ok(e) => Ok(e@),
        Err(pe) => Err(pe),
    }
}

/// What a successful parse of `s` returns.
pub open spec fn parse_ok_at(s: Seq<char>, v: LogEntryView) -> bool {
    &&& matches_grammar(s)
    &&& spec_timestamp_of(s).wf()
    &&& spec_level_from(spec_level_token(s)) is Ok
    &&& v.timestamp == spec_timestamp_of(s)
    &&& Ok::<LogLevel, ParsingError>(v.level) == spec_level_from(spec_level_token(s))
    &&& v.message == spec_message_of(s)
}

/// The full contract of `parse`: the result is a function of the line alone,
/// with each failure tied exactly to the inputs on which it comes.
pub open spec fn parse_post(s: Seq<char>, r: Result<LogEntryView, ParsingError>) -> bool {
    match r {
        Ok(v) => parse_ok_at(s, v),
        Err(e) => match e {
            ParsingError::MalformedLine => !matches_grammar(s),
            ParsingError::InvalidTimestamp => matches_grammar(s) && !spec_timestamp_of(s).wf(),
            ParsingError::UnknownLevel => matches_grammar(s) && spec_timestamp_of(s).wf()
                && !(spec_level_from(spec_level_token(s)) is Ok),
        },
    }
}

/// Decides `spec_is_digit`.
pub fn is_digit_char(c: char) -> (r: bool)
    ensures
        r == spec_is_digit(c),
{
    let u = c as u32;
    48 <= u && u <= 57
}

/// Decides `spec_is_word_char`.
pub fn is_word_char(c: char) -> (r: bool)
    ensures
        r == spec_is_word_char(c),
{
    let u = c as u32;
    (65 <= u && u <= 90) || (97 <= u && u <= 122) || (48 <= u && u <= 57) || u == 95
}

/// Decides `spec_is_space_char`.
pub fn is_space_char(c: char) -> (r: bool)
    ensures
        r == spec_is_space_char(c),
{
    let u = c as u32;
    u == 32 || u == 9 || u == 10 || u == 13 || u == 11 || u == 12
}

/// Scans the digit run starting at `start`.
fn scan_digits(line: &str, start: usize, n: usize) -> (end: usize)
    requires
        start <= n,
        n == line@.len(),
    ensures
        start <= end <= n,
        end as int == digit_run_end(line@, start as int),
{
    let mut i: usize = start;
    while i < n && is_digit_char(line.get_char(i))
        invariant
            start <= i <= n,
            n == line@.len(),
            digit_run_end(line@, start as int) == digit_run_end(line@, i as int),
        decreases n - i,
    {
        i = i + 1;
    }
    i
}

/// Scans the word-character run starting at `start`.
fn scan_word(line: &str, start: usize, n: usize) -> (end: usize)
    requires
        start <= n,
        n == line@.len(),
    ensures
        start <= end <= n,
        end as int == word_run_end(line@, start as int),
{
    let mut i: usize = start;
    while i < n && is_word_char(line.get_char(i))
        invariant
            start <= i <= n,
            n == line@.len(),
            word_run_end(line@, start as int) == word_run_end(line@, i as int),
        decreases n - i,
    {
        i = i + 1;
    }
    i
}

/// Scans the whitespace run starting at `start`.
fn scan_spaces(line: &str, start: usize, n: usize) -> (end: usize)
    requires
        start <= n,
        n == line@.len(),
    ensures
        start <= end <= n,
        end as int == space_run_end(line@, start as int),
{
    let mut i: usize = start;
    while i < n && is_space_char(line.get_char(i))
        invariant
            start <= i <= n,
            n == line@.len(),
            space_run_end(line@, start as int) == space_run_end(line@, i as int),
        decreases n - i,
    {
        i = i + 1;
    }
    i
}

/// The value of the digit `c`.
fn digit_value(c: char) -> (r: u8)
    requires
        spec_is_digit(c),
    ensures
        r as int == spec_digit_val(c),
        r < 10,
{
    let u = c as u32;
    (u - 48) as u8
}

/// Parses one log line against the fixed grammar.
///
/// On success the entry's fields are exactly the segments of the line; each
/// failure kind comes exactly on the inputs its doc comment names, so the
/// result is pinned for every input.
pub fn parse(line: &str) -> (r: Result<LogEntry, ParsingError>)
    ensures
        parse_post(line@, spec_result_view(r)),
{
    let n = line.unicode_len();
    if n < 23 {
        return Err(ParsingError::MalformedLine);
    }
    let shape_ok = line.get_char(0) == '[' && is_digit_char(line.get_char(1)) && is_digit_char(
        line.get_char(2),
    ) && is_digit_char(line.get_char(3)) && is_digit_char(line.get_char(4)) && line.get_char(5)
        == '-' && is_digit_char(line.get_char(6)) && is_digit_char(line.get_char(7))
        && line.get_char(8) == '-' && is_digit_char(line.get_char(9)) && is_digit_char(
        line.get_char(10),
    ) && line.get_char(11) == 'T' && is_digit_char(line.get_char(12)) && is_digit_char(
        line.get_char(13),
    ) && line.get_char(14) == ':' && is_digit_char(line.get_char(15)) && is_digit_char(
        line.get_char(16),
    ) && line.get_char(17) == ':' && is_digit_char(line.get_char(18)) && is_digit_char(
        line.get_char(19),
    ) && line.get_char(20) == 'Z' && line.get_char(21) == ']' && line.get_char(22) == ' ';
    if !shape_ok {
        return Err(ParsingError::MalformedLine);
    }
    let level_end = scan_word(line, 23, n);
    if level_end == 23 {
        return Err(ParsingError::MalformedLine);
    }
    if n - level_end < 6 {
        return Err(ParsingError::MalformedLine);
    }
    let sep_ok = line.get_char(level_end) == ' ' && line.get_char(level_end + 1) == '-'
        && line.get_char(level_end + 2) == ' ' && line.get_char(level_end + 3) == 'I'
        && line.get_char(level_end + 4) == 'P' && line.get_char(level_end + 5) == ':';
    if !sep_ok {
        return Err(ParsingError::MalformedLine);
    }
    let d1 = scan_digits(line, level_end + 6, n);
    if d1 == level_end + 6 || d1 == n || line.get_char(d1) != '.' {
        return Err(ParsingError::MalformedLine);
    }
    let d2 = scan_digits(line, d1 + 1, n);
    if d2 == d1 + 1 || d2 == n || line.get_char(d2) != '.' {
        return Err(ParsingError::MalformedLine);
    }
    let d3 = scan_digits(line, d2 + 1, n);
    if d3 == d2 + 1 || d3 == n || line.get_char(d3) != '.' {
        return Err(ParsingError::MalformedLine);
    }
    let d4 = scan_digits(line, d3 + 1, n);
    if d4 == d3 + 1 {
        return Err(ParsingError::MalformedLine);
    }
    assert(matches_grammar(line@));
    let year: u16 = digit_value(line.get_char(1)) as u16 * 1000 + digit_value(line.get_char(2))
        as u16 * 100 + digit_value(line.get_char(3)) as u16 * 10 + digit_value(line.get_char(4))
        as u16;
    let month: u8 = digit_value(line.get_char(6)) * 10 + digit_value(line.get_char(7));
    let day: u8 = digit_value(line.get_char(9)) * 10 + digit_value(line.get_char(10));
    let hour: u8 = digit_value(line.get_char(12)) * 10 + digit_value(line.get_char(13));
    let minute: u8 = digit_value(line.get_char(15)) * 10 + digit_value(line.get_char(16));
    let second: u8 = digit_value(line.get_char(18)) * 10 + digit_value(line.get_char(19));
    let timestamp = Timestamp { year, month, day, hour, minute, second };
    assert(timestamp == spec_timestamp_of(line@));
    if !timestamp.is_valid() {
        return Err(ParsingError::InvalidTimestamp);
    }
    let token = line.substring_char(23, level_end);
    let level = match LogLevel::from_str(token) {
        Ok(l) => l,
        Err(_) => {
            return Err(ParsingError::UnknownLevel);
        },
    };
    let msg_start = scan_spaces(line, d4, n);
    let message = if msg_start == n {
        None
    } else {
        Some(line.substring_char(msg_start, n).to_owned())
    };
    Ok(LogEntry { timestamp, level, message })
}

impl LogEntry {
    /// Parses an owned line; same contract as `parse`.
    pub fn try_from(value: String) -> (r: Result<LogEntry, ParsingError>)
        ensures
            parse_post(value@, spec_result_view(r)),
    {
        parse(value.as_str())
    }
}

/// A line that does not match the grammar is always reported as
/// `MalformedLine`, and never parsed into an entry.
pub proof fn lemma_non_matching_is_malformed(s: Seq<char>, r: Result<LogEntryView, ParsingError>)
    requires
        parse_post(s, r),
        !matches_grammar(s),
    ensures
        r == Err::<LogEntryView, ParsingError>(ParsingError::MalformedLine),
{
}

/// Every successfully parsed entry carries one of the three enumerated
/// levels and the line's own timestamp, which the grammar already fixes to
/// UTC (the `Z` suffix), as a valid calendar date and time.
pub proof fn lemma_parsed_entry_fields(s: Seq<char>, v: LogEntryView)
    requires
        parse_post(s, Ok::<LogEntryView, ParsingError>(v)),
    ensures
        v.level == LogLevel::Info || v.level == LogLevel::Error || v.level == LogLevel::Debug,
        v.timestamp == spec_timestamp_of(s),
        v.timestamp.wf(),
{
}

/// Parsing is deterministic: any two results that satisfy the parse contract
/// for the same line are field-for-field identical. With `parse`'s `ensures`
/// this says that parsing the same line twice yields identical entries.
pub proof fn lemma_parse_deterministic(
    s: Seq<char>,
    r1: Result<LogEntryView, ParsingError>,
    r2: Result<LogEntryView, ParsingError>,
)
    requires
        parse_post(s, r1),
        parse_post(s, r2),
    ensures
        r1 == r2,
{
    match (r1, r2) {
        (Ok(v1), Ok(v2)) => {
            assert(v1 =~= v2);
        },
        _ => {},
    }
}

/// The digit character for the value `d`.
pub open spec fn spec_digit_char(d: int) -> char {
    if d == 0 {
        '0'
    } else if d == 1 {
        '1'
    } else if d == 2 {
        '2'
    } else if d == 3 {
        '3'
    } else if d == 4 {
        '4'
    } else if d == 5 {
        '5'
    } else if d == 6 {
        '6'
    } else if d == 7 {
        '7'
    } else if d == 8 {
        '8'
    } else {
        '9'
    }
}

/// Two zero-padded digit characters for a value below 100.
pub open spec fn spec_two_digits(v: int) -> Seq<char> {
    seq![spec_digit_char(v / 10), spec_digit_char(v % 10)]
}

/// The display form of a timestamp: `YYYY-MM-DD HH:MM:SS UTC`.
pub open spec fn spec_display_ts(t: Timestamp) -> Seq<char> {
    seq![
        spec_digit_char(t.year as int / 1000),
        spec_digit_char((t.year as int / 100) % 10),
        spec_digit_char((t.year as int / 10) % 10),
        spec_digit_char(t.year as int % 10),
        '-',
    ] + spec_two_digits(t.month as int) + seq!['-'] + spec_two_digits(t.day as int) + seq![' ']
        + spec_two_digits(t.hour as int) + seq![':'] + spec_two_digits(t.minute as int)
        + seq![':'] + spec_two_digits(t.second as int) + seq![' ', 'U', 'T', 'C']
}

/// The one-character string for the digit value `d`.
fn digit_str(d: u8) -> (r: &'static str)
    requires
        d < 10,
    ensures
        r@ =~= seq![spec_digit_char(d as int)],
{
    proof {
        reveal_strlit("0");
        reveal_strlit("1");
        reveal_strlit("2");
        reveal_strlit("3");
        reveal_strlit("4");
        reveal_strlit("5");
        reveal_strlit("6");
        reveal_strlit("7");
        reveal_strlit("8");
        reveal_strlit("9");
    }
    match d {
        0 => "0",
        1 => "1",
        2 => "2",
        3 => "3",
        4 => "4",
        5 => "5",
        6 => "6",
        7 => "7",
        8 => "8",
        _ => "9",
    }
}

/// Appends the two zero-padded digits of `v` to `out`.
fn append_two_digits(out: &mut String, v: u8)
    requires
        v < 100,
    ensures
        final(out)@ == old(out)@ + spec_two_digits(v as int),
{
    out.append(digit_str(v / 10));
    out.append(digit_str(v % 10));
    assert(final(out)@ =~= old(out)@ + spec_two_digits(v as int));
}

impl Timestamp {
    /// Renders the timestamp as `YYYY-MM-DD HH:MM:SS UTC`.
    pub fn to_display_string(&self) -> (r: String)
        requires
            self.wf(),
        ensures
            r@ == spec_display_ts(*self),
    {
        let mut out = String::new();
        out.append(digit_str((self.year / 1000) as u8));
        out.append(digit_str(((self.year / 100) % 10) as u8));
        out.append(digit_str(((self.year / 10) % 10) as u8));
        out.append(digit_str((self.year % 10) as u8));
        out.append("-");
        append_two_digits(&mut out, self.month);
        out.append("-");
        append_two_digits(&mut out, self.day);
        out.append(" ");
        append_two_digits(&mut out, self.hour);
        out.append(":");
        append_two_digits(&mut out, self.minute);
        out.append(":");
        append_two_digits(&mut out, self.second);
        out.append(" UTC");
        proof {
            reveal_strlit("-");
            reveal_strlit(" ");
            reveal_strlit(":");
            reveal_strlit(" UTC");
            assert(out@ =~= spec_display_ts(*self));
        }
        out
    }
}

} // verus!
