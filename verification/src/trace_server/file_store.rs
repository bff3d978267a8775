//! Storing log bodies through a queue of file writes: where a body goes,
//! the text written for it, and how the file of the previous day is
//! retired shortly after midnight.
use vstd::prelude::*;

use crate::common::data_utils::{
    chrono_parsed_date, date_to_string, is_clock_date, local_time_of_day, previous_day_spec,
    to_previous_day, Date,
};
use crate::common::log_lines::{
    format_log_lines, formatted_lines, log_file_name, log_file_name_text, log_header,
    log_header_text, matches_any, matches_some, render_lines, rendered_lines, string_texts,
};
use crate::common::models::LogBody;
use crate::common::text::concat2;
use crate::trace_server::async_store_compress::{date_patterns, date_patterns_text, project_dir_text};

verus! {

broadcast use vstd::string::group_string_axioms;

/// Whether the line starts with one of the timestamps of the store.
pub fn starts_with_date(s: &str) -> (r: bool)
    ensures
        r == matches_some(date_patterns_text(), s@),
{
    let patterns = date_patterns();
    matches_any(&patterns, s)
}

/// `PROJECT-SERVER-DAY`, the key of the open file of a server's day.
pub open spec fn day_key_text(project_name: Seq<char>, server_name: Seq<char>, day: Seq<char>) -> Seq<char> {
    project_name + "-"@ + server_name + "-"@ + day
}

/// The key of the open file of a server's day.
fn day_key(project_name: &str, server_name: &str, day: &str) -> (r: String)
    ensures
        r@ == day_key_text(project_name@, server_name@, day@),
{
    let mut r = concat2(project_name, "-");
    r.append(server_name);
    r.append("-");
    r.append(day);
    r
}

/// Where a body goes and what is written: the project directory, the file
/// within it, the key of its open file, and the lines.
pub struct FileStorePlan {
    pub dir_name: String,
    pub file_name: String,
    pub map_key: String,
    pub lines: Vec<String>,
}

/// Plans the sending of a log body to the file writer.
pub fn send_file_data(log: &LogBody) -> (r: FileStorePlan)
    ensures
        r.dir_name@ == project_dir_text(log.project_name@),
        r.file_name@ == log_file_name_text(log.server_name@, log.log_day@),
        r.map_key@ == day_key_text(log.project_name@, log.server_name@, log.log_day@),
        string_texts(r.lines@) == formatted_lines(
            date_patterns_text(),
            log_header_text(log.server_ip@, log.server_name@),
            log.log_info@,
        ),
{
    let dir_name = concat2(log.project_name.as_str(), "/");
    let file_name = log_file_name(log.server_name.as_str(), log.log_day.as_str());
    let header = log_header(log.server_ip.as_str(), log.server_name.as_str());
    let patterns = date_patterns();
    let lines = format_log_lines(&patterns, header.as_str(), log.log_info.as_str());
    let map_key = day_key(log.project_name.as_str(), log.server_name.as_str(), log.log_day.as_str());
    FileStorePlan { dir_name, file_name, map_key, lines }
}

/// The text the writer appends for the lines: each non-empty line followed
/// by a newline.
pub fn store_data_text(logs: &Vec<String>) -> (r: String)
    ensures
        r@ == rendered_lines(string_texts(logs@), true, true),
{
    render_lines(logs, true, true)
}

/// Whether the time of day is before 00:30.
pub open spec fn before_half_past_midnight(hour: int, minute: int) -> bool {
    hour == 0 && minute < 30
}

/// Whether the given time of day is before 00:30.
pub fn is_le_00_30_at(hour: u32, minute: u32) -> (r: bool)
    ensures
        r == before_half_past_midnight(hour as int, minute as int),
{
    hour == 0 && minute < 30
}

/// Whether the current local time is before 00:30.
pub fn is_le_00_30() -> (r: bool)
    ensures
        exists|h: int, m: int| 0 <= h < 24 && 0 <= m < 60 && r == before_half_past_midnight(h, m),
{
    let (hour, minute) = local_time_of_day();
    let r = is_le_00_30_at(hour, minute);
    assert(r == before_half_past_midnight(hour as int, minute as int));
    r
}

/// The file of the day before a body's day: the day, the file name and the
/// key of its open file.
pub struct PreDayFile {
    pub pre_day: Date,
    pub file_name: String,
    pub map_key: String,
}

/// The description of the previous day's file for a known previous day.
pub open spec fn pre_day_file_matches(f: PreDayFile, log: LogBody, p: Date) -> bool {
    &&& f.pre_day == p
    &&& f.file_name@ == log_file_name_text(log.server_name@, p.text())
    &&& f.map_key@ == day_key_text(log.project_name@, log.server_name@, p.text())
}

/// The optional file description matches the optional previous day.
pub open spec fn pre_day_file_is(r: Option<PreDayFile>, log: LogBody, day: Option<Date>) -> bool {
    match day {
        Some(p) => (r matches Some(f) && pre_day_file_matches(f, log, p)),
        None => r is None,
    }
}

/// The day whose file is retired at a time of day: the previous day of the
/// body's day (with `today` standing in when the body's day names no day),
/// and only before 00:30.
pub open spec fn retired_day(log: LogBody, hour: int, minute: int, today: Date) -> Option<Date> {
    if before_half_past_midnight(hour, minute) {
        previous_day_spec(log.log_day@, today)
    } else {
        None
    }
}

/// The file of the day before the body's day; see `to_previous_day` for
/// the day used when the body's day names no day.
pub fn build_preday_file(log: &LogBody) -> (r: Option<PreDayFile>)
    ensures
        exists|t: Date| is_clock_date(t) && pre_day_file_is(r, *log, previous_day_spec(log.log_day@, t)),
        chrono_parsed_date(log.log_day@, "%Y-%m-%d"@) is None ==> r is Some,
{
    let pre = to_previous_day(log.log_day.as_str());
    match pre {
        Some(p) => {
            let day = date_to_string(&p);
            let file_name = log_file_name(log.server_name.as_str(), day.as_str());
            let map_key = day_key(log.project_name.as_str(), log.server_name.as_str(), day.as_str());
            Some(PreDayFile { pre_day: p, file_name, map_key })
        },
        None => None,
    }
}

/// The previous day's file to retire at the given time of day: only
/// before 00:30, and only when the body's day has a previous day.
pub fn handle_old_file_at(log: &LogBody, hour: u32, minute: u32) -> (r: Option<PreDayFile>)
    ensures
        exists|t: Date|
            is_clock_date(t) && pre_day_file_is(r, *log, retired_day(*log, hour as int, minute as int, t)),
        before_half_past_midnight(hour as int, minute as int) && chrono_parsed_date(
            log.log_day@,
            "%Y-%m-%d"@,
        ) is None ==> r is Some,
{
    if !is_le_00_30_at(hour, minute) {
        let ghost t = Date { year: 2000, month: 1, day: 1 };
        assert(is_clock_date(t) && pre_day_file_is(None, *log, retired_day(*log, hour as int, minute as int, t)));
        return None;
    }
    build_preday_file(log)
}

/// The previous day's file to retire now, by the local clock.
pub fn handle_old_file(log: &LogBody) -> (r: Option<PreDayFile>)
    ensures
        exists|h: int, m: int, t: Date|
            0 <= h < 24 && 0 <= m < 60 && is_clock_date(t) && pre_day_file_is(r, *log, retired_day(*log, h, m, t)),
{
    let (hour, minute) = local_time_of_day();
    let r = handle_old_file_at(log, hour, minute);
    let ghost t = choose|t: Date|
        is_clock_date(t) && pre_day_file_is(r, *log, retired_day(*log, hour as int, minute as int, t));
    assert(0 <= hour < 24 && 0 <= minute < 60 && is_clock_date(t) && pre_day_file_is(
        r,
        *log,
        retired_day(*log, hour as int, minute as int, t),
    ));
    r
}

/// Whether a file of `size` bytes is at most 2 KiB.
pub fn is_le_2k(size: u64) -> (r: bool)
    ensures
        r == (size <= 2048),
{
    size <= 2 * 1024
}

/// The gzip stream `flate2` writes for a byte string at the default level.
pub uninterp spec fn gzip_encoded(data: Seq<u8>) -> Seq<u8>;

/// Writes the bytes through `flate2::write::GzEncoder::new(Vec::new(),
/// Compression::default())` and returns what `finish` yields. The header has
/// time stamp 0 and no file name, so the output is a function of the bytes,
/// named by `gzip_encoded`. Writing into a `Vec` does not fail.
#[verifier::external_body]
fn gzip_encode_call(data: &[u8]) -> (r: Vec<u8>)
    ensures
        r@ == gzip_encoded(data@),
{
    let mut encoder = flate2::write::GzEncoder::new(Vec::new(), flate2::Compression::default());
    std::io::Write::write_all(&mut encoder, data).unwrap();
    encoder.finish().unwrap()
}

/// The gzip-compressed form of the contents of a log file that is retired
/// by compression.
pub fn gzip_bytes(data: &[u8]) -> (r: Vec<u8>)
    ensures
        r@ == gzip_encoded(data@),
{
    gzip_encode_call(data)
}

/// How an old log file is retired.
pub enum CompressAction {
    /// A small file is renamed to the given path.
    Rename(String),
    /// A larger file is compressed into the given path and then removed.
    Gzip(String),
}

/// Retires a file of `size` bytes at `path`: a file of at most 2 KiB is
/// renamed to `PATH.log`, a larger one compressed into `PATH.gz`.
pub fn compress_file(path: &str, size: u64) -> (r: CompressAction)
    ensures
        size <= 2048 ==> (r matches CompressAction::Rename(to) && to@ == path@ + ".log"@),
        size > 2048 ==> (r matches CompressAction::Gzip(to) && to@ == path@ + ".gz"@),
{
    if is_le_2k(size) {
        CompressAction::Rename(concat2(path, ".log"))
    } else {
        CompressAction::Gzip(concat2(path, ".gz"))
    }
}

} // verus!
