//! Storing a log body into the daily file of its server, with the file of
//! the previous day compressed once a new day's file is created.
use vstd::prelude::*;

use crate::common::data_utils::{chrono_parsed_date, is_clock_date, previous_day_spec, Date};
use crate::common::log_lines::{
    format_log_lines, log_file_name, log_file_name_text, log_header, log_header_text,
    formatted_lines, matches_any, matches_some, opt_text, pattern_texts, previous_file_name,
    previous_file_name_text, render_lines, rendered_lines, string_texts,
};
use crate::common::models::LogBody;

verus! {

broadcast use vstd::string::group_string_axioms;

/// The timestamp that starts a log line: `YYYY-MM-DD hh:mm:ss`.
pub open spec fn date_patterns_text() -> Seq<Seq<char>> {
    seq!["^\\d{4}-\\d{2}-\\d{2} \\d{2}:\\d{2}:\\d{2}"@]
}

/// The patterns of a timestamped line.
fn date_patterns() -> (r: Vec<&'static str>)
    ensures
        pattern_texts(r@) == date_patterns_text(),
{
    let r = vec!["^\\d{4}-\\d{2}-\\d{2} \\d{2}:\\d{2}:\\d{2}"];
    assert(pattern_texts(r@) =~= date_patterns_text());
    r
}

/// `\d{N}`: a run of exactly N decimal digits, in the pattern syntax.
pub open spec fn digit_run(n: Seq<char>) -> Seq<char> {
    "\\d{"@ + n + "}"@
}

/// `YYYY-MM-DD` in the pattern syntax: four digits, two, two, between
/// dashes, whatever the digits are.
pub open spec fn day_pattern() -> Seq<char> {
    digit_run("4"@) + "-"@ + digit_run("2"@) + "-"@ + digit_run("2"@)
}

/// `hh:mm:ss` in the pattern syntax: any two digits for each field, so
/// that every hour of the day is recognised.
pub open spec fn time_pattern() -> Seq<char> {
    digit_run("2"@) + ":"@ + digit_run("2"@) + ":"@ + digit_run("2"@)
}

/// The line-per-line store recognises one timestamp, at the very start of
/// a line: a day, a space and a time of day, each field any run of digits
/// of its width; it is the first of the timestamps the queued and
/// asynchronous stores recognise.
pub proof fn law_store_recognises_day_space_time()
    ensures
        date_patterns_text() == seq!["^"@ + day_pattern() + " "@ + time_pattern()],
        date_patterns_text()[0] == crate::trace_server::async_store_compress::date_patterns_text()[0],
{
    reveal_strlit("^\\d{4}-\\d{2}-\\d{2} \\d{2}:\\d{2}:\\d{2}");
    reveal_strlit("\\d{");
    reveal_strlit("}");
    reveal_strlit("4");
    reveal_strlit("2");
    reveal_strlit("-");
    reveal_strlit(":");
    reveal_strlit(" ");
    reveal_strlit("^");
    crate::trace_server::async_store_compress::law_timestamps_are_digit_fields();
    assert("^\\d{4}-\\d{2}-\\d{2} \\d{2}:\\d{2}:\\d{2}"@ =~= "^"@ + day_pattern() + " "@
        + time_pattern());
    assert(date_patterns_text() =~= seq!["^"@ + day_pattern() + " "@ + time_pattern()]);
}

/// Whether the line starts with a `YYYY-MM-DD hh:mm:ss` timestamp.
pub fn starts_with_date(s: &str) -> (r: bool)
    ensures
        r == matches_some(date_patterns_text(), s@),
{
    let patterns = date_patterns();
    matches_any(&patterns, s)
}

/// What storing a log body does: the file it goes to (within the store
/// directory), the lines written, whether they are appended to an existing
/// file, and the file of the previous day to compress after a new file has
/// been created.
pub struct StorePlan {
    pub file_name: String,
    pub lines: Vec<String>,
    pub append: bool,
    pub compress: Option<String>,
}

/// Plans the storing of a log body; `logfile_exists` tells whether the
/// day's file of the server is already there.
pub fn store(log: &LogBody, logfile_exists: bool) -> (r: StorePlan)
    ensures
        r.file_name@ == log_file_name_text(log.server_name@, log.log_day@),
        string_texts(r.lines@) == formatted_lines(
            date_patterns_text(),
            log_header_text(log.server_ip@, log.server_name@),
            log.log_info@,
        ),
        r.append == logfile_exists,
        logfile_exists ==> r.compress is None,
        !logfile_exists ==> exists|t: Date|
            is_clock_date(t) && opt_text(r.compress) == previous_file_name_text(
                log.server_name@,
                previous_day_spec(log.log_day@, t),
            ),
        !logfile_exists && chrono_parsed_date(log.log_day@, "%Y-%m-%d"@) is None ==> r.compress is Some,
{
    let file_name = log_file_name(log.server_name.as_str(), log.log_day.as_str());
    let header = log_header(log.server_ip.as_str(), log.server_name.as_str());
    let patterns = date_patterns();
    let lines = format_log_lines(&patterns, header.as_str(), log.log_info.as_str());
    let compress = if logfile_exists {
        None
    } else {
        compress_old_file(log)
    };
    StorePlan { file_name, lines, append: logfile_exists, compress }
}

/// The file of the previous day of the body's server, to compress.
fn compress_old_file(log: &LogBody) -> (r: Option<String>)
    ensures
        exists|t: Date|
            is_clock_date(t) && opt_text(r) == previous_file_name_text(
                log.server_name@,
                previous_day_spec(log.log_day@, t),
            ),
{
    previous_file_name(log.server_name.as_str(), log.log_day.as_str())
}

/// The text written for the lines: each line followed by a newline.
pub fn writeln_text(log_lines: &Vec<String>) -> (r: String)
    ensures
        r@ == rendered_lines(string_texts(log_lines@), false, true),
{
    render_lines(log_lines, false, true)
}

} // verus!
