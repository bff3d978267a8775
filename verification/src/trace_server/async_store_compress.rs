//! Storing a log body into the daily file of its server under the
//! directory of its project, through a file handle kept per project and
//! server.
use vstd::prelude::*;

use crate::common::data_utils::{chrono_parsed_date, is_clock_date, previous_day_spec, Date};
use crate::common::log_lines::{
    format_log_lines, formatted_lines, log_file_name, log_file_name_text, log_header,
    log_header_text, lemma_rendered_lines_append, matches_any, matches_some, opt_text,
    pattern_texts, previous_file_name, previous_file_name_text, render_lines, rendered_lines,
    string_texts,
};
use crate::common::models::LogBody;
use crate::common::text::concat2;
use crate::trace_server::store_compress::{day_pattern, time_pattern};

verus! {

broadcast use vstd::string::group_string_axioms;

/// The timestamps that start a log line: `YYYY-MM-DD hh:mm:ss`,
/// `[YYYY-MM-DD` and `[YYYY-MM-DDThh:mm:ss`.
pub open spec fn date_patterns_text() -> Seq<Seq<char>> {
    seq![
        "^\\d{4}-\\d{2}-\\d{2} \\d{2}:\\d{2}:\\d{2}"@,
        "^\\[\\d{4}-\\d{2}-\\d{2}"@,
        "^\\[\\d{4}-\\d{2}-\\d{2}T\\d{2}:\\d{2}:\\d{2}"@,
    ]
}

/// The patterns of a timestamped line.
pub(crate) fn date_patterns() -> (r: Vec<&'static str>)
    ensures
        pattern_texts(r@) == date_patterns_text(),
{
    let r = vec![
        "^\\d{4}-\\d{2}-\\d{2} \\d{2}:\\d{2}:\\d{2}",
        "^\\[\\d{4}-\\d{2}-\\d{2}",
        "^\\[\\d{4}-\\d{2}-\\d{2}T\\d{2}:\\d{2}:\\d{2}",
    ];
    assert(pattern_texts(r@) =~= date_patterns_text());
    r
}

/// The queued and asynchronous stores recognise three timestamps at the
/// very start of a line: a day, a space and a time of day; a day in an
/// opening bracket; and a day in an opening bracket, `T` and a time of day;
/// each field any run of digits of its width.
pub proof fn law_timestamps_are_digit_fields()
    ensures
        date_patterns_text() == seq![
            "^"@ + day_pattern() + " "@ + time_pattern(),
            "^\\["@ + day_pattern(),
            "^\\["@ + day_pattern() + "T"@ + time_pattern(),
        ],
{
    reveal_strlit("^\\d{4}-\\d{2}-\\d{2} \\d{2}:\\d{2}:\\d{2}");
    reveal_strlit("^\\[\\d{4}-\\d{2}-\\d{2}");
    reveal_strlit("^\\[\\d{4}-\\d{2}-\\d{2}T\\d{2}:\\d{2}:\\d{2}");
    reveal_strlit("\\d{");
    reveal_strlit("}");
    reveal_strlit("4");
    reveal_strlit("2");
    reveal_strlit("-");
    reveal_strlit(":");
    reveal_strlit(" ");
    reveal_strlit("^");
    reveal_strlit("^\\[");
    reveal_strlit("T");
    assert("^\\d{4}-\\d{2}-\\d{2} \\d{2}:\\d{2}:\\d{2}"@ =~= "^"@ + day_pattern() + " "@
        + time_pattern());
    assert("^\\[\\d{4}-\\d{2}-\\d{2}"@ =~= "^\\["@ + day_pattern());
    assert("^\\[\\d{4}-\\d{2}-\\d{2}T\\d{2}:\\d{2}:\\d{2}"@ =~= "^\\["@ + day_pattern() + "T"@
        + time_pattern());
    assert(date_patterns_text() =~= seq![
        "^"@ + day_pattern() + " "@ + time_pattern(),
        "^\\["@ + day_pattern(),
        "^\\["@ + day_pattern() + "T"@ + time_pattern(),
    ]);
}

/// Whether the line starts with one of the timestamps.
pub fn starts_with_date(s: &str) -> (r: bool)
    ensures
        r == matches_some(date_patterns_text(), s@),
{
    let patterns = date_patterns();
    matches_any(&patterns, s)
}

/// `PROJECT/`, the directory of a project's logs within the store.
pub open spec fn project_dir_text(project_name: Seq<char>) -> Seq<char> {
    project_name + "/"@
}

/// `PROJECT-SERVER`, the key of the open file of a server.
pub open spec fn server_key_text(project_name: Seq<char>, server_name: Seq<char>) -> Seq<char> {
    project_name + "-"@ + server_name
}

/// What storing a log body does: the project directory to create, the
/// file within it, the key of the open file, the lines, the text written,
/// whether the file is new, and the file of the previous day to compress
/// after a new file has been created.
pub struct AsyncStorePlan {
    pub dir_name: String,
    pub file_name: String,
    pub map_key: String,
    pub lines: Vec<String>,
    pub payload: String,
    pub create: bool,
    pub compress: Option<String>,
}

/// Plans the storing of a log body; `logfile_exists` tells whether the
/// day's file of the server is already there.
pub fn store(log: &LogBody, logfile_exists: bool) -> (r: AsyncStorePlan)
    ensures
        r.dir_name@ == project_dir_text(log.project_name@),
        r.file_name@ == log_file_name_text(log.server_name@, log.log_day@),
        r.map_key@ == server_key_text(log.project_name@, log.server_name@),
        string_texts(r.lines@) == formatted_lines(
            date_patterns_text(),
            log_header_text(log.server_ip@, log.server_name@),
            log.log_info@,
        ),
        r.payload@ == rendered_lines(string_texts(r.lines@), true, false),
        r.create == !logfile_exists,
        logfile_exists ==> r.compress is None,
        !logfile_exists ==> exists|t: Date|
            is_clock_date(t) && opt_text(r.compress) == previous_file_name_text(
                log.server_name@,
                previous_day_spec(log.log_day@, t),
            ),
        !logfile_exists && chrono_parsed_date(log.log_day@, "%Y-%m-%d"@) is None ==> r.compress is Some,
{
    let dir_name = concat2(log.project_name.as_str(), "/");
    let mut map_key = concat2(log.project_name.as_str(), "-");
    map_key.append(log.server_name.as_str());
    let file_name = log_file_name(log.server_name.as_str(), log.log_day.as_str());
    let header = log_header(log.server_ip.as_str(), log.server_name.as_str());
    let patterns = date_patterns();
    let lines = format_log_lines(&patterns, header.as_str(), log.log_info.as_str());
    let payload = write_async_text(&lines);
    let compress = if logfile_exists {
        None
    } else {
        previous_file_name(log.server_name.as_str(), log.log_day.as_str())
    };
    AsyncStorePlan { dir_name, file_name, map_key, lines, payload, create: !logfile_exists, compress }
}

/// The lines stored for a log body.
pub open spec fn stored_lines_of(log: LogBody) -> Seq<Seq<char>> {
    formatted_lines(
        date_patterns_text(),
        log_header_text(log.server_ip@, log.server_name@),
        log.log_info@,
    )
}

/// Two log bodies of one project, server and day go to one file of one
/// directory, kept open under one key; the first store has left the file in
/// place, so the second appends to it (its plan creates nothing and
/// compresses nothing), and after both the file holds what it held, then
/// the first body's lines, then the second's.
pub proof fn law_same_day_bodies_share_one_file(first: LogBody, second: LogBody, held: Seq<char>)
    requires
        first.project_name@ == second.project_name@,
        first.server_name@ == second.server_name@,
        first.log_day@ == second.log_day@,
    ensures
        project_dir_text(first.project_name@) == project_dir_text(second.project_name@),
        log_file_name_text(first.server_name@, first.log_day@) == log_file_name_text(
            second.server_name@,
            second.log_day@,
        ),
        server_key_text(first.project_name@, first.server_name@) == server_key_text(
            second.project_name@,
            second.server_name@,
        ),
        held + rendered_lines(stored_lines_of(first), true, false) + rendered_lines(
            stored_lines_of(second),
            true,
            false,
        ) == held + rendered_lines(stored_lines_of(first) + stored_lines_of(second), true, false),
{
    lemma_rendered_lines_append(stored_lines_of(first), stored_lines_of(second), true, false);
    assert(held + rendered_lines(stored_lines_of(first), true, false) + rendered_lines(
        stored_lines_of(second),
        true,
        false,
    ) =~= held + rendered_lines(stored_lines_of(first) + stored_lines_of(second), true, false));
}

/// The text written for the lines: the non-empty lines, one after the
/// other, with nothing between them.
pub fn write_async_text(log_lines: &Vec<String>) -> (r: String)
    ensures
        r@ == rendered_lines(string_texts(log_lines@), true, false),
{
    render_lines(log_lines, true, false)
}

} // verus!
