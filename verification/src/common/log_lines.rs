//! Log text handling shared by the stores: splitting a body into lines,
//! prefixing the lines that start with a timestamp by the server header,
//! and rendering lines into the text appended to a log file.
use vstd::prelude::*;

use crate::common::data_utils::{
    chrono_parsed_date, date_to_string, is_clock_date, previous_day_spec, to_previous_day, Date,
};
use crate::common::text::{
    concat2, join_on, law_split_then_join_is_identity, lemma_split_on_nonempty, owned, split_char,
    split_on,
};

verus! {

broadcast use vstd::string::group_string_axioms;

/// What `regex::Regex::new(pattern)` followed by `is_match(haystack)`
/// answers: `None` when the pattern does not compile.
pub uninterp spec fn regex_match_result(pattern: Seq<char>, haystack: Seq<char>) -> Option<bool>;

/// Compiles `pattern` with `regex::Regex::new` and asks `Regex::is_match`
/// whether it matches somewhere in `haystack`; `None` when the pattern does
/// not compile. The answer is named by `regex_match_result`.
#[verifier::external_body]
fn regex_is_match(pattern: &str, haystack: &str) -> (r: Option<bool>)
    ensures
        r == regex_match_result(pattern@, haystack@),
{
    match regex::Regex::new(pattern) {
        Ok(re) => Some(re.is_match(haystack)),
        Err(_) => None,
    }
}

/// Whether one of the patterns matches the line.
pub open spec fn matches_some(patterns: Seq<Seq<char>>, line: Seq<char>) -> bool {
    exists|i: int| 0 <= i < patterns.len() && regex_match_result(patterns[i], line) == Some(true)
}

/// The texts of a list of patterns.
pub open spec fn pattern_texts(patterns: Seq<&str>) -> Seq<Seq<char>> {
    patterns.map_values(|p: &str| p@)
}

/// The texts of a list of strings.
pub open spec fn string_texts(lines: Seq<String>) -> Seq<Seq<char>> {
    lines.map_values(|s: String| s@)
}

/// Whether one of the patterns matches the line, trying them in order.
pub fn matches_any(patterns: &Vec<&str>, line: &str) -> (r: bool)
    ensures
        r == matches_some(pattern_texts(patterns@), line@),
{
    let mut i: usize = 0;
    while i < patterns.len()
        invariant
            i <= patterns.len(),
            forall|j: int|
                0 <= j < i ==> regex_match_result(pattern_texts(patterns@)[j], line@) != Some(
                    true,
                ),
        decreases patterns.len() - i,
    {
        let m = regex_is_match(patterns[i], line);
        if let Some(true) = m {
            assert(regex_match_result(pattern_texts(patterns@)[i as int], line@) == Some(true));
            return true;
        }
        i = i + 1;
    }
    false
}

/// `[IP:NAME]`, the header put before timestamped lines.
pub open spec fn log_header_text(server_ip: Seq<char>, server_name: Seq<char>) -> Seq<char> {
    "["@ + server_ip + ":"@ + server_name + "]"@
}

/// The header of the lines of a server.
pub fn log_header(server_ip: &str, server_name: &str) -> (r: String)
    ensures
        r@ == log_header_text(server_ip@, server_name@),
{
    let mut r = concat2("[", server_ip);
    r.append(":");
    r.append(server_name);
    r.append("]");
    r
}

/// A line as stored, given whether it starts with a timestamp: prefixed by
/// the header and a space when it does, unchanged otherwise.
pub open spec fn stored_line(header: Seq<char>, line: Seq<char>, matched: bool) -> Seq<char> {
    if matched {
        header + " "@ + line
    } else {
        line
    }
}

/// A line as stored: prefixed by the header and a space when one of the
/// patterns matches it, unchanged otherwise.
pub open spec fn format_line(patterns: Seq<Seq<char>>, header: Seq<char>, line: Seq<char>) -> Seq<char> {
    stored_line(header, line, matches_some(patterns, line))
}

/// Formats one line once it is known whether a timestamp pattern matched it.
pub fn format_line_with(header: &str, line: &str, matched: bool) -> (r: String)
    ensures
        r@ == stored_line(header@, line@, matched),
{
    if matched {
        let mut f = concat2(header, " ");
        f.append(line);
        f
    } else {
        owned(line)
    }
}

/// The stored lines of a log text: its `\n`-separated pieces, formatted.
pub open spec fn formatted_lines(patterns: Seq<Seq<char>>, header: Seq<char>, info: Seq<char>) -> Seq<Seq<char>> {
    split_on(info, '\n').map_values(|l: Seq<char>| format_line(patterns, header, l))
}

/// Splits a log text into lines and prefixes the timestamped ones.
pub fn format_log_lines(patterns: &Vec<&str>, header: &str, log_info: &str) -> (r: Vec<String>)
    ensures
        string_texts(r@) == formatted_lines(pattern_texts(patterns@), header@, log_info@),
{
    let lines = split_char(log_info, '\n');
    let ghost pieces = split_on(log_info@, '\n');
    let ghost pats = pattern_texts(patterns@);
    assert(string_texts(lines@) == pieces);
    let mut out: Vec<String> = Vec::new();
    let mut i: usize = 0;
    while i < lines.len()
        invariant
            i <= lines.len(),
            string_texts(lines@) == pieces,
            pats == pattern_texts(patterns@),
            string_texts(out@) == pieces.subrange(0, i as int).map_values(
                |l: Seq<char>| format_line(pats, header@, l),
            ),
        decreases lines.len() - i,
    {
        let line = &lines[i];
        assert(line@ == pieces[i as int]);
        let matched = matches_any(patterns, line.as_str());
        let formatted = format_line_with(header, line.as_str(), matched);
        let ghost before = string_texts(out@);
        out.push(formatted);
        proof {
            assert(string_texts(out@) =~= before.push(formatted@));
            assert(pieces.subrange(0, i + 1).map_values(
                |l: Seq<char>| format_line(pats, header@, l),
            ) =~= pieces.subrange(0, i as int).map_values(
                |l: Seq<char>| format_line(pats, header@, l),
            ).push(format_line(pats, header@, pieces[i as int])));
        }
        i = i + 1;
    }
    assert(pieces.subrange(0, i as int) =~= pieces);
    out
}

/// The text written for one line: nothing for an empty line when empty
/// lines are skipped, the line followed by `\n` when lines end in a newline.
pub open spec fn rendered_line(line: Seq<char>, skip_empty: bool, newline: bool) -> Seq<char> {
    if skip_empty && line.len() == 0 {
        Seq::<char>::empty()
    } else if newline {
        line.push('\n')
    } else {
        line
    }
}

/// The text written for a list of lines, in order.
pub open spec fn rendered_lines(lines: Seq<Seq<char>>, skip_empty: bool, newline: bool) -> Seq<char>
    decreases lines.len(),
{
    if lines.len() == 0 {
        Seq::<char>::empty()
    } else {
        rendered_lines(lines.drop_last(), skip_empty, newline) + rendered_line(
            lines.last(),
            skip_empty,
            newline,
        )
    }
}

/// Renders lines into the text appended to a log file.
pub fn render_lines(lines: &Vec<String>, skip_empty: bool, newline: bool) -> (r: String)
    ensures
        r@ == rendered_lines(string_texts(lines@), skip_empty, newline),
{
    let ghost texts = string_texts(lines@);
    let mut out = String::new();
    let mut i: usize = 0;
    while i < lines.len()
        invariant
            i <= lines.len(),
            texts == string_texts(lines@),
            out@ == rendered_lines(texts.subrange(0, i as int), skip_empty, newline),
        decreases lines.len() - i,
    {
        let line = lines[i].as_str();
        assert(line@ == texts[i as int]);
        if !(skip_empty && line.is_empty()) {
            out.append(line);
            if newline {
                out.append("\n");
            }
        }
        proof {
            reveal_strlit("\n");
            assert(texts.subrange(0, i + 1).drop_last() =~= texts.subrange(0, i as int));
            assert(line@.push('\n') =~= line@ + "\n"@);
        }
        i = i + 1;
    }
    assert(texts.subrange(0, i as int) =~= texts);
    out
}

} // verus!

verus! {

/// `NAME-DAY.log`, the file that holds a server's logs of a day.
pub open spec fn log_file_name_text(server_name: Seq<char>, day: Seq<char>) -> Seq<char> {
    server_name + "-"@ + day + ".log"@
}

/// The file name of a server's logs of a day.
pub fn log_file_name(server_name: &str, day: &str) -> (r: String)
    ensures
        r@ == log_file_name_text(server_name@, day@),
{
    let mut r = concat2(server_name, "-");
    r.append(day);
    r.append(".log");
    r
}

/// The file of the day before, when there is such a day.
pub open spec fn previous_file_name_text(server_name: Seq<char>, previous: Option<Date>) -> Option<Seq<char>> {
    match previous {
        Some(p) => Some(log_file_name_text(server_name, p.text())),
        None => None,
    }
}

/// The texts of an optional string.
pub open spec fn opt_text(s: Option<String>) -> Option<Seq<char>> {
    match s {
        Some(t) => Some(t@),
        None => None,
    }
}

/// The file of the server's logs of the day before `log_day`; see
/// `to_previous_day` for the day used when `log_day` names no day.
pub fn previous_file_name(server_name: &str, log_day: &str) -> (r: Option<String>)
    ensures
        exists|t: Date|
            is_clock_date(t) && opt_text(r) == previous_file_name_text(
                server_name@,
                previous_day_spec(log_day@, t),
            ),
        chrono_parsed_date(log_day@, "%Y-%m-%d"@) is None ==> r is Some,
{
    let pre = to_previous_day(log_day);
    let ghost t = choose|t: Date| is_clock_date(t) && pre == previous_day_spec(log_day@, t);
    match pre {
        Some(p) => {
            let day = date_to_string(&p);
            let r = log_file_name(server_name, day.as_str());
            assert(opt_text(Some(r)) == previous_file_name_text(
                server_name@,
                previous_day_spec(log_day@, t),
            ));
            Some(r)
        },
        None => None,
    }
}

/// `PATH.gz`, where the compressed copy of a file goes.
pub fn gz_file_name(path: &str) -> (r: String)
    ensures
        r@ == path@ + ".gz"@,
{
    concat2(path, ".gz")
}

} // verus!

verus! {

/// Rendering lines with a newline after each, skipping none, gives the
/// lines joined by newlines, followed by one.
pub proof fn lemma_rendered_is_joined(lines: Seq<Seq<char>>)
    requires
        lines.len() >= 1,
    ensures
        rendered_lines(lines, false, true) == join_on(lines, '\n').push('\n'),
    decreases lines.len(),
{
    if lines.len() == 1 {
        assert(lines.drop_last() =~= Seq::<Seq<char>>::empty());
        assert(rendered_lines(lines.drop_last(), false, true) == Seq::<char>::empty());
        assert(lines.last() == lines[0]);
        assert(rendered_lines(lines, false, true) =~= join_on(lines, '\n').push('\n'));
    } else {
        lemma_rendered_is_joined(lines.drop_last());
        assert(rendered_lines(lines, false, true) =~= join_on(lines, '\n').push('\n'));
    }
}

/// Rendering two lists of lines one after the other gives the rendering of
/// the first followed by that of the second.
pub proof fn lemma_rendered_lines_append(a: Seq<Seq<char>>, b: Seq<Seq<char>>, skip_empty: bool, newline: bool)
    ensures
        rendered_lines(a + b, skip_empty, newline) == rendered_lines(a, skip_empty, newline)
            + rendered_lines(b, skip_empty, newline),
    decreases b.len(),
{
    if b.len() == 0 {
        assert(a + b =~= a);
        assert(rendered_lines(a, skip_empty, newline) + Seq::<char>::empty() =~= rendered_lines(
            a,
            skip_empty,
            newline,
        ));
    } else {
        lemma_rendered_lines_append(a, b.drop_last(), skip_empty, newline);
        assert((a + b).drop_last() =~= a + b.drop_last());
        assert((a + b).last() == b.last());
        assert(rendered_lines(a + b, skip_empty, newline) =~= rendered_lines(a, skip_empty, newline)
            + rendered_lines(b, skip_empty, newline));
    }
}

/// Skipping empty lines drops exactly the empty lines: every non-empty line
/// is written as it would be with nothing skipped, in its place, and the
/// empty ones leave no trace.
pub proof fn law_skipping_drops_only_empty_lines(lines: Seq<Seq<char>>, newline: bool)
    ensures
        rendered_lines(lines, true, newline) == rendered_lines(
            lines.filter(|l: Seq<char>| l.len() > 0),
            false,
            newline,
        ),
    decreases lines.len(),
{
    reveal(Seq::filter);
    let keep = |l: Seq<char>| l.len() > 0;
    if lines.len() > 0 {
        law_skipping_drops_only_empty_lines(lines.drop_last(), newline);
        let sub = lines.drop_last().filter(keep);
        assert(lines.filter(keep) == if keep(lines.last()) {
            sub.push(lines.last())
        } else {
            sub
        });
        if keep(lines.last()) {
            assert(sub.push(lines.last()).drop_last() =~= sub);
            assert(sub.push(lines.last()).last() == lines.last());
        } else {
            assert(rendered_lines(lines, true, newline) =~= rendered_lines(
                lines.drop_last(),
                true,
                newline,
            ));
        }
    }
}

/// Rendering lines without skipping any and without newlines puts them one
/// after the other: the text is the lines concatenated.
pub proof fn law_plain_rendering_concatenates(lines: Seq<Seq<char>>)
    ensures
        rendered_lines(lines, false, false) == lines.flatten(),
    decreases lines.len(),
{
    lines.lemma_flatten_and_flatten_alt_are_equivalent();
    if lines.len() > 0 {
        law_plain_rendering_concatenates(lines.drop_last());
        lines.drop_last().lemma_flatten_and_flatten_alt_are_equivalent();
    }
}

/// A non-empty line is written unchanged, followed by a newline when lines
/// end in one, whether or not empty lines are skipped; an empty line is
/// written only when empty lines are kept.
pub proof fn law_each_line_is_written_as_is(line: Seq<char>, skip_empty: bool, newline: bool)
    ensures
        line.len() > 0 ==> rendered_line(line, skip_empty, newline) == (if newline {
            line + seq!['\n']
        } else {
            line
        }),
        line.len() == 0 ==> rendered_line(line, skip_empty, newline) == (if !skip_empty && newline {
            seq!['\n']
        } else {
            Seq::<char>::empty()
        }),
{
    assert(line.push('\n') =~= line + seq!['\n']);
    if line.len() == 0 {
        assert(line.push('\n') =~= seq!['\n']);
        assert(line =~= Seq::<char>::empty());
    }
}

/// A log text none of whose lines carries a timestamp is written back
/// verbatim by the line-per-line store: the file receives the text followed
/// by a newline.
pub proof fn law_untimestamped_text_is_stored_verbatim(
    patterns: Seq<Seq<char>>,
    header: Seq<char>,
    info: Seq<char>,
)
    requires
        forall|i: int|
            0 <= i < split_on(info, '\n').len() ==> !matches_some(
                patterns,
                #[trigger] split_on(info, '\n')[i],
            ),
    ensures
        rendered_lines(formatted_lines(patterns, header, info), false, true) == info.push('\n'),
{
    let pieces = split_on(info, '\n');
    lemma_split_on_nonempty(info, '\n');
    assert(formatted_lines(patterns, header, info) =~= pieces);
    lemma_rendered_is_joined(pieces);
    law_split_then_join_is_identity(info, '\n');
}

/// Every piece of a log text is stored as one line, in order: unchanged
/// when no pattern matches it, after the header and a space otherwise.
pub proof fn law_every_piece_is_stored_once(patterns: Seq<Seq<char>>, header: Seq<char>, info: Seq<char>)
    ensures
        formatted_lines(patterns, header, info).len() == split_on(info, '\n').len(),
        forall|i: int|
            0 <= i < split_on(info, '\n').len() ==> {
                let piece = #[trigger] split_on(info, '\n')[i];
                let stored = formatted_lines(patterns, header, info)[i];
                if matches_some(patterns, piece) {
                    stored == header + " "@ + piece
                } else {
                    stored == piece
                }
            },
{
}

} // verus!
