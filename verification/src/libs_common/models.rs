//! The log body an uploader sends: server, address, text and day.
use vstd::prelude::*;

use crate::common::data_utils::{is_clock_date, to_day_str, Date};
use crate::common::text::concat2;

verus! {

broadcast use vstd::string::group_string_axioms;

/// A batch of log text from one server, stamped with a day.
#[derive(Debug, Clone)]
pub struct LogBody {
    pub server_name: String,
    pub server_ip: String,
    pub log_info: String,
    pub log_day: String,
}

/// `[server:IPNAME]: 「` newline, the text, newline, `」`.
pub open spec fn display_text(server_ip: Seq<char>, server_name: Seq<char>, log_info: Seq<char>) -> Seq<char> {
    "[server:"@ + server_ip + server_name + "]: 「\n"@ + log_info + "\n」"@
}

impl LogBody {
    /// A log body of the server, stamped with the current local day.
    pub fn new(server_name: String, server_ip: String, log_info: String) -> (r: LogBody)
        ensures
            r.server_name == server_name,
            r.server_ip == server_ip,
            r.log_info == log_info,
            exists|d: Date| is_clock_date(d) && r.log_day@ == d.text(),
    {
        LogBody { server_name, server_ip, log_info, log_day: to_day_str() }
    }

    /// The text shown for the body: its server, then its text in brackets.
    pub fn display(&self) -> (r: String)
        ensures
            r@ == display_text(self.server_ip@, self.server_name@, self.log_info@),
    {
        let mut r = concat2("[server:", self.server_ip.as_str());
        r.append(self.server_name.as_str());
        r.append("]: 「\n");
        r.append(self.log_info.as_str());
        r.append("\n」");
        r
    }
}

} // verus!
