//! The configured log sources and the log bodies sent to the trace server.
use vstd::prelude::*;

use std::sync::Arc;

use crate::common::data_utils::{is_clock_date, to_day_str, Date};
use crate::common::text::concat2;

verus! {

broadcast use vstd::string::group_string_axioms;

/// A watched log: the project and server it belongs to and its file path.
#[derive(Debug, Clone)]
pub struct LogInfo {
    project_name: String,
    server_name: String,
    path: String,
}

impl LogInfo {
    /// The project name.
    pub closed spec fn project_name_text(&self) -> Seq<char> {
        self.project_name@
    }

    /// The server name.
    pub closed spec fn server_name_text(&self) -> Seq<char> {
        self.server_name@
    }

    /// The path of the watched file.
    pub closed spec fn path_text(&self) -> Seq<char> {
        self.path@
    }

    /// The project, server and path of the log source.
    pub open spec fn texts(&self) -> (Seq<char>, Seq<char>, Seq<char>) {
        (self.project_name_text(), self.server_name_text(), self.path_text())
    }

    /// A log source with the given project, server and path.
    pub fn new(project_name: String, server_name: String, path: String) -> (r: LogInfo)
        ensures
            r.project_name_text() == project_name@,
            r.server_name_text() == server_name@,
            r.path_text() == path@,
    {
        LogInfo { project_name, server_name, path }
    }

    /// The project name.
    pub fn get_project_name(&self) -> (r: &String)
        ensures
            r@ == self.project_name_text(),
    {
        &self.project_name
    }

    /// The path of the watched file.
    pub fn get_path(&self) -> (r: &String)
        ensures
            r@ == self.path_text(),
    {
        &self.path
    }

    /// The server name.
    pub fn get_server_name(&self) -> (r: &String)
        ensures
            r@ == self.server_name_text(),
    {
        &self.server_name
    }
}

/// A batch of log text from one server of one project, stamped with a day.
#[derive(Debug, Clone)]
pub struct LogBody {
    pub project_name: String,
    pub server_name: String,
    pub server_ip: String,
    pub log_info: String,
    pub log_day: String,
}

/// `day[D] server[IP:NAME]`, the summary line of a log body.
pub open spec fn print_base_text(log_day: Seq<char>, server_ip: Seq<char>, server_name: Seq<char>) -> Seq<char> {
    "day["@ + log_day + "] server["@ + server_ip + ":"@ + server_name + "]"@
}

impl LogBody {
    /// A log body for the log source, stamped with the current local day.
    pub fn new(arc_log: Arc<LogInfo>, server_ip: String, log_info: String) -> (r: LogBody)
        ensures
            r.project_name@ == arc_log.project_name_text(),
            r.server_name@ == arc_log.server_name_text(),
            r.server_ip == server_ip,
            r.log_info == log_info,
            exists|d: Date| is_clock_date(d) && r.log_day@ == d.text(),
    {
        LogBody {
            project_name: arc_log.get_project_name().clone(),
            server_name: arc_log.get_server_name().clone(),
            server_ip,
            log_info,
            log_day: to_day_str(),
        }
    }

    /// The summary line of the body: its day, server address and name.
    pub fn print_base(&self) -> (r: String)
        ensures
            r@ == print_base_text(self.log_day@, self.server_ip@, self.server_name@),
    {
        let mut r = concat2("day[", self.log_day.as_str());
        r.append("] server[");
        r.append(self.server_ip.as_str());
        r.append(":");
        r.append(self.server_name.as_str());
        r.append("]");
        r
    }
}

} // verus!
