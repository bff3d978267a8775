//! Watching configured logs: a monitor per log source, and the body built
//! from each chunk of text read from the log.
use vstd::prelude::*;

use std::sync::Arc;

use crate::common::data_utils::{is_clock_date, Date};
use crate::common::models::{LogBody, LogInfo};
use crate::common::text::utf8_text;

verus! {

/// Calls `Arc::clone`: another handle to the same value.
#[verifier::external_body]
fn arc_clone(a: &Arc<LogInfo>) -> (r: Arc<LogInfo>)
    ensures
        *r == **a,
{
    Arc::clone(a)
}

/// The watcher of one log source.
pub struct LogInfoMonitor {
    log_info: Arc<LogInfo>,
}

impl LogInfoMonitor {
    /// The watched log source.
    pub closed spec fn source(&self) -> LogInfo {
        *self.log_info
    }

    /// A monitor of the log source.
    pub fn new(log_info: &LogInfo) -> (r: LogInfoMonitor)
        ensures
            r.source().texts() == log_info.texts(),
    {
        let copy = LogInfo::new(
            log_info.get_project_name().clone(),
            log_info.get_server_name().clone(),
            log_info.get_path().clone(),
        );
        LogInfoMonitor { log_info: Arc::new(copy) }
    }

    /// The watched log source.
    pub fn log_info(&self) -> (r: Arc<LogInfo>)
        ensures
            *r == self.source(),
    {
        arc_clone(&self.log_info)
    }

    /// The body to upload for a chunk read from the log, reported from the
    /// given public address: `None` when the chunk is not UTF-8 text.
    pub fn log_body_for(&self, data: &[u8], pub_ip: String) -> (r: Option<LogBody>)
        ensures
            r is Some <==> vstd::utf8::valid_utf8(data@),
            r matches Some(body) ==> {
                &&& body.project_name@ == self.source().project_name_text()
                &&& body.server_name@ == self.source().server_name_text()
                &&& body.server_ip == pub_ip
                &&& body.log_info@ == vstd::utf8::decode_utf8(data@)
                &&& exists|d: Date| is_clock_date(d) && body.log_day@ == d.text()
            },
    {
        match utf8_text(data) {
            Some(text) => Some(LogBody::new(self.log_info(), pub_ip, text.to_owned())),
            None => None,
        }
    }
}

} // verus!

verus! {

/// One monitor per configured log source, in order.
pub fn init_monitor(log_infos: &Vec<LogInfo>) -> (r: Vec<LogInfoMonitor>)
    ensures
        r@.len() == log_infos@.len(),
        forall|i: int|
            0 <= i < log_infos@.len() ==> (#[trigger] r@[i].source()).texts()
                == log_infos@[i].texts(),
{
    let mut monitors: Vec<LogInfoMonitor> = Vec::new();
    let mut i: usize = 0;
    while i < log_infos.len()
        invariant
            i <= log_infos@.len(),
            monitors@.len() == i,
            forall|j: int|
                0 <= j < i ==> (#[trigger] monitors@[j].source()).texts() == log_infos@[j].texts(),
        decreases log_infos.len() - i,
    {
        monitors.push(LogInfoMonitor::new(&log_infos[i]));
        i = i + 1;
    }
    monitors
}

} // verus!
