//! Watching operation logs: one monitor per configured log file.
use vstd::prelude::*;

use std::rc::Rc;

use crate::common::text::owned;

verus! {

/// An operation log to watch: its file path and the name of the server
/// writing it.
#[derive(Debug, Clone)]
pub struct Eoplog {
    pub path: String,
    pub ser_name: String,
}

impl Eoplog {
    /// The path of the watched file.
    pub fn get_path(&self) -> (r: &String)
        ensures
            *r == self.path,
    {
        &self.path
    }

    /// The name of the server writing the log.
    pub fn get_ser_name(&self) -> (r: &String)
        ensures
            *r == self.ser_name,
    {
        &self.ser_name
    }
}

/// The path and server name of an operation log.
pub open spec fn eoplog_texts(e: Eoplog) -> (Seq<char>, Seq<char>) {
    (e.path@, e.ser_name@)
}

/// The watcher of one operation log.
pub struct LogFileMonitor(Rc<Eoplog>);

impl LogFileMonitor {
    /// The watched log.
    pub closed spec fn watched(&self) -> Eoplog {
        *self.0
    }

    /// A monitor of the log.
    pub fn new(eoplog: &Eoplog) -> (r: LogFileMonitor)
        ensures
            eoplog_texts(r.watched()) == eoplog_texts(*eoplog),
    {
        let copy = Eoplog { path: owned(eoplog.path.as_str()), ser_name: owned(eoplog.ser_name.as_str()) };
        LogFileMonitor(Rc::new(copy))
    }

    /// The path of the watched file.
    pub fn path(&self) -> (r: &String)
        ensures
            r@ == self.watched().path@,
    {
        self.0.get_path()
    }

    /// The name of the server writing the log.
    pub fn ser_name(&self) -> (r: &String)
        ensures
            r@ == self.watched().ser_name@,
    {
        self.0.get_ser_name()
    }
}

/// One monitor per configured operation log, in order.
pub fn init_monitor(eoplogs: &Vec<Eoplog>) -> (r: Vec<LogFileMonitor>)
    ensures
        r@.len() == eoplogs@.len(),
        forall|i: int|
            0 <= i < eoplogs@.len() ==> eoplog_texts(#[trigger] r@[i].watched()) == eoplog_texts(
                eoplogs@[i],
            ),
{
    let mut monitors: Vec<LogFileMonitor> = Vec::new();
    let mut i: usize = 0;
    while i < eoplogs.len()
        invariant
            i <= eoplogs@.len(),
            monitors@.len() == i,
            forall|j: int|
                0 <= j < i ==> eoplog_texts(#[trigger] monitors@[j].watched()) == eoplog_texts(
                    eoplogs@[j],
                ),
        decreases eoplogs.len() - i,
    {
        monitors.push(LogFileMonitor::new(&eoplogs[i]));
        i = i + 1;
    }
    monitors
}

} // verus!
