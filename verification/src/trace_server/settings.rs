//! The trace server's settings and where its configuration file is read.
use vstd::prelude::*;

use crate::common::text::{concat2, owned};

verus! {

broadcast use vstd::string::group_string_axioms;

/// `PATH-MODE`, the configuration file for a run mode (`dev` when none is
/// given).
pub open spec fn config_file_path_text(config_path: Seq<char>, run_mode: Option<Seq<char>>) -> Seq<char> {
    config_path + "-"@ + match run_mode {
        Some(m) => m,
        None => "dev"@,
    }
}

/// The configuration file to read for the given base path and run mode.
pub fn config_file_path(config_path: &str, run_mode: Option<&str>) -> (r: String)
    ensures
        r@ == config_file_path_text(
            config_path@,
            match run_mode {
                Some(m) => Some(m@),
                None => None,
            },
        ),
{
    let mode = match run_mode {
        Some(m) => owned(m),
        None => owned("dev"),
    };
    let mut r = concat2(config_path, "-");
    r.append(mode.as_str());
    r
}

/// The trace server's settings: debug logging, and the directory logs are
/// stored in.
#[derive(Debug, Clone)]
pub struct Settings {
    debug: bool,
    store_path: String,
}

impl Settings {
    /// Whether debug logging is on.
    pub closed spec fn debug_flag(&self) -> bool {
        self.debug
    }

    /// The store directory.
    pub closed spec fn store_path_text(&self) -> Seq<char> {
        self.store_path@
    }

    /// Settings with the given values.
    pub fn new(debug: bool, store_path: String) -> (r: Settings)
        ensures
            r.debug_flag() == debug,
            r.store_path_text() == store_path@,
    {
        Settings { debug, store_path }
    }

    /// Whether debug logging is on.
    pub fn is_debug(&self) -> (r: bool)
        ensures
            r == self.debug_flag(),
    {
        self.debug
    }

    /// The store directory.
    pub fn store_path(&self) -> (r: &String)
        ensures
            r@ == self.store_path_text(),
    {
        &self.store_path
    }
}

} // verus!
