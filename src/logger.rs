//! Log levels and the choice of old log files to delete.

use vstd::prelude::*;
use crate::cli::owned;
use crate::text::{lowercase_of, str_eq, to_lower};

verus! {

/// How much is logged, from the least to the most.
#[derive(Clone, Copy, Debug, PartialEq, Eq, Structural)]
pub enum LogLevel {
    Error,
    Warn,
    Info,
    Debug,
    Trace,
}

/// The level that an already lower-cased name stands for.
pub open spec fn level_named(s: Seq<char>) -> Option<LogLevel> {
    if s == "error"@ {
        Some(LogLevel::Error)
    } else if s == "warn"@ || s == "warning"@ {
        Some(LogLevel::Warn)
    } else if s == "info"@ {
        Some(LogLevel::Info)
    } else if s == "debug"@ {
        Some(LogLevel::Debug)
    } else if s == "trace"@ {
        Some(LogLevel::Trace)
    } else {
        None
    }
}

/// The log file setup of the application.
#[derive(Clone, Debug)]
pub struct Logger {
    pub log_dir: String,
    pub max_size_mb: u64,
    pub current_log_file: Option<String>,
}

impl Logger {
    /// The level named by an already lower-cased text.
    pub fn level_from_lowercase(s: &str) -> (r: Option<LogLevel>)
        ensures
            r == level_named(s@),
    {
        if str_eq(s, "error") {
            Some(LogLevel::Error)
        } else if str_eq(s, "warn") || str_eq(s, "warning") {
            Some(LogLevel::Warn)
        } else if str_eq(s, "info") {
            Some(LogLevel::Info)
        } else if str_eq(s, "debug") {
            Some(LogLevel::Debug)
        } else if str_eq(s, "trace") {
            Some(LogLevel::Trace)
        } else {
            None
        }
    }

    /// The level named by `level` in any letter case; an unknown name is an
    /// error.
    pub fn parse_log_level(level: &str) -> (r: Result<LogLevel, String>)
        ensures
            match level_named(lowercase_of(level@)) {
                Some(l) => r == Ok::<LogLevel, String>(l),
                None => r is Err,
            },
    {
        let lower = to_lower(level);
        match Logger::level_from_lowercase(lower.as_str()) {
            Some(l) => Ok(l),
            None => {
                let mut msg = owned("Invalid log level: ");
                msg.append(level);
                Err(msg)
            },
        }
    }

    /// The size limit in bytes.
    pub open spec fn limit_bytes(max_size_mb: u64) -> int {
        max_size_mb as int * 1024 * 1024
    }
}

/// Which log files to delete, given their sizes newest first: a file is kept
/// while the kept ones, with it, fit in the limit; any other is deleted.
pub open spec fn files_to_delete(sizes: Seq<u64>, limit: int) -> Seq<bool>
    decreases sizes.len(),
{
    if sizes.len() == 0 {
        Seq::empty()
    } else {
        let before = files_to_delete(sizes.drop_last(), limit);
        before.push(kept_total(sizes.drop_last(), limit) + sizes.last() > limit)
    }
}

/// The total size of the files kept among `sizes`.
pub open spec fn kept_total(sizes: Seq<u64>, limit: int) -> int
    decreases sizes.len(),
{
    if sizes.len() == 0 {
        0
    } else {
        let t = kept_total(sizes.drop_last(), limit);
        if t + sizes.last() > limit {
            t
        } else {
            t + sizes.last()
        }
    }
}

proof fn lemma_kept_total_bound(sizes: Seq<u64>, limit: int)
    requires
        limit >= 0,
    ensures
        0 <= kept_total(sizes, limit) <= limit,
    decreases sizes.len(),
{
    if sizes.len() > 0 {
        lemma_kept_total_bound(sizes.drop_last(), limit);
    }
}

/// For log files whose sizes are given newest first, which ones to delete so
/// that the kept ones fit in `max_size_mb` megabytes.
pub fn select_logs_to_delete(sizes: &Vec<u64>, max_size_mb: u64) -> (r: Vec<bool>)
    ensures
        r@ == files_to_delete(sizes@, Logger::limit_bytes(max_size_mb)),
{
    let limit: u128 = (max_size_mb as u128) * 1024 * 1024;
    let ghost lim = Logger::limit_bytes(max_size_mb);
    let mut kept: u128 = 0;
    let mut out: Vec<bool> = Vec::new();
    let mut i: usize = 0;
    while i < sizes.len()
        invariant
            i <= sizes@.len(),
            limit == lim,
            lim >= 0,
            kept == kept_total(sizes@.subrange(0, i as int), lim),
            out@ == files_to_delete(sizes@.subrange(0, i as int), lim),
            limit < 0x1_0000_0000_0000_0000_0000_0000u128,
        decreases sizes@.len() - i,
    {
        proof {
            lemma_kept_total_bound(sizes@.subrange(0, i as int), lim);
            assert(sizes@.subrange(0, i as int + 1).drop_last() == sizes@.subrange(0, i as int));
        }
        let size = sizes[i] as u128;
        if kept + size > limit {
            out.push(true);
        } else {
            out.push(false);
            kept = kept + size;
        }
        i = i + 1;
    }
    assert(sizes@.subrange(0, i as int) == sizes@);
    out
}

/// The files the application writes logs to: `regis_<time>.log`.
pub open spec fn is_log_file_name(name: Seq<char>) -> bool {
    name.len() >= 10 && name.subrange(0, 6) == "regis_"@ && name.subrange(name.len() - 4, name.len() as int) == ".log"@
}

/// Whether a file name is one of the application's log files.
pub fn is_log_file(name: &str) -> (r: bool)
    ensures
        r == is_log_file_name(name@),
{
    let n = name.unicode_len();
    if n < 10 {
        return false;
    }
    str_eq(name.substring_char(0, 6), "regis_") && str_eq(name.substring_char(n - 4, n), ".log")
}

} // verus!
