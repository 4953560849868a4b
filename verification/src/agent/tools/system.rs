//! The system monitor tool: which report a request asks for, and the
//! integer parts of its texts. The figures themselves come from the system.

use vstd::prelude::*;
use crate::text::{
    concat, contains_seq, lowercase, parse_usize, parse_usize_spec, push_str, split_words,
    starts_with_seq, str_contains, str_starts_with, to_lowercase, trim, trim_seq, words_seq,
};

verus! {

/// The usage line of the system monitor.
pub const SYSTEM_MONITOR_USAGE: &'static str = "Arguments: 'resources', 'processes [limit]', or 'network'";

/// The tool that reports system resources, processes and network interfaces.
#[derive(Debug, Clone, Copy, Default)]
pub struct SystemMonitorTool;

/// A report of the system monitor.
#[derive(Debug, Clone)]
pub enum SystemReport {
    /// CPU, memory and uptime.
    Resources,
    /// The top processes by CPU, this many.
    Processes { limit: usize },
    /// Traffic per network interface.
    Network,
    /// A request the tool does not know: reply with this message.
    Unknown { message: String },
}

/// A request's text as the tool reads it: trimmed and lowercased.
pub open spec fn normalized_request(args: Seq<char>) -> Seq<char> {
    lowercase(trim_seq(args))
}

/// The report a request asks for; `None` for a request the tool does not
/// know.
pub open spec fn report_spec(args: Seq<char>) -> Option<SystemReport> {
    let a = normalized_request(args);
    if a.len() == 0 || contains_seq(a, "resources"@) {
        Some(SystemReport::Resources)
    } else if starts_with_seq(a, "processes"@) {
        let ws = words_seq(a);
        let limit: usize = if ws.len() > 1 && parse_usize_spec(ws[1]) is Some {
            parse_usize_spec(ws[1])->0 as usize
        } else {
            10
        };
        Some(SystemReport::Processes { limit })
    } else if contains_seq(a, "network"@) {
        Some(SystemReport::Network)
    } else {
        None
    }
}

impl SystemMonitorTool {
    /// The tool.
    pub fn new() -> (r: Self) {
        SystemMonitorTool
    }

    /// Decides which report a request asks for: none or "resources" gives
    /// the resources; "processes [n]" the top n processes (10 when n is not
    /// a number); "network" the interfaces; anything else an error text.
    pub fn report_for(&self, args: &str) -> (r: SystemReport)
        ensures
            match report_spec(args@) {
                Some(k) => r == k,
                None => r matches SystemReport::Unknown { message } && message@
                    == "Unknown system_monitor command: '"@ + normalized_request(args@)
                    + "'.\nUsage: "@ + SYSTEM_MONITOR_USAGE@,
            },
    {
        let t = trim(args);
        let a = to_lowercase(t.as_str());
        if a.as_str().is_empty() || str_contains(a.as_str(), "resources") {
            return SystemReport::Resources;
        }
        if str_starts_with(a.as_str(), "processes") {
            let ws = split_words(a.as_str());
            let limit: usize = if ws.len() > 1 {
                match parse_usize(ws[1].as_str()) {
                    Some(n) => n,
                    None => 10,
                }
            } else {
                10
            };
            return SystemReport::Processes { limit };
        }
        if str_contains(a.as_str(), "network") {
            return SystemReport::Network;
        }
        let mut m = concat("Unknown system_monitor command: '", a.as_str());
        push_str(&mut m, "'.\nUsage: ");
        push_str(&mut m, SYSTEM_MONITOR_USAGE);
        SystemReport::Unknown { message: m }
    }
}

/// Splits an uptime in seconds into whole days, hours and minutes.
pub fn uptime_parts(uptime: u64) -> (r: (u64, u64, u64))
    ensures
        r.0 == uptime / 86400,
        r.1 == (uptime % 86400) / 3600,
        r.2 == (uptime % 3600) / 60,
{
    (uptime / 86400, (uptime % 86400) / 3600, (uptime % 3600) / 60)
}

} // verus!
