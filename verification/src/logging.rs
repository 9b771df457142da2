//! Construction of log lines.
//!
//! The supervisor's log consists of timestamped lines; errors carry a fixed
//! prefix. Writing the lines out is the caller's business — here only their
//! text is built, and proved to be exactly the prefix, the timestamp and the
//! message in their places.

use vstd::prelude::*;

use crate::text::decimal_seq;
use crate::text::format_u64;

verus! {

/// The text of one timestamped log line.
pub fn format_log_line(timestamp: &str, message: &str) -> (r: String)
    ensures
        r@ == "["@ + timestamp@ + "] "@ + message@,
{
    let mut line = String::from_str("[");
    line.append(timestamp);
    line.append("] ");
    line.append(message);
    line
}

/// The text of an error entry: the message under the fixed error prefix.
pub fn log_error(message: &str) -> (r: String)
    ensures
        r@ == "ERROR: "@ + message@,
{
    let mut line = String::from_str("ERROR: ");
    line.append(message);
    line
}

/// A plain timestamp: the seconds since the epoch in decimal, and the zero
/// digit when the clock reading was not available (a clock before the
/// epoch).
pub fn chrono_lite_timestamp(now_secs: Option<u64>) -> (r: String)
    ensures
        now_secs matches Some(secs) ==> r@ == decimal_seq(secs as int),
        now_secs is None ==> r@ == "0"@,
{
    match now_secs {
        Option::Some(secs) => format_u64(secs),
        Option::None => String::from_str("0"),
    }
}

} // verus!
