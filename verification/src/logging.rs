//! Timestamps and the layout of a log line.

use vstd::prelude::*;
use crate::number::{decimal, format_decimal};
use crate::text::concat_str;

verus! {

/// The layout of a log line.
pub open spec fn log_text(
    timestamp: Seq<char>,
    level: Seq<char>,
    module: Seq<char>,
    message: Seq<char>,
) -> Seq<char> {
    "["@ + timestamp + "] ["@ + level + "] ["@ + module + "] "@ + message
}

/// `SystemTime::now`, given as the milliseconds since the Unix epoch, and
/// as zero for a clock set before it. Nothing is claimed of the value.
#[verifier::external_body]
fn epoch_millis() -> (ms: u128) {
    std::time::SystemTime::now().duration_since(std::time::UNIX_EPOCH).unwrap_or_default().as_millis()
}

/// The current time as the number of milliseconds since the Unix epoch,
/// in decimal notation.
pub fn get_timestamp() -> (s: String)
    ensures
        exists|ms: u128| s@ == decimal(ms as nat),
{
    let ms = epoch_millis();
    format_decimal(ms)
}

/// Lays out one log line: the timestamp, the level and the module, each
/// in square brackets, then the message.
pub fn log_line(timestamp: &str, level: &str, module: &str, message: &str) -> (line: String)
    ensures
        line@ == log_text(timestamp@, level@, module@, message@),
{
    let mut line = concat_str("[", timestamp);
    line.append("] [");
    line.append(level);
    line.append("] [");
    line.append(module);
    line.append("] ");
    line.append(message);
    line
}

} // verus!
