//! Small commands offered to the front end, and the shape of a log line.
use vstd::prelude::*;

verus! {

/// Answers a liveness probe.
pub fn ping() -> (r: String)
    ensures
        r@ == "pong"@,
{
    String::from_str("pong")
}

/// The log line `[scope] [timestamp] message`.
pub open spec fn log_line_text(scope: Seq<char>, timestamp: Seq<char>, message: Seq<char>) -> Seq<char> {
    "["@ + scope + "] ["@ + timestamp + "] "@ + message
}

/// Formats one log line from its scope tag, its timestamp and its message.
pub fn log_line(scope: &str, timestamp: &str, message: &str) -> (r: String)
    ensures
        r@ == log_line_text(scope@, timestamp@, message@),
{
    let mut r = String::from_str("[");
    r.append(scope);
    r.append("] [");
    r.append(timestamp);
    r.append("] ");
    r.append(message);
    r
}

} // verus!
