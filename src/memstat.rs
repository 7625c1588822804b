//! The outcome of the kernel debugger's `::memstat` report.

use vstd::prelude::*;

use crate::text::{signed_decimal, signed_decimal_string};

verus! {

/// How the report's process ended, in words: the verb, the noun and what
/// follows it.
pub open spec fn ending(code: Option<i32>, signal: Option<i32>) -> (Seq<char>, Seq<char>, Seq<char>) {
    match code {
        Some(c) => ("exited"@, "status"@, signed_decimal(c as int)),
        None => match signal {
            Some(s) => ("terminated"@, "signal"@, signed_decimal(s as int)),
            None => ("terminated"@, "signal"@, "unknown"@),
        },
    }
}

/// The message of a report process that did not succeed: how it ended, and
/// all it wrote.
pub open spec fn failure_text(
    code: Option<i32>,
    signal: Option<i32>,
    stdout: Seq<char>,
    stderr: Seq<char>,
) -> Seq<char> {
    let (verb, noun, which) = ending(code, signal);
    "pfexec mdb -ke ::memstat: "@ + verb + " unexpectedly with "@ + noun + " "@ + which
        + ": stdout:\n"@ + stdout + "stderr:\n"@ + stderr
}

/// The report, from how its process ended (success, exit code, or the
/// signal that ended it) and what it wrote: its output on success, else a
/// message saying how it ended, with its output and its errors.
pub fn memstat_result(
    success: bool,
    code: Option<i32>,
    signal: Option<i32>,
    stdout: String,
    stderr: String,
) -> (r: Result<String, String>)
    ensures
        success ==> r == Ok::<String, String>(stdout),
        !success ==> (r matches Err(message) && message@ == failure_text(
            code,
            signal,
            stdout@,
            stderr@,
        )),
{
    if success {
        return Ok(stdout);
    }
    let mut message = String::from_str("pfexec mdb -ke ::memstat: ");
    let (verb, noun, which) = match code {
        Some(c) => ("exited", "status", signed_decimal_string(c as i64)),
        None => match signal {
            Some(s) => ("terminated", "signal", signed_decimal_string(s as i64)),
            None => ("terminated", "signal", String::from_str("unknown")),
        },
    };
    message.append(verb);
    message.append(" unexpectedly with ");
    message.append(noun);
    message.append(" ");
    message.append(which.as_str());
    message.append(": stdout:\n");
    message.append(stdout.as_str());
    message.append("stderr:\n");
    message.append(stderr.as_str());
    assert(message@ =~= failure_text(code, signal, stdout@, stderr@));
    Err(message)
}

} // verus!
