//! The captured result of a finished process execution, and its rendering as
//! a human-readable diagnostic block.

use vstd::prelude::*;
use vstd::string::StringExecFns;

use crate::text::append_decimal_i32;
use crate::text::append_rendered;
use crate::text::decimal_i32;
use crate::text::rendered_bytes;

verus! {

/// Immutable snapshot of a finished (or abnormally terminated) process
/// execution.
pub struct Output {
    /// Exit code, present when the process terminated normally and absent
    /// when it was ended by a signal or interruption.
    pub exit_code: Option<i32>,
    /// Platform-defined success, conventionally exit code zero.
    pub succeeded: bool,
    /// Every byte the process wrote to its standard output.
    pub stdout: Vec<u8>,
    /// Every byte the process wrote to its standard error.
    pub stderr: Vec<u8>,
}

/// The diagnostic block for a captured result: a line for the exit status
/// (the code when present, an explicit marker when the process was ended
/// without one), then one line for each output stream. Stream bytes appear
/// decoded when they are valid UTF-8 and as an escaped byte list otherwise.
pub open spec fn spec_output_fmt(o: Output) -> Seq<char> {
    (match o.exit_code {
        Some(c) => "code="@ + decimal_i32(c),
        None => "code=<interrupted>"@,
    }) + "\n"@ + "stdout=```"@ + rendered_bytes(o.stdout@) + "```\n"@ + "stderr=```"@
        + rendered_bytes(o.stderr@) + "```\n"@
}

/// Render a captured result as its diagnostic block.
pub fn output_fmt(o: &Output) -> (s: String)
    ensures
        s@ == spec_output_fmt(*o),
{
    let mut s = String::new();
    match o.exit_code {
        Some(c) => {
            s.append("code=");
            append_decimal_i32(&mut s, c);
        },
        None => {
            s.append("code=<interrupted>");
        },
    }
    s.append("\n");
    s.append("stdout=```");
    append_rendered(&mut s, &o.stdout);
    s.append("```\n");
    s.append("stderr=```");
    append_rendered(&mut s, &o.stderr);
    s.append("```\n");
    proof {
        assert(s@ =~= spec_output_fmt(*o));
    }
    s
}

} // verus!
