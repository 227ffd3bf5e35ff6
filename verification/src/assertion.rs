//! The assertion wrapper: a consuming builder over a captured [`Output`]
//! whose chainable operations either hand the wrapper back or yield the
//! exact failure message.

use vstd::prelude::*;
use vstd::string::StringExecFns;

use crate::output::Output;
use crate::output::output_fmt;
use crate::output::spec_output_fmt;
use crate::text::append_rendered;
use crate::text::rendered_bytes;

verus! {

/// A boolean-valued matcher over values of type `T`: the capability the
/// assertion operations demand of a caller-supplied expectation. What a
/// matcher accepts is given by `spec_matches`, and `matches` decides it.
pub trait Matcher<T: View> {
    /// The set of accepted values, as a predicate over the value's view.
    spec fn spec_matches(&self, v: T::V) -> bool;

    /// Decide whether `v` is accepted.
    fn matches(&self, v: &T) -> (r: bool)
        ensures
            r == self.spec_matches(v@),
    ;
}

/// A matcher that accepts exactly one exit code.
pub struct EqCode {
    /// The accepted exit code.
    pub expected: i32,
}

impl Matcher<i32> for EqCode {
    open spec fn spec_matches(&self, v: i32) -> bool {
        v == self.expected
    }

    fn matches(&self, v: &i32) -> (r: bool) {
        *v == self.expected
    }
}

/// A matcher that accepts exactly one byte sequence.
pub struct EqBytes {
    /// The accepted byte sequence.
    pub expected: Vec<u8>,
}

impl Matcher<Vec<u8>> for EqBytes {
    open spec fn spec_matches(&self, v: Seq<u8>) -> bool {
        v == self.expected@
    }

    fn matches(&self, v: &Vec<u8>) -> (r: bool) {
        if v.len() != self.expected.len() {
            return false;
        }
        let mut i: usize = 0;
        while i < v.len()
            invariant
                i <= v.len(),
                v@.len() == self.expected@.len(),
                forall|k: int| 0 <= k < i ==> v@[k] == self.expected@[k],
            decreases v.len() - i,
        {
            if v[i] != self.expected[i] {
                return false;
            }
            i = i + 1;
        }
        proof {
            assert(v@ =~= self.expected@);
        }
        true
    }
}

/// `Output` assertions: the wrapper holds a captured result and optional
/// diagnostic context, and every assertion operation consumes it.
pub struct Assert {
    /// The captured result under assertion; never replaced once wrapped.
    pub output: Output,
    /// Textual rendering of the invoked command line, for context.
    pub cmd: Option<String>,
    /// The bytes fed to the process's standard input, for context.
    pub stdin: Option<Vec<u8>>,
}

/// A freshly wrapped result: no command context, no stdin context.
pub open spec fn spec_wrap(output: Output) -> Assert {
    Assert { output, cmd: None, stdin: None }
}

/// Attaching a command line replaces any earlier one; the rest is unchanged.
pub open spec fn spec_set_cmd(a: Assert, cmd: String) -> Assert {
    Assert { cmd: Some(cmd), ..a }
}

/// Attaching stdin bytes replaces any earlier ones; the rest is unchanged.
pub open spec fn spec_set_stdin(a: Assert, stdin: Vec<u8>) -> Assert {
    Assert { stdin: Some(stdin), ..a }
}

/// The diagnostic envelope: the command context and the stdin context when
/// present, then the formatted output. Every failure message carries it.
pub open spec fn spec_render(a: Assert) -> Seq<char> {
    (match a.cmd {
        Some(c) => "command=`"@ + c@ + "`\n"@,
        None => Seq::empty(),
    }) + (match a.stdin {
        Some(b) => "stdin=```"@ + rendered_bytes(b@) + "```\n"@,
        None => Seq::empty(),
    }) + spec_output_fmt(a.output)
}

/// A failure message: the reason line, then the diagnostic envelope.
pub open spec fn halt_message(reason: Seq<char>, a: Assert) -> Seq<char> {
    reason + "\n"@ + spec_render(a)
}

/// Outcome of `success` at the specification level.
pub open spec fn success_outcome(a: Assert) -> Result<Assert, Seq<char>> {
    if a.output.succeeded {
        Ok(a)
    } else {
        Err(halt_message("Unexpected failure"@, a))
    }
}

/// Outcome of `failure` at the specification level.
pub open spec fn failure_outcome(a: Assert) -> Result<Assert, Seq<char>> {
    if !a.output.succeeded {
        Ok(a)
    } else {
        Err(halt_message("Unexpected success"@, a))
    }
}

/// Outcome of `interrupted` at the specification level.
pub open spec fn interrupted_outcome(a: Assert) -> Result<Assert, Seq<char>> {
    if a.output.exit_code is None {
        Ok(a)
    } else {
        Err(halt_message("Unexpected completion"@, a))
    }
}

/// Outcome of `code` at the specification level, given the matcher's verdict
/// on the exit code. Without an exit code the operation halts whatever the
/// matcher would say.
pub open spec fn code_outcome(a: Assert, pred_ok: bool) -> Result<Assert, Seq<char>> {
    match a.output.exit_code {
        None => Err(halt_message("Command interrupted"@, a)),
        Some(_) => if pred_ok {
            Ok(a)
        } else {
            Err(halt_message("Unexpected return code"@, a))
        },
    }
}

/// Outcome of `stdout` at the specification level, given the matcher's
/// verdict on the captured standard output.
pub open spec fn stdout_outcome(a: Assert, pred_ok: bool) -> Result<Assert, Seq<char>> {
    if pred_ok {
        Ok(a)
    } else {
        Err(halt_message("Unexpected stdout"@, a))
    }
}

/// Outcome of `stderr` at the specification level, given the matcher's
/// verdict on the captured standard error.
pub open spec fn stderr_outcome(a: Assert, pred_ok: bool) -> Result<Assert, Seq<char>> {
    if pred_ok {
        Ok(a)
    } else {
        Err(halt_message("Unexpected stderr"@, a))
    }
}

/// Relates an executable result to its specification-level outcome: the same
/// wrapper on success, the same message text on failure.
pub open spec fn outcome_is(r: Result<Assert, String>, o: Result<Assert, Seq<char>>) -> bool {
    match r {
        Ok(a) => o == Ok::<Assert, Seq<char>>(a),
        Err(m) => o matches Err(t) && m@ == t,
    }
}

impl Assert {
    /// Wrap a captured result with no context attached.
    pub fn new(output: Output) -> (r: Self)
        ensures
            r == spec_wrap(output),
    {
        Self { output, cmd: None, stdin: None }
    }

    /// Attach the command line for additional context; a later call
    /// overwrites an earlier one.
    pub fn set_cmd(self, cmd: String) -> (r: Self)
        ensures
            r == spec_set_cmd(self, cmd),
    {
        Self { cmd: Some(cmd), ..self }
    }

    /// Attach the standard-input bytes for additional context; a later call
    /// overwrites an earlier one.
    pub fn set_stdin(self, stdin: Vec<u8>) -> (r: Self)
        ensures
            r == spec_set_stdin(self, stdin),
    {
        Self { stdin: Some(stdin), ..self }
    }

    /// Access the contained captured result without consuming the wrapper.
    pub fn get_output(&self) -> (r: &Output)
        ensures
            *r == self.output,
    {
        &self.output
    }

    /// Build the failure message for the given reason line.
    fn message(reason: &str, a: &Assert) -> (m: String)
        ensures
            m@ == halt_message(reason@, *a),
    {
        let mut m = String::new();
        m.append(reason);
        m.append("\n");
        let r = a.render();
        m.append(r.as_str());
        proof {
            assert(m@ =~= halt_message(reason@, *a));
        }
        m
    }

    /// The diagnostic envelope for this wrapper, as failure messages carry it.
    pub fn render(&self) -> (s: String)
        ensures
            s@ == spec_render(*self),
    {
        let mut s = String::new();
        match &self.cmd {
            Some(c) => {
                s.append("command=`");
                s.append(c.as_str());
                s.append("`\n");
            },
            None => {},
        }
        match &self.stdin {
            Some(b) => {
                s.append("stdin=```");
                append_rendered(&mut s, b);
                s.append("```\n");
            },
            None => {},
        }
        let o = output_fmt(&self.output);
        s.append(o.as_str());
        proof {
            assert(s@ =~= spec_render(*self));
        }
        s
    }

    /// Ensure the command succeeded; otherwise yield the failure message.
    pub fn success(self) -> (r: Result<Self, String>)
        ensures
            outcome_is(r, success_outcome(self)),
    {
        if !self.output.succeeded {
            let m = Self::message("Unexpected failure", &self);
            Err(m)
        } else {
            Ok(self)
        }
    }

    /// Ensure the command failed; otherwise yield the failure message.
    pub fn failure(self) -> (r: Result<Self, String>)
        ensures
            outcome_is(r, failure_outcome(self)),
    {
        if self.output.succeeded {
            let m = Self::message("Unexpected success", &self);
            Err(m)
        } else {
            Ok(self)
        }
    }

    /// Ensure the command was ended without an exit code; otherwise yield the
    /// failure message.
    pub fn interrupted(self) -> (r: Result<Self, String>)
        ensures
            outcome_is(r, interrupted_outcome(self)),
    {
        if self.output.exit_code.is_some() {
            let m = Self::message("Unexpected completion", &self);
            Err(m)
        } else {
            Ok(self)
        }
    }

    /// Ensure the command returned an exit code the matcher accepts. Without
    /// an exit code the chain halts whatever the matcher is; with one that
    /// the matcher rejects it halts too.
    pub fn code<M: Matcher<i32>>(self, pred: &M) -> (r: Result<Self, String>)
        ensures
            outcome_is(
                r,
                code_outcome(
                    self,
                    (self.output.exit_code matches Some(c) && pred.spec_matches(c)),
                ),
            ),
    {
        match self.output.exit_code {
            None => {
                let m = Self::message("Command interrupted", &self);
                Err(m)
            },
            Some(c) => {
                if !pred.matches(&c) {
                    let m = Self::message("Unexpected return code", &self);
                    Err(m)
                } else {
                    Ok(self)
                }
            },
        }
    }

    /// Ensure the command wrote standard-output bytes the matcher accepts.
    pub fn stdout<M: Matcher<Vec<u8>>>(self, pred: &M) -> (r: Result<Self, String>)
        ensures
            outcome_is(r, stdout_outcome(self, pred.spec_matches(self.output.stdout@))),
    {
        if !pred.matches(&self.output.stdout) {
            let m = Self::message("Unexpected stdout", &self);
            Err(m)
        } else {
            Ok(self)
        }
    }

    /// Ensure the command wrote standard-error bytes the matcher accepts.
    pub fn stderr<M: Matcher<Vec<u8>>>(self, pred: &M) -> (r: Result<Self, String>)
        ensures
            outcome_is(r, stderr_outcome(self, pred.spec_matches(self.output.stderr@))),
    {
        if !pred.matches(&self.output.stderr) {
            let m = Self::message("Unexpected stderr", &self);
            Err(m)
        } else {
            Ok(self)
        }
    }
}

/// Extend captured results with an interface that provides assertions.
pub trait OutputAssertExt {
    /// Wrap with an interface that provides assertions on the captured
    /// output.
    fn into_assert(self) -> Assert;
}

impl OutputAssertExt for Output {
    fn into_assert(self) -> (r: Assert)
        ensures
            r == spec_wrap(self),
    {
        Assert::new(self)
    }
}

} // verus!
