//! Library-wide laws, each proved from the public specifications alone.

use vstd::prelude::*;
use vstd::utf8::decode_utf8;
use vstd::utf8::decode_utf8_encode_utf8;
use vstd::utf8::encode_utf8;
use vstd::utf8::valid_utf8;

use crate::assertion::Assert;
use crate::assertion::Matcher;
use crate::assertion::code_outcome;
use crate::assertion::failure_outcome;
use crate::assertion::halt_message;
use crate::assertion::interrupted_outcome;
use crate::assertion::spec_render;
use crate::assertion::spec_set_cmd;
use crate::assertion::spec_set_stdin;
use crate::assertion::spec_wrap;
use crate::assertion::stderr_outcome;
use crate::assertion::stdout_outcome;
use crate::assertion::success_outcome;
use crate::output::Output;
use crate::output::spec_output_fmt;
use crate::text::decimal_i32;
use crate::text::escaped_bytes;
use crate::text::rendered_bytes;

verus! {

/// A result marked successful passes `success` and halts `failure`: wrapping
/// it and asserting success yields the wrapper back, while asserting failure
/// yields a message.
pub proof fn lemma_succeeded_passes_success(o: Output)
    requires
        o.succeeded,
    ensures
        success_outcome(spec_wrap(o)) == Ok::<Assert, Seq<char>>(spec_wrap(o)),
        failure_outcome(spec_wrap(o)) is Err,
{
}

/// A result without an exit code passes `interrupted`, and `code` halts with
/// the command-interrupted message whatever the matcher's verdict is.
pub proof fn lemma_no_exit_code(o: Output, pred_ok: bool)
    requires
        o.exit_code is None,
    ensures
        interrupted_outcome(spec_wrap(o)) == Ok::<Assert, Seq<char>>(spec_wrap(o)),
        code_outcome(spec_wrap(o), pred_ok) == Err::<Assert, Seq<char>>(
            halt_message("Command interrupted"@, spec_wrap(o)),
        ),
{
}

/// A stream assertion on a wrapped result goes through exactly when the
/// matcher accepts the captured bytes; this holds symmetrically for the
/// standard-output and standard-error streams.
pub proof fn lemma_stream_iff<M: Matcher<Vec<u8>>>(o: Output, p: M)
    ensures
        stdout_outcome(spec_wrap(o), p.spec_matches(o.stdout@)) is Ok <==> p.spec_matches(
            o.stdout@,
        ),
        stderr_outcome(spec_wrap(o), p.spec_matches(o.stderr@)) is Ok <==> p.spec_matches(
            o.stderr@,
        ),
{
}

/// Attaching context twice keeps only the value set last: the wrapper, and
/// with it the diagnostic envelope, are as if only the second call had
/// happened.
pub proof fn lemma_context_last_wins(a: Assert, c1: String, c2: String, s1: Vec<u8>, s2: Vec<u8>)
    ensures
        spec_set_cmd(spec_set_cmd(a, c1), c2) == spec_set_cmd(a, c2),
        spec_set_stdin(spec_set_stdin(a, s1), s2) == spec_set_stdin(a, s2),
        spec_render(spec_set_cmd(spec_set_cmd(a, c1), c2)) == spec_render(spec_set_cmd(a, c2)),
        spec_render(spec_set_stdin(spec_set_stdin(a, s1), s2)) == spec_render(
            spec_set_stdin(a, s2),
        ),
{
}

/// True when the message ends with the wrapper's full diagnostic envelope.
pub open spec fn carries_envelope(m: Seq<char>, a: Assert) -> bool {
    let e = spec_render(a);
    m.len() >= e.len() && m.subrange(m.len() - e.len(), m.len() as int) == e
}

proof fn envelope_suffix(reason: Seq<char>, a: Assert)
    ensures
        carries_envelope(halt_message(reason, a), a),
{
    let m = halt_message(reason, a);
    let e = spec_render(a);
    assert(m.subrange(m.len() - e.len(), m.len() as int) =~= e);
}

/// Every failure path renders the same diagnostic envelope: whichever
/// assertion halted the chain, its message ends with the wrapper's rendered
/// command context, stdin context, and formatted output.
pub proof fn lemma_uniform_envelope(a: Assert, pred_ok: bool)
    ensures
        success_outcome(a) matches Err(m) ==> carries_envelope(m, a),
        failure_outcome(a) matches Err(m) ==> carries_envelope(m, a),
        interrupted_outcome(a) matches Err(m) ==> carries_envelope(m, a),
        code_outcome(a, pred_ok) matches Err(m) ==> carries_envelope(m, a),
        stdout_outcome(a, pred_ok) matches Err(m) ==> carries_envelope(m, a),
        stderr_outcome(a, pred_ok) matches Err(m) ==> carries_envelope(m, a),
{
    envelope_suffix("Unexpected failure"@, a);
    envelope_suffix("Unexpected success"@, a);
    envelope_suffix("Unexpected completion"@, a);
    envelope_suffix("Command interrupted"@, a);
    envelope_suffix("Unexpected return code"@, a);
    envelope_suffix("Unexpected stdout"@, a);
    envelope_suffix("Unexpected stderr"@, a);
}

/// Rendering a byte payload is lossless for valid UTF-8 text: re-encoding
/// the rendered characters gives back exactly the captured bytes. An invalid
/// payload is rendered as the escaped byte list instead of being decoded.
pub proof fn lemma_rendered_round_trip(b: Seq<u8>)
    ensures
        valid_utf8(b) ==> encode_utf8(rendered_bytes(b)) == b,
        !valid_utf8(b) ==> rendered_bytes(b) == escaped_bytes(b),
{
    if valid_utf8(b) {
        decode_utf8_encode_utf8(b);
    }
}

/// The diagnostic block embeds a valid UTF-8 standard-output payload as its
/// decoded text, contiguously and unaltered.
pub proof fn lemma_diagnostic_embeds_stdout(o: Output)
    requires
        valid_utf8(o.stdout@),
    ensures
        ({
            let block = spec_output_fmt(o);
            let text = decode_utf8(o.stdout@);
            exists|i: int|
                0 <= i && i + text.len() <= block.len() && #[trigger] block.subrange(
                    i,
                    i + text.len(),
                ) == text
        }),
{
    let block = spec_output_fmt(o);
    let text = decode_utf8(o.stdout@);
    let status = match o.exit_code {
        Some(c) => "code="@ + decimal_i32(c),
        None => "code=<interrupted>"@,
    };
    let i = (status.len() + "\n"@.len() + "stdout=```"@.len()) as int;
    assert(block.subrange(i, i + text.len()) =~= text);
}

} // verus!
