//! Rendering of diagnostic text: decimal numbers, escaped byte lists, and
//! byte payloads that may or may not be valid UTF-8.

use vstd::prelude::*;
use vstd::string::StringExecFns;
use vstd::utf8::decode_utf8;
use vstd::utf8::valid_utf8;

verus! {

/// The character for a single decimal digit.
pub open spec fn digit_char(d: nat) -> char {
    if d == 0 {
        '0'
    } else if d == 1 {
        '1'
    } else if d == 2 {
        '2'
    } else if d == 3 {
        '3'
    } else if d == 4 {
        '4'
    } else if d == 5 {
        '5'
    } else if d == 6 {
        '6'
    } else if d == 7 {
        '7'
    } else if d == 8 {
        '8'
    } else {
        '9'
    }
}

/// Decimal rendering of a natural number, most significant digit first.
pub open spec fn decimal_nat(n: nat) -> Seq<char>
    decreases n,
{
    if n < 10 {
        seq![digit_char(n)]
    } else {
        decimal_nat(n / 10) + seq![digit_char(n % 10)]
    }
}

/// Decimal rendering of a signed exit code: a minus sign, if any, then digits.
pub open spec fn decimal_i32(n: i32) -> Seq<char> {
    if n >= 0 {
        decimal_nat(n as nat)
    } else {
        seq!['-'] + decimal_nat((-(n as int)) as nat)
    }
}

/// Append a single decimal digit to `s`.
fn append_digit(s: &mut String, d: u32)
    requires
        d < 10,
    ensures
        final(s)@ == old(s)@ + seq![digit_char(d as nat)],
{
    if d == 0 {
        s.append("0");
        proof {
            reveal_strlit("0");
            assert(final(s)@ =~= old(s)@ + seq![digit_char(d as nat)]);
        }
    } else if d == 1 {
        s.append("1");
        proof {
            reveal_strlit("1");
            assert(final(s)@ =~= old(s)@ + seq![digit_char(d as nat)]);
        }
    } else if d == 2 {
        s.append("2");
        proof {
            reveal_strlit("2");
            assert(final(s)@ =~= old(s)@ + seq![digit_char(d as nat)]);
        }
    } else if d == 3 {
        s.append("3");
        proof {
            reveal_strlit("3");
            assert(final(s)@ =~= old(s)@ + seq![digit_char(d as nat)]);
        }
    } else if d == 4 {
        s.append("4");
        proof {
            reveal_strlit("4");
            assert(final(s)@ =~= old(s)@ + seq![digit_char(d as nat)]);
        }
    } else if d == 5 {
        s.append("5");
        proof {
            reveal_strlit("5");
            assert(final(s)@ =~= old(s)@ + seq![digit_char(d as nat)]);
        }
    } else if d == 6 {
        s.append("6");
        proof {
            reveal_strlit("6");
            assert(final(s)@ =~= old(s)@ + seq![digit_char(d as nat)]);
        }
    } else if d == 7 {
        s.append("7");
        proof {
            reveal_strlit("7");
            assert(final(s)@ =~= old(s)@ + seq![digit_char(d as nat)]);
        }
    } else if d == 8 {
        s.append("8");
        proof {
            reveal_strlit("8");
            assert(final(s)@ =~= old(s)@ + seq![digit_char(d as nat)]);
        }
    } else {
        s.append("9");
        proof {
            reveal_strlit("9");
            assert(final(s)@ =~= old(s)@ + seq![digit_char(d as nat)]);
        }
    }
}

/// Append the decimal rendering of `n` to `s`.
fn append_decimal_u32(s: &mut String, n: u32)
    ensures
        final(s)@ == old(s)@ + decimal_nat(n as nat),
    decreases n,
{
    if n >= 10 {
        append_decimal_u32(s, n / 10);
        append_digit(s, n % 10);
        proof {
            assert((n / 10) as nat == n as nat / 10);
            assert((n % 10) as nat == n as nat % 10);
            assert(final(s)@ =~= old(s)@ + decimal_nat(n as nat));
        }
    } else {
        append_digit(s, n);
    }
}

/// Append the decimal rendering of the exit code `n` to `s`.
pub(crate) fn append_decimal_i32(s: &mut String, n: i32)
    ensures
        final(s)@ == old(s)@ + decimal_i32(n),
{
    if n >= 0 {
        append_decimal_u32(s, n as u32);
    } else {
        s.append("-");
        let m: u32 = (-(n as i64)) as u32;
        append_decimal_u32(s, m);
        proof {
            reveal_strlit("-");
            assert(m as nat == (-(n as int)) as nat);
            assert(final(s)@ =~= old(s)@ + decimal_i32(n));
        }
    }
}

/// Escaped rendering of raw bytes, in the style `[104, 105]`.
pub open spec fn escaped_bytes(b: Seq<u8>) -> Seq<char> {
    seq!['['] + escaped_from(b, 0) + seq![']']
}

/// The escaped byte list from index `i` on: decimal byte values separated by
/// a comma and a space.
pub open spec fn escaped_from(b: Seq<u8>, i: int) -> Seq<char>
    decreases b.len() - i,
{
    if i < 0 || i >= b.len() {
        Seq::empty()
    } else if i == b.len() - 1 {
        decimal_nat(b[i] as nat)
    } else {
        decimal_nat(b[i] as nat) + seq![',', ' '] + escaped_from(b, i + 1)
    }
}

/// Append the escaped rendering of `b` to `s`.
fn append_escaped(s: &mut String, b: &Vec<u8>)
    ensures
        final(s)@ == old(s)@ + escaped_bytes(b@),
{
    s.append("[");
    proof {
        reveal_strlit("[");
    }
    let ghost base = s@;
    let mut i: usize = 0;
    while i < b.len()
        invariant
            i <= b.len(),
            s@ + escaped_from(b@, i as int) =~= base + escaped_from(b@, 0),
        decreases b.len() - i,
    {
        append_decimal_u32(s, b[i] as u32);
        if i + 1 < b.len() {
            s.append(", ");
            proof {
                reveal_strlit(", ");
                assert(s@ + escaped_from(b@, i + 1) =~= base + escaped_from(b@, 0));
            }
        } else {
            proof {
                assert(s@ + escaped_from(b@, i + 1) =~= base + escaped_from(b@, 0));
            }
        }
        i = i + 1;
    }
    s.append("]");
    proof {
        reveal_strlit("]");
        assert(final(s)@ =~= old(s)@ + escaped_bytes(b@));
    }
}

/// Relies on `std::str::from_utf8`: it returns `Ok` exactly when the bytes
/// are a valid UTF-8 encoding, and the string it then yields holds the
/// characters that the bytes encode (vstd's `decode_utf8`).
#[verifier::external_body]
fn utf8_decode(b: &Vec<u8>) -> (r: Option<String>)
    ensures
        match r {
            Some(s) => valid_utf8(b@) && s@ == decode_utf8(b@),
            None => !valid_utf8(b@),
        },
{
    match std::str::from_utf8(b.as_slice()) {
        Ok(s) => Some(s.to_owned()),
        Err(_) => None,
    }
}

/// How a byte payload appears in a diagnostic: the decoded text when the
/// bytes are valid UTF-8, the escaped byte list otherwise.
pub open spec fn rendered_bytes(b: Seq<u8>) -> Seq<char> {
    if valid_utf8(b) {
        decode_utf8(b)
    } else {
        escaped_bytes(b)
    }
}

/// Append the rendering of the byte payload `b` to `s`.
pub(crate) fn append_rendered(s: &mut String, b: &Vec<u8>)
    ensures
        final(s)@ == old(s)@ + rendered_bytes(b@),
{
    match utf8_decode(b) {
        Some(t) => {
            s.append(t.as_str());
        },
        None => {
            append_escaped(s, b);
        },
    }
}

} // verus!
