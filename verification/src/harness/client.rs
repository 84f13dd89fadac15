//! The line protocol between a harness client and the harness server: the request
//! text the client sends and the exit code it reads back.
use crate::fuzz::{spec_trim, trim};
use crate::harness::types::{all_digits, append_decimal, decimal_digits, decimal_value, parse_usize, spec_parse_usize};
use vstd::prelude::*;
use vstd::string::{StrSliceExecFns, StringExecFns};

verus! {

/// The request for running `shader` with `metadata`: the metadata on a line, then the
/// length of the shader in bytes (`str::len`) on a line, then the shader and a line break.
pub open spec fn spec_request_text(shader: &str, metadata: &str) -> Seq<char> {
    metadata@ + "\n"@ + decimal_digits(shader.len() as nat) + "\n"@ + shader@ + "\n"@
}

/// The text a client sends to run `shader` with `metadata`.
pub fn request_text(shader: &str, metadata: &str) -> (r: String)
    ensures
        r@ == spec_request_text(shader, metadata),
{
    let mut out = String::from_str(metadata);
    out.append("\n");
    append_decimal(&mut out, shader.len());
    out.append("\n");
    out.append(shader);
    out.append("\n");
    assert(out@ =~= spec_request_text(shader, metadata));
    out
}

/// An `i32` in decimal, with an optional sign, as `str::parse` reads it.
pub open spec fn spec_parse_i32(t: Seq<char>) -> Option<i32> {
    if t.len() > 0 && t[0] == '-' {
        let d = t.drop_first();
        if d.len() == 0 || !all_digits(d) || decimal_value(d) > 0x8000_0000 {
            None
        } else {
            Some((-decimal_value(d)) as i32)
        }
    } else {
        match spec_parse_usize(t) {
            Some(v) => if v <= i32::MAX {
                Some(v as i32)
            } else {
                None
            },
            None => None,
        }
    }
}

/// Reads an `i32` in decimal, with an optional sign.
pub fn parse_i32(t: &str) -> (r: Option<i32>)
    ensures
        r == spec_parse_i32(t@),
{
    let n = t.unicode_len();
    if n > 0 && t.get_char(0) == '-' {
        let rest = t.substring_char(1, n);
        assert(rest@ =~= t@.drop_first());
        if rest.unicode_len() > 0 && rest.get_char(0) == '+' {
            assert(!all_digits(rest@)) by {
                assert(crate::harness::types::digit_val(rest@[0]) is None);
            }
            return None;
        }
        match parse_usize(rest) {
            Some(v) => {
                if v <= 0x8000_0000usize {
                    let m = v as i64;
                    Some((-m) as i32)
                } else {
                    None
                }
            },
            None => None,
        }
    } else {
        match parse_usize(t) {
            Some(v) => {
                if v <= 0x7fff_ffffusize {
                    Some(v as i32)
                } else {
                    None
                }
            },
            None => None,
        }
    }
}

/// The exit code in the server's reply line: the line without surrounding white space,
/// read as an `i32`; `None` where it is not one.
pub fn exit_code_of(reply: &str) -> (r: Option<i32>)
    ensures
        r == spec_parse_i32(spec_trim(reply@)),
{
    let t = trim(reply);
    parse_i32(t.as_str())
}

} // verus!
