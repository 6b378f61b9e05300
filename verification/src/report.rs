//! The lines the default error callback emits.
//!
//! The error callback distinguishes three reports: a compile error arrives
//! with its module and line, a runtime error with the message alone, and
//! each stack-trace frame with module, line and frame description.  This
//! module composes the exact bytes to print for each; emitting them is the
//! embedder's business.

use vstd::prelude::*;
use vstd::utf8::encode_utf8;

use crate::types::WrenErrorType;

verus! {

/// The decimal digits of `n`, most significant first.
pub open spec fn dec_digits(n: nat) -> Seq<u8>
    decreases n,
{
    if n < 10 {
        seq![(48 + n) as u8]
    } else {
        dec_digits(n / 10).push((48 + n % 10) as u8)
    }
}

/// The decimal rendering of `n`, with a leading minus sign if negative.
pub open spec fn dec_int(n: int) -> Seq<u8> {
    if n < 0 {
        seq![45u8] + dec_digits((-n) as nat)
    } else {
        dec_digits(n as nat)
    }
}

/// Appends the decimal digits of `n`.
fn push_digits(out: &mut Vec<u8>, n: u32)
    ensures
        final(out)@ == old(out)@ + dec_digits(n as nat),
    decreases n,
{
    if n >= 10 {
        push_digits(out, n / 10);
    }
    out.push(48 + (n % 10) as u8);
    proof {
        assert(out@ =~= old(out)@ + dec_digits(n as nat));
    }
}

/// Renders `n` in decimal.
pub fn format_int(n: i32) -> (out: Vec<u8>)
    ensures
        out@ == dec_int(n as int),
{
    let mut out: Vec<u8> = Vec::new();
    if n < 0 {
        out.push(45);
        let wide: i64 = n as i64;
        push_digits(&mut out, (-wide) as u32);
    } else {
        push_digits(&mut out, n as u32);
    }
    proof {
        assert(out@ =~= dec_int(n as int));
    }
    out
}

/// The bytes of `" line "`.
pub open spec fn line_infix() -> Seq<u8> {
    seq![32u8, 108u8, 105u8, 110u8, 101u8, 32u8]
}

/// The line the default error callback emits for each kind of report:
/// `[<module> line <line>] <message>` for a compile error, the bare message
/// for a runtime error, and `[<module> line <line>] in <message>` for a
/// stack-trace frame.
pub open spec fn error_line_spec(
    kind: WrenErrorType,
    module: Seq<char>,
    line: int,
    message: Seq<char>,
) -> Seq<u8> {
    match kind {
        WrenErrorType::Compile => seq![91u8] + encode_utf8(module) + line_infix() + dec_int(line)
            + seq![93u8, 32u8] + encode_utf8(message),
        WrenErrorType::Runtime => encode_utf8(message),
        WrenErrorType::StackTrace => seq![91u8] + encode_utf8(module) + line_infix() + dec_int(
            line,
        ) + seq![93u8, 32u8, 105u8, 110u8, 32u8] + encode_utf8(message),
    }
}

/// Composes the line the default error callback emits.
pub fn default_error(kind: WrenErrorType, module: &str, line: i32, message: &str) -> (out: Vec<
    u8,
>)
    ensures
        out@ == error_line_spec(kind, module@, line as int, message@),
{
    match kind {
        WrenErrorType::Runtime => vstd::slice::slice_to_vec(message.as_bytes()),
        WrenErrorType::Compile => {
            let mut out: Vec<u8> = Vec::new();
            out.push(91);
            let mut part = vstd::slice::slice_to_vec(module.as_bytes());
            out.append(&mut part);
            out.push(32);
            out.push(108);
            out.push(105);
            out.push(110);
            out.push(101);
            out.push(32);
            let mut digits = format_int(line);
            out.append(&mut digits);
            out.push(93);
            out.push(32);
            let mut text = vstd::slice::slice_to_vec(message.as_bytes());
            out.append(&mut text);
            proof {
                assert(out@ =~= error_line_spec(kind, module@, line as int, message@));
            }
            out
        },
        WrenErrorType::StackTrace => {
            let mut out: Vec<u8> = Vec::new();
            out.push(91);
            let mut part = vstd::slice::slice_to_vec(module.as_bytes());
            out.append(&mut part);
            out.push(32);
            out.push(108);
            out.push(105);
            out.push(110);
            out.push(101);
            out.push(32);
            let mut digits = format_int(line);
            out.append(&mut digits);
            out.push(93);
            out.push(32);
            out.push(105);
            out.push(110);
            out.push(32);
            let mut text = vstd::slice::slice_to_vec(message.as_bytes());
            out.append(&mut text);
            proof {
                assert(out@ =~= error_line_spec(kind, module@, line as int, message@));
            }
            out
        },
    }
}

} // verus!
