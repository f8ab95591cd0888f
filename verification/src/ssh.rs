//! Helpers for the remote command channel.
//!
//! A session is opened against the instance's public address on the
//! standard secure-shell port, and each executed command yields its
//! captured output concatenated with its numeric exit status as one
//! string; the caller parses that composite result itself. The helpers
//! here pin down both boundary formats.

use vstd::prelude::*;
use vstd::string::StringExecFns;

verus! {

/// The character for one decimal digit.
pub open spec fn decimal_digit_char(d: int) -> char {
    if d == 0 {
        '0'
    } else if d == 1 {
        '1'
    } else if d == 2 {
        '2'
    } else if d == 3 {
        '3'
    } else if d == 4 {
        '4'
    } else if d == 5 {
        '5'
    } else if d == 6 {
        '6'
    } else if d == 7 {
        '7'
    } else if d == 8 {
        '8'
    } else {
        '9'
    }
}

/// The decimal digits of a non-negative number, most significant first.
pub open spec fn decimal_digits(n: int) -> Seq<char>
    decreases n,
{
    if n <= 9 {
        seq![decimal_digit_char(n)]
    } else {
        decimal_digits(n / 10) + seq![decimal_digit_char(n % 10)]
    }
}

/// The decimal notation of a number, with a leading minus sign when it is
/// negative.
pub open spec fn decimal_text(n: int) -> Seq<char> {
    if n < 0 {
        seq!['-'] + decimal_digits(-n)
    } else {
        decimal_digits(n)
    }
}

fn digit_text(d: u32) -> (r: &'static str)
    requires
        d < 10,
    ensures
        r@ == seq![decimal_digit_char(d as int)],
{
    let r = match d {
        0 => "0",
        1 => "1",
        2 => "2",
        3 => "3",
        4 => "4",
        5 => "5",
        6 => "6",
        7 => "7",
        8 => "8",
        _ => "9",
    };
    proof {
        reveal_strlit("0");
        reveal_strlit("1");
        reveal_strlit("2");
        reveal_strlit("3");
        reveal_strlit("4");
        reveal_strlit("5");
        reveal_strlit("6");
        reveal_strlit("7");
        reveal_strlit("8");
        reveal_strlit("9");
        assert(r@ =~= seq![decimal_digit_char(d as int)]);
    }
    r
}

fn push_decimal(s: &mut String, n: u32)
    ensures
        final(s)@ == old(s)@ + decimal_digits(n as int),
    decreases n,
{
    if n <= 9 {
        s.append(digit_text(n));
    } else {
        push_decimal(s, n / 10);
        s.append(digit_text(n % 10));
        proof {
            assert(final(s)@ =~= old(s)@ + decimal_digits(n as int));
        }
    }
}

/// The exit status of a remote command, in the decimal notation that is
/// appended to the command's captured output.
pub fn exit_code_text(code: i32) -> (r: String)
    ensures
        r@ == decimal_text(code as int),
{
    let mut s = String::new();
    if code < 0 {
        s.append("-");
        let magnitude: u32 = (-(code as i64)) as u32;
        push_decimal(&mut s, magnitude);
        proof {
            reveal_strlit("-");
            assert(s@ =~= seq!['-'] + decimal_digits(-(code as int)));
        }
    } else {
        push_decimal(&mut s, code as u32);
        proof {
            assert(s@ =~= decimal_digits(code as int));
        }
    }
    s
}

/// The composite result of one remote command: the captured output with
/// the numeric exit status appended.
pub fn compose_exec_result(output: &str, exit_code: i32) -> (r: String)
    ensures
        r@ == output@ + decimal_text(exit_code as int),
{
    let mut s: String = output.to_owned();
    let tail = exit_code_text(exit_code);
    s.append(tail.as_str());
    s
}

/// The endpoint a remote-shell session connects to: the instance's public
/// address on the standard secure-shell port.
pub fn ssh_endpoint(ip: &str) -> (r: String)
    ensures
        r@ == ip@ + ":22"@,
{
    let mut s: String = ip.to_owned();
    s.append(":22");
    s
}

} // verus!
