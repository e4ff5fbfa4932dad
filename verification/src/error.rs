//! The error value every fallible PTY operation returns: a single message
//! string, rendered for display with a fixed prefix.

use vstd::prelude::*;
use vstd::string::StringExecFns;

verus! {

/// Error raised by PTY operations; the field is the bare message.
#[derive(Debug)]
pub struct PtyError(pub String);

/// The decimal digit character for a value below ten.
pub open spec fn dec_digit(d: int) -> char
    recommends
        0 <= d < 10,
{
    ((48 + d) as u8) as char
}

/// The decimal rendering of a natural number, most significant digit first.
pub open spec fn dec_str_nat(n: nat) -> Seq<char>
    decreases n,
{
    if n < 10 {
        seq![dec_digit(n as int)]
    } else {
        dec_str_nat(n / 10) + seq![dec_digit((n % 10) as int)]
    }
}

/// The decimal rendering of an integer: a minus sign for negative values,
/// then the digits of the magnitude.
pub open spec fn dec_str_int(n: int) -> Seq<char> {
    if n < 0 {
        seq!['-'] + dec_str_nat((-n) as nat)
    } else {
        dec_str_nat(n as nat)
    }
}

/// Appends the decimal digits of `n` to `s`.
fn push_dec_u32(n: u32, s: &mut String)
    ensures
        final(s)@ == old(s)@ + dec_str_nat(n as nat),
    decreases n,
{
    if n >= 10 {
        push_dec_u32(n / 10, s);
    }
    let d = (n % 10) as u8;
    let c = (48 + d) as char;
    s.push(c);
    proof {
        assert(c == dec_digit((n % 10) as int));
        if n < 10 {
            assert(old(s)@ + dec_str_nat(n as nat) =~= old(s)@.push(c));
        } else {
            assert(old(s)@ + dec_str_nat(n as nat) =~= (old(s)@ + dec_str_nat(
                (n / 10) as nat,
            )).push(c));
        }
    }
}

/// Renders an integer in decimal, exactly as `dec_str_int` states.
pub fn format_i32(n: i32) -> (s: String)
    ensures
        s@ == dec_str_int(n as int),
{
    let mut s = String::new();
    if n < 0 {
        s.push('-');
        proof {
            assert(s@ =~= seq!['-']);
        }
        let m: u32 = (-(n as i64)) as u32;
        push_dec_u32(m, &mut s);
    } else {
        push_dec_u32(n as u32, &mut s);
    }
    s
}

impl PtyError {
    /// Wraps a fixed message.
    pub fn new(msg: &str) -> (e: PtyError)
        ensures
            e.0@ == msg@,
    {
        PtyError(msg.to_owned())
    }

    /// Wraps a fixed prefix followed by a detail string, as when an OS error
    /// rendering is attached to a failure description.
    pub fn with_detail(prefix: &str, detail: &str) -> (e: PtyError)
        ensures
            e.0@ == prefix@ + detail@,
    {
        let mut m = prefix.to_owned();
        m.append(detail);
        PtyError(m)
    }

    /// The display rendering of the error: the fixed prefix followed by the
    /// bare message.
    pub fn message(&self) -> (r: String)
        ensures
            r@ == "Pseudo Terminal Error: "@ + self.0@,
    {
        let prefix = String::from_str("Pseudo Terminal Error: ");
        prefix.concat(self.0.as_str())
    }
}

} // verus!
