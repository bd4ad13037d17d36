//! User-visible report lines.
//!
//! The only line the core itself composes is the announcement of a
//! freshly started background job; everything else the shell prints is
//! an error's message. The decimal renderer is verified against the
//! mathematical numeral of the value.

use vstd::prelude::*;

verus! {

/// The character of one decimal digit.
pub open spec fn digit_char(d: nat) -> char {
    if d == 0 {
        '0'
    } else if d == 1 {
        '1'
    } else if d == 2 {
        '2'
    } else if d == 3 {
        '3'
    } else if d == 4 {
        '4'
    } else if d == 5 {
        '5'
    } else if d == 6 {
        '6'
    } else if d == 7 {
        '7'
    } else if d == 8 {
        '8'
    } else {
        '9'
    }
}

/// The decimal numeral of a nonnegative value, most significant digit
/// first and without leading zeroes (zero itself is `"0"`).
pub open spec fn dec_str(n: nat) -> Seq<char>
    decreases n,
{
    if n < 10 {
        seq![digit_char(n)]
    } else {
        dec_str(n / 10) + seq![digit_char(n % 10)]
    }
}

/// One decimal digit as text.
fn digit_str(d: u32) -> (r: &'static str)
    requires
        d < 10,
    ensures
        r@ == seq![digit_char(d as nat)],
{
    let s: &'static str = match d {
        0 => "0",
        1 => "1",
        2 => "2",
        3 => "3",
        4 => "4",
        5 => "5",
        6 => "6",
        7 => "7",
        8 => "8",
        _ => "9",
    };
    proof {
        reveal_strlit("0");
        reveal_strlit("1");
        reveal_strlit("2");
        reveal_strlit("3");
        reveal_strlit("4");
        reveal_strlit("5");
        reveal_strlit("6");
        reveal_strlit("7");
        reveal_strlit("8");
        reveal_strlit("9");
        assert(s@ =~= seq![digit_char(d as nat)]);
    }
    s
}

/// Renders a value as its decimal numeral.
pub fn fmt_u32(n: u32) -> (r: String)
    ensures
        r@ == dec_str(n as nat),
    decreases n,
{
    let d = n % 10;
    let ds = digit_str(d);
    if n < 10 {
        String::from_str(ds)
    } else {
        let mut prefix = fmt_u32(n / 10);
        prefix.append(ds);
        prefix
    }
}

/// The announcement of a background job: its table id and its pid.
pub open spec fn bg_report_spec(id: nat, pid: nat) -> Seq<char> {
    "Job %"@ + dec_str(id) + " ("@ + dec_str(pid) + ") has started."@
}

/// Composes the line reported when a background job starts.
pub fn bg_report(id: u32, pid: i32) -> (r: String)
    requires
        pid >= 0,
    ensures
        r@ == bg_report_spec(id as nat, pid as nat),
{
    let mut line = String::from_str("Job %");
    let id_text = fmt_u32(id);
    line.append(id_text.as_str());
    line.append(" (");
    let pid_text = fmt_u32(pid as u32);
    line.append(pid_text.as_str());
    line.append(") has started.");
    line
}

} // verus!
