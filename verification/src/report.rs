use vstd::prelude::*;
use vstd::string::StringExecFns;

verus! {

/// The character that writes the digit `d`.
pub open spec fn digit(d: int) -> char {
    if d == 0 {
        '0'
    } else if d == 1 {
        '1'
    } else if d == 2 {
        '2'
    } else if d == 3 {
        '3'
    } else if d == 4 {
        '4'
    } else if d == 5 {
        '5'
    } else if d == 6 {
        '6'
    } else if d == 7 {
        '7'
    } else if d == 8 {
        '8'
    } else {
        '9'
    }
}

/// The decimal digits of `n`, most significant first, with no leading zero
/// but for zero itself.
pub open spec fn decimal(n: nat) -> Seq<char>
    decreases n,
{
    if n < 10 {
        seq![digit(n as int)]
    } else {
        decimal(n / 10).push(digit((n % 10) as int))
    }
}

/// How an integer is written: a minus sign where it is negative, then the
/// decimal digits of its magnitude.
pub open spec fn numeral(v: int) -> Seq<char> {
    if v < 0 {
        seq!['-'] + decimal((-v) as nat)
    } else {
        decimal(v as nat)
    }
}

/// The line that reports that a reader saw `v`.
pub open spec fn read_report(v: int) -> Seq<char> {
    "Read value as "@ + numeral(v)
}

/// The line that reports that the writer raised the value to `v`.
pub open spec fn write_report(v: int) -> Seq<char> {
    "Incremented value by 1 to "@ + numeral(v)
}

fn digit_text(d: u32) -> (s: &'static str)
    requires
        d < 10,
    ensures
        s@ == seq![digit(d as int)],
{
    proof {
        reveal_strlit("0");
        reveal_strlit("1");
        reveal_strlit("2");
        reveal_strlit("3");
        reveal_strlit("4");
        reveal_strlit("5");
        reveal_strlit("6");
        reveal_strlit("7");
        reveal_strlit("8");
        reveal_strlit("9");
    }
    let s = if d == 0 {
        "0"
    } else if d == 1 {
        "1"
    } else if d == 2 {
        "2"
    } else if d == 3 {
        "3"
    } else if d == 4 {
        "4"
    } else if d == 5 {
        "5"
    } else if d == 6 {
        "6"
    } else if d == 7 {
        "7"
    } else if d == 8 {
        "8"
    } else {
        "9"
    };
    assert(s@ =~= seq![digit(d as int)]);
    s
}

fn push_decimal(out: &mut String, n: u32)
    ensures
        final(out)@ == old(out)@ + decimal(n as nat),
    decreases n,
{
    if n >= 10 {
        push_decimal(out, n / 10);
    }
    out.append(digit_text(n % 10));
    assert(out@ =~= old(out)@ + decimal(n as nat));
}

/// Writes `v` in decimal.
pub fn numeral_text(v: i32) -> (s: String)
    ensures
        s@ == numeral(v as int),
{
    let mut s = String::new();
    if v < 0 {
        proof {
            reveal_strlit("-");
        }
        s.append("-");
        let magnitude: u32 = (-(v as i64)) as u32;
        push_decimal(&mut s, magnitude);
    } else {
        push_decimal(&mut s, v as u32);
    }
    assert(s@ =~= numeral(v as int));
    s
}

/// The line that a reader emits on seeing `v`.
pub fn read_line(v: i32) -> (s: String)
    ensures
        s@ == read_report(v as int),
{
    let mut s = String::from_str("Read value as ");
    let digits = numeral_text(v);
    s.append(digits.as_str());
    s
}

/// The line that the writer emits on raising the value to `v`.
pub fn write_line(v: i32) -> (s: String)
    ensures
        s@ == write_report(v as int),
{
    let mut s = String::from_str("Incremented value by 1 to ");
    let digits = numeral_text(v);
    s.append(digits.as_str());
    s
}

} // verus!
