use vstd::prelude::*;
use vstd::string::StringExecFns;

verus! {

/// The decimal digit character for `d`, for `0 <= d < 10`.
pub open spec fn digit_char(d: int) -> char {
    seq!['0', '1', '2', '3', '4', '5', '6', '7', '8', '9'][d]
}

/// `n` in base eight, without leading zeros (`0` for zero).
pub open spec fn octal_digits(n: nat) -> Seq<char>
    decreases n,
{
    if n < 8 {
        seq![digit_char(n as int)]
    } else {
        octal_digits(n / 8) + seq![digit_char((n % 8) as int)]
    }
}

/// `n` as two decimal digits, with a leading zero below ten.
pub open spec fn two_digits(n: int) -> Seq<char> {
    seq![digit_char(n / 10), digit_char(n % 10)]
}

fn digit_text(d: u32) -> (r: &'static str)
    requires
        d < 8,
    ensures
        r@ == seq![digit_char(d as int)],
{
    proof {
        reveal_strlit("0");
        reveal_strlit("1");
        reveal_strlit("2");
        reveal_strlit("3");
        reveal_strlit("4");
        reveal_strlit("5");
        reveal_strlit("6");
        reveal_strlit("7");
    }
    let r = if d == 0 {
        "0"
    } else if d == 1 {
        "1"
    } else if d == 2 {
        "2"
    } else if d == 3 {
        "3"
    } else if d == 4 {
        "4"
    } else if d == 5 {
        "5"
    } else if d == 6 {
        "6"
    } else {
        "7"
    };
    assert(r@ =~= seq![digit_char(d as int)]);
    r
}

/// Appends `n` in base eight to `out`.
pub fn push_octal(out: &mut String, n: u32)
    ensures
        final(out)@ == old(out)@ + octal_digits(n as nat),
    decreases n,
{
    if n >= 8 {
        push_octal(out, n / 8);
    }
    out.append(digit_text(n % 8));
    assert(final(out)@ =~= old(out)@ + octal_digits(n as nat));
}

} // verus!
