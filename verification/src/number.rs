//! Decimal rendering of unsigned numbers.
use vstd::prelude::*;

verus! {

/// The character of the decimal digit `d`.
pub open spec fn digit_char(d: nat) -> char {
    "0123456789"@[d as int]
}

/// The decimal digits of `n`, without leading zeros, as `{}` formats a number.
pub open spec fn decimal(n: nat) -> Seq<char>
    decreases n,
{
    if n < 10 {
        seq![digit_char(n)]
    } else {
        decimal(n / 10).push(digit_char(n % 10))
    }
}

/// The one-character text of the decimal digit `d`.
fn digit_text(d: u32) -> (s: &'static str)
    requires
        d < 10,
    ensures
        s@ == seq![digit_char(d as nat)],
{
    let digits = "0123456789";
    proof {
        reveal_strlit("0123456789");
    }
    let s = digits.substring_char(d as usize, (d + 1) as usize);
    assert(s@ =~= seq![digit_char(d as nat)]);
    s
}

/// Renders `n` in decimal.
pub fn decimal_text(n: u32) -> (s: String)
    ensures
        s@ == decimal(n as nat),
{
    let mut m = n;
    let mut tail = String::new();
    while m >= 10
        invariant
            decimal(n as nat) == decimal(m as nat) + tail@,
        decreases m,
    {
        let d = digit_text(m % 10);
        let next = String::from_str(d).concat(tail.as_str());
        assert(decimal(m as nat) == decimal((m / 10) as nat).push(digit_char((m % 10) as nat)));
        assert(decimal(m as nat) + tail@ =~= decimal((m / 10) as nat) + next@);
        tail = next;
        m = m / 10;
    }
    let s = String::from_str(digit_text(m)).concat(tail.as_str());
    s
}

} // verus!
