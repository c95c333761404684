//! Numbers written in decimal digits.

use vstd::prelude::*;

verus! {

/// The digit character for a number below ten.
pub open spec fn decimal_digit(n: nat) -> char {
    (48 + n) as char
}

/// The decimal digits of a number, without leading zeros.
pub open spec fn decimal(n: nat) -> Seq<char>
    decreases n,
{
    if n < 10 {
        seq![decimal_digit(n)]
    } else {
        decimal(n / 10).push(decimal_digit(n % 10))
    }
}

/// Writes a number in decimal digits.
pub fn to_decimal(n: u64) -> (text: String)
    ensures
        text@ == decimal(n as nat),
{
    let mut digits: Vec<char> = Vec::new();
    let mut rest: u64 = n;
    while rest >= 10
        invariant
            decimal(n as nat) == decimal(rest as nat) + digits@.reverse(),
        decreases rest,
    {
        let digit: u8 = (rest % 10) as u8;
        let ghost before = digits@;
        digits.push((48 + digit) as char);
        assert(digits@.reverse() =~= seq![decimal_digit((rest % 10) as nat)] + before.reverse());
        assert(decimal(rest as nat) =~= decimal((rest / 10) as nat) + seq![
            decimal_digit((rest % 10) as nat),
        ]);
        rest = rest / 10;
    }
    let mut text = String::new();
    text.push((48 + rest as u8) as char);
    let mut i: usize = digits.len();
    while i > 0
        invariant
            i <= digits.len(),
            rest < 10,
            text@ == decimal(rest as nat) + digits@.reverse().take(digits.len() - i),
        decreases i,
    {
        i -= 1;
        text.push(digits[i]);
        assert(text@ =~= decimal(rest as nat) + digits@.reverse().take(digits.len() - i));
    }
    assert(digits@.reverse().take(digits.len() as int) =~= digits@.reverse());
    text
}

} // verus!
