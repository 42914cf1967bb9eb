//! Base-10 rendering of token amounts.
use vstd::prelude::*;

verus! {

/// The character of a decimal digit `d < 10`.
pub open spec fn digit_char(d: nat) -> char {
    (48 + d) as char
}

/// The base-10 digits of `n`, most significant first, without leading zeros
/// (`0` is written as a single `'0'`).
pub open spec fn decimal(n: nat) -> Seq<char>
    decreases n,
{
    if n < 10 {
        seq![digit_char(n)]
    } else {
        decimal(n / 10).push(digit_char(n % 10))
    }
}

/// std's `ToString` for `u128` (through `Display`): claimed to write `x` in base 10,
/// with no sign, no padding and no leading zeros.
#[verifier::external_body]
pub(crate) fn u128_to_decimal(x: u128) -> (s: String)
    ensures
        s@ == decimal(x as nat),
{
    x.to_string()
}

} // verus!
