//! Amounts of money, held exactly as a whole number of cents.
//!
//! Prices, balances and charges are stored with two decimal places; the
//! library holds them as `i64` cents and prints them with two decimals.

use vstd::prelude::*;
use crate::text::{dec, push_decimal, string_of};

verus! {

/// The text of an amount of cents: an optional `-`, the whole units, a dot
/// and two digits.
pub open spec fn money_text(cents: int) -> Seq<char> {
    let a = if cents < 0 { -cents } else { cents };
    let frac = a % 100;
    (if cents < 0 { seq!['-'] } else { Seq::empty() }) + dec((a / 100) as nat) + seq!['.']
        + dec((frac / 10) as nat) + dec((frac % 10) as nat)
}

/// Prints an amount with two decimals, e.g. `-12.05`.
pub fn money_string(cents: i64) -> (s: String)
    requires
        cents > i64::MIN,
    ensures
        s@ == money_text(cents as int),
{
    let a: u64 = if cents < 0 { (-cents) as u64 } else { cents as u64 };
    let mut v: Vec<char> = Vec::new();
    if cents < 0 {
        v.push('-');
    }
    assert(v@ == (if cents < 0 { seq!['-'] } else { Seq::<char>::empty() }));
    push_decimal(&mut v, a / 100);
    v.push('.');
    push_decimal(&mut v, (a % 100) / 10);
    push_decimal(&mut v, (a % 100) % 10);
    string_of(&v)
}

} // verus!
