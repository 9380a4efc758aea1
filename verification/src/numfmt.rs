//! The engine's built-in formatter for the numeric argument kind: a size
//! rendered as decimal ASCII digits, most significant first.

use vstd::prelude::*;

verus! {

/// The decimal ASCII digits of `n`, most significant first; `0` is `"0"`.
pub open spec fn dec_digits(n: nat) -> Seq<u8>
    decreases n,
{
    if n < 10 {
        seq![(0x30 + n) as u8]
    } else {
        dec_digits(n / 10).push((0x30 + n % 10) as u8)
    }
}

/// Renders `n` in decimal.
pub fn format_usize(n: usize) -> (r: Vec<u8>)
    ensures
        r@ == dec_digits(n as nat),
    decreases n,
{
    if n < 10 {
        let mut r: Vec<u8> = Vec::new();
        r.push(0x30u8 + (n as u8));
        proof {
            assert(r@ =~= dec_digits(n as nat));
        }
        r
    } else {
        let mut r = format_usize(n / 10);
        r.push(0x30u8 + ((n % 10) as u8));
        proof {
            assert(r@ =~= dec_digits(n as nat));
        }
        r
    }
}

} // verus!
