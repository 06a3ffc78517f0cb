//! Byte-level rendering of protocol text: ASCII string fragments and
//! decimal numerals, used to compose the exact lines sent to a client.

use vstd::prelude::*;
use vstd::string::*;

verus! {

/// The bytes of an ASCII character sequence, one byte per character.
pub open spec fn ascii_of(s: Seq<char>) -> Seq<u8> {
    Seq::new(s.len(), |i: int| s[i] as u8)
}

/// Converts an ASCII string slice into its bytes.
pub fn ascii_bytes(s: &str) -> (r: Vec<u8>)
    requires
        s.is_ascii(),
    ensures
        r@ == ascii_of(s@),
{
    proof {
        is_ascii_spec_bytes(s);
    }
    let r = s.as_bytes_vec();
    proof {
        assert(r@ =~= ascii_of(s@));
    }
    r
}

/// Decimal ASCII digits of `n`, most significant digit first, no sign
/// and no leading zeros (a single `'0'` for zero itself).
pub open spec fn dec_digits(n: nat) -> Seq<u8>
    decreases n,
{
    if n < 10 {
        seq![(0x30 + n) as u8]
    } else {
        dec_digits(n / 10).push((0x30 + n % 10) as u8)
    }
}

/// Renders `n` in decimal ASCII.
pub fn u32_decimal(n: u32) -> (r: Vec<u8>)
    ensures
        r@ == dec_digits(n as nat),
{
    let mut r: Vec<u8> = Vec::new();
    let mut m: u32 = n;
    proof {
        assert(dec_digits(n as nat) =~= dec_digits(m as nat) + r@);
    }
    loop
        invariant_except_break
            dec_digits(n as nat) == dec_digits(m as nat) + r@,
        ensures
            dec_digits(n as nat) == r@,
        decreases m,
    {
        let d: u8 = ((m % 10) as u8) + 0x30;
        r.insert(0, d);
        proof {
            if m >= 10 {
                assert(dec_digits(m as nat) =~= dec_digits((m / 10) as nat).push(d));
                assert(dec_digits(n as nat) =~= dec_digits((m / 10) as nat) + r@);
            } else {
                assert(dec_digits(m as nat) =~= seq![d]);
                assert(dec_digits(n as nat) =~= r@);
            }
        }
        m = m / 10;
        if m == 0 {
            break;
        }
    }
    r
}

} // verus!
