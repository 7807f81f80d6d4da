//! Durations: from the number that a record gives, to whole seconds, to the
//! text that is shown.
//!
//! A record gives its duration as a binary64 number. The orchestrator works
//! on the number's bit pattern, which is a plain integer, and rounds it to
//! whole seconds itself.

use vstd::arithmetic::power2::{
    lemma2_to64,
    lemma2_to64_rest,
    lemma_pow2_adds,
    lemma_pow2_pos,
    lemma_pow2_strictly_increases,
    lemma_pow2_unfold,
    pow2,
};
use vstd::prelude::*;
use vstd::string::*;

use crate::text::{push_two_digits, two_digits};

verus! {

/// Two to the power of 52: the weight of a binary64 number's hidden bit.
pub const HIDDEN_BIT: u64 = 0x10_0000_0000_0000;

/// The lowest bit pattern with the sign bit set.
pub const SIGN_BIT: u64 = 0x8000_0000_0000_0000;

/// Whether the sign bit of the pattern is set.
pub open spec fn is_negative(bits: u64) -> bool {
    bits >= SIGN_BIT
}

/// The eleven exponent bits of the pattern.
pub open spec fn exponent_of(bits: u64) -> nat {
    ((bits as nat) / pow2(52)) % 2048
}

/// The 52 fraction bits of the pattern.
pub open spec fn fraction_of(bits: u64) -> nat {
    (bits as nat) % pow2(52)
}

/// The number of whole seconds nearest to the binary64 number with this bit
/// pattern, a half counting upwards; 0 for a negative number and for one
/// that is no number, `u64::MAX` for one beyond it.
///
/// A number with exponent bits `e` between 1 and 2046 and significand
/// `m = 2^52 + fraction` has the value `m * 2^(e - 1075)`.
pub open spec fn whole_seconds(bits: u64) -> nat {
    let exponent = exponent_of(bits);
    let significand = pow2(52) + fraction_of(bits);
    if is_negative(bits) || exponent == 0 {
        0
    } else if exponent == 2047 {
        if fraction_of(bits) == 0 {
            u64::MAX as nat
        } else {
            0
        }
    } else if exponent >= 1075 {
        let value = significand * pow2((exponent - 1075) as nat);
        if value > u64::MAX {
            u64::MAX as nat
        } else {
            value
        }
    } else {
        (significand + pow2((1074 - exponent) as nat)) / pow2((1075 - exponent) as nat)
    }
}

/// A duration as it is shown: minutes and seconds, each with two digits,
/// behind the hours where there is at least one.
pub open spec fn duration_text(total_seconds: nat) -> Seq<char> {
    let hours = total_seconds / 3600;
    let minutes = (total_seconds % 3600) / 60;
    let seconds = total_seconds % 60;
    if hours > 0 {
        two_digits(hours) + seq![':'] + two_digits(minutes) + seq![':'] + two_digits(seconds)
    } else {
        two_digits(minutes) + seq![':'] + two_digits(seconds)
    }
}

/// Two to the power of `exponent`.
fn power_of_two(exponent: u64) -> (power: u64)
    requires
        exponent < 64,
    ensures
        power == pow2(exponent as nat),
{
    let mut power: u64 = 1;
    let mut i: u64 = 0;
    proof {
        lemma2_to64();
    }
    while i < exponent
        invariant
            i <= exponent < 64,
            power == pow2(i as nat),
        decreases exponent - i,
    {
        proof {
            lemma_pow2_unfold((i + 1) as nat);
            lemma2_to64_rest();
            if i + 1 < 63 {
                lemma_pow2_strictly_increases((i + 1) as nat, 63);
            }
        }
        power = power * 2;
        i += 1;
    }
    power
}

/// Rounds the binary64 number with this bit pattern to whole seconds.
pub fn nearest_whole_second(bits: u64) -> (seconds: u64)
    ensures
        seconds == whole_seconds(bits),
{
    proof {
        lemma2_to64();
        lemma2_to64_rest();
    }
    let exponent: u64 = (bits / HIDDEN_BIT) % 2048;
    let fraction: u64 = bits % HIDDEN_BIT;
    if bits >= SIGN_BIT || exponent == 0 {
        return 0;
    }
    if exponent == 2047 {
        return if fraction == 0 {
            u64::MAX
        } else {
            0
        };
    }
    let significand: u64 = HIDDEN_BIT + fraction;
    if exponent >= 1075 {
        let shift: u64 = exponent - 1075;
        if shift >= 12 {
            proof {
                lemma_pow2_adds(12, (shift - 12) as nat);
                lemma_pow2_pos((shift - 12) as nat);
                let rest = pow2((shift - 12) as nat);
                assert(pow2(shift as nat) == 4096 * rest);
                assert(significand * pow2(shift as nat) >= HIDDEN_BIT * 4096) by (nonlinear_arith)
                    requires
                        significand >= HIDDEN_BIT,
                        pow2(shift as nat) == 4096 * rest,
                        rest >= 1,
                ;
            }
            u64::MAX
        } else {
            let factor = power_of_two(shift);
            proof {
                if shift < 11 {
                    lemma_pow2_strictly_increases(shift as nat, 11);
                }
                assert(significand * factor <= u64::MAX) by (nonlinear_arith)
                    requires
                        significand < 2 * HIDDEN_BIT,
                        factor <= 2048,
                ;
            }
            significand * factor
        }
    } else {
        let down: u64 = 1075 - exponent;
        if down >= 54 {
            proof {
                let half: int = pow2((down - 1) as nat) as int;
                lemma_pow2_unfold(down as nat);
                if down - 1 > 53 {
                    lemma_pow2_strictly_increases(53, (down - 1) as nat);
                }
                assert(significand + half < 2 * half);
                assert((significand + half) / (2 * half) == 0) by (nonlinear_arith)
                    requires
                        0 <= significand + half < 2 * half,
                ;
            }
            0
        } else {
            let half = power_of_two(down - 1);
            let whole = power_of_two(down);
            proof {
                lemma_pow2_pos(down as nat);
                if down - 1 < 52 {
                    lemma_pow2_strictly_increases((down - 1) as nat, 52);
                }
            }
            (significand + half) / whole
        }
    }
}

/// The text for a duration of `total_seconds`: `MM:SS`, or `HH:MM:SS` from
/// one hour on.
pub fn format_duration(total_seconds: u64) -> (text: String)
    ensures
        text@ == duration_text(total_seconds as nat),
{
    let hours: u64 = total_seconds / 3600;
    let minutes: u64 = (total_seconds % 3600) / 60;
    let seconds: u64 = total_seconds % 60;
    let mut text = String::new();
    if hours > 0 {
        push_two_digits(&mut text, hours);
        text.push(':');
    }
    push_two_digits(&mut text, minutes);
    text.push(':');
    push_two_digits(&mut text, seconds);
    proof {
        assert(text@ =~= duration_text(total_seconds as nat));
    }
    text
}

} // verus!
