//! From accumulated light to a colour of three bytes.
//!
//! Light adds up per channel in double precision, outside this crate. Two
//! steps of it are decided here, on bit patterns: a channel is capped at
//! one after every light, and the final channel, scaled to the range of a
//! byte by the caller, is cut down to its integer part. The light gathered
//! so far is kept in a `Radiance`, which cannot hold a channel above one.
use crate::double::{
    is_negative, is_number, less, magnitude, spec_less, INFINITY_BITS, ONE_BITS, SIGN_BIT,
    ZERO_BITS,
};
use crate::pixel::Rgb;
use vstd::arithmetic::power2::{lemma2_to64, lemma2_to64_rest, pow2};
use vstd::prelude::*;

verus! {

/// The weight of the lowest exponent bit: below it lie the 52 bits of the
/// fraction. It is also the bit that a normal number's significand has in
/// front of its fraction.
pub const HIDDEN_BIT: u64 = 0x10_0000_0000_0000;

/// The exponent field of the number one.
pub const EXPONENT_OF_ONE: u64 = 1023;

/// The exponent field of 256, the first power of two that no byte holds.
pub const EXPONENT_OF_256: u64 = 1031;

/// The pattern of 255, the largest byte.
pub const BITS_OF_255: u64 = 0x406F_E000_0000_0000;

/// The channel capped at one: one where the number is above it, else the
/// channel as it is, also where it is not a number.
pub open spec fn spec_clamp_unit(channel: u64) -> u64 {
    if spec_less(ONE_BITS, channel) {
        ONE_BITS
    } else {
        channel
    }
}

/// Caps a channel at one.
#[verifier::when_used_as_spec(spec_clamp_unit)]
pub fn clamp_unit(channel: u64) -> (capped: u64)
    ensures
        capped == spec_clamp_unit(channel),
{
    if less(ONE_BITS, channel) {
        ONE_BITS
    } else {
        channel
    }
}

/// A capped channel is never above one, capping it again changes nothing,
/// and a channel that was not above one is left alone.
pub proof fn lemma_clamp_unit(channel: u64)
    ensures
        !spec_less(ONE_BITS, spec_clamp_unit(channel)),
        spec_clamp_unit(spec_clamp_unit(channel)) == spec_clamp_unit(channel),
        !spec_less(ONE_BITS, channel) ==> spec_clamp_unit(channel) == channel,
{
}

/// Capping keeps the order of channels: the smaller of two is not the
/// larger afterwards.
pub proof fn lemma_clamp_unit_is_monotonic(a: u64, b: u64)
    requires
        spec_less(a, b),
    ensures
        !spec_less(spec_clamp_unit(b), spec_clamp_unit(a)),
{
}

/// The light gathered so far at one point, a channel each for red, green
/// and blue, as bit patterns. However many lights have shone and however
/// strong they were, no channel is above one.
#[derive(Clone, Copy, Debug)]
pub struct Radiance {
    red: u64,
    green: u64,
    blue: u64,
}

impl Radiance {
    pub closed spec fn spec_red(&self) -> u64 {
        self.red
    }

    pub closed spec fn spec_green(&self) -> u64 {
        self.green
    }

    pub closed spec fn spec_blue(&self) -> u64 {
        self.blue
    }

    /// No channel is above one. Every radiance that runs through
    /// executable code satisfies this.
    #[verifier::type_invariant]
    pub open spec fn is_capped(&self) -> bool {
        &&& !spec_less(ONE_BITS, self.spec_red())
        &&& !spec_less(ONE_BITS, self.spec_green())
        &&& !spec_less(ONE_BITS, self.spec_blue())
    }

    /// No light yet: zero on every channel.
    pub fn dark() -> (radiance: Radiance)
        ensures
            radiance.spec_red() == ZERO_BITS,
            radiance.spec_green() == ZERO_BITS,
            radiance.spec_blue() == ZERO_BITS,
    {
        Radiance { red: ZERO_BITS, green: ZERO_BITS, blue: ZERO_BITS }
    }

    /// The radiance after one more light. The caller adds the light to each
    /// channel gathered so far and hands over the three sums; each is
    /// capped at one.
    pub fn lit(red: u64, green: u64, blue: u64) -> (radiance: Radiance)
        ensures
            radiance.spec_red() == spec_clamp_unit(red),
            radiance.spec_green() == spec_clamp_unit(green),
            radiance.spec_blue() == spec_clamp_unit(blue),
            radiance.is_capped(),
    {
        proof {
            lemma_clamp_unit(red);
            lemma_clamp_unit(green);
            lemma_clamp_unit(blue);
        }
        Radiance { red: clamp_unit(red), green: clamp_unit(green), blue: clamp_unit(blue) }
    }

    #[verifier::when_used_as_spec(spec_red)]
    pub fn red(&self) -> (channel: u64)
        ensures
            channel == self.spec_red(),
            !spec_less(ONE_BITS, channel),
    {
        proof {
            use_type_invariant(self);
        }
        self.red
    }

    #[verifier::when_used_as_spec(spec_green)]
    pub fn green(&self) -> (channel: u64)
        ensures
            channel == self.spec_green(),
            !spec_less(ONE_BITS, channel),
    {
        proof {
            use_type_invariant(self);
        }
        self.green
    }

    #[verifier::when_used_as_spec(spec_blue)]
    pub fn blue(&self) -> (channel: u64)
        ensures
            channel == self.spec_blue(),
            !spec_less(ONE_BITS, channel),
    {
        proof {
            use_type_invariant(self);
        }
        self.blue
    }
}

/// The exponent field of a pattern.
pub open spec fn exponent(bits: u64) -> int {
    magnitude(bits) / (HIDDEN_BIT as int)
}

/// The significand of a normal number: the hidden bit and the fraction.
pub open spec fn significand(bits: u64) -> int {
    HIDDEN_BIT + magnitude(bits) % (HIDDEN_BIT as int)
}

/// How many units of the significand make up the number one at exponent
/// field `e`: a normal number is its significand divided by
/// `pow2(1075 - e)`.
pub open spec fn unit_divisor(e: int) -> int {
    pow2((1075 - e) as nat) as int
}

/// The integer part of a number, kept within a byte: zero for all that is
/// below one or not a number, 255 for all from 256 up, and in between the
/// significand divided by the units that make up one, rounded down.
pub open spec fn spec_truncate_to_byte(bits: u64) -> u8 {
    if !is_number(bits) || is_negative(bits) || exponent(bits) < EXPONENT_OF_ONE {
        0
    } else if exponent(bits) >= EXPONENT_OF_256 {
        255
    } else {
        (significand(bits) / unit_divisor(exponent(bits))) as u8
    }
}

/// The divisors that occur: from `2^52` for the numbers from 1 up to `2^45`
/// for those from 128 up.
pub proof fn lemma_unit_divisor(e: int)
    requires
        EXPONENT_OF_ONE <= e < EXPONENT_OF_256,
    ensures
        e == 1023 ==> unit_divisor(e) == 0x10_0000_0000_0000,
        e == 1024 ==> unit_divisor(e) == 0x8_0000_0000_0000,
        e == 1025 ==> unit_divisor(e) == 0x4_0000_0000_0000,
        e == 1026 ==> unit_divisor(e) == 0x2_0000_0000_0000,
        e == 1027 ==> unit_divisor(e) == 0x1_0000_0000_0000,
        e == 1028 ==> unit_divisor(e) == 0x8000_0000_0000,
        e == 1029 ==> unit_divisor(e) == 0x4000_0000_0000,
        e == 1030 ==> unit_divisor(e) == 0x2000_0000_0000,
{
    lemma2_to64();
    lemma2_to64_rest();
}

/// Cuts a number down to the byte that holds its integer part, as far as a
/// byte can: what is negative, below one or not a number gives 0, what is
/// 256 or more gives 255.
#[verifier::when_used_as_spec(spec_truncate_to_byte)]
pub fn truncate_to_byte(bits: u64) -> (byte: u8)
    ensures
        byte == spec_truncate_to_byte(bits),
{
    if bits >= SIGN_BIT || bits > INFINITY_BITS {
        return 0;
    }
    let e: u64 = bits / HIDDEN_BIT;
    if e < EXPONENT_OF_ONE {
        return 0;
    }
    if e >= EXPONENT_OF_256 {
        return 255;
    }
    let significand: u64 = HIDDEN_BIT + bits % HIDDEN_BIT;
    let divisor: u64 = if e == 1023 {
        0x10_0000_0000_0000
    } else if e == 1024 {
        0x8_0000_0000_0000
    } else if e == 1025 {
        0x4_0000_0000_0000
    } else if e == 1026 {
        0x2_0000_0000_0000
    } else if e == 1027 {
        0x1_0000_0000_0000
    } else if e == 1028 {
        0x8000_0000_0000
    } else if e == 1029 {
        0x4000_0000_0000
    } else {
        0x2000_0000_0000
    };
    proof {
        lemma_unit_divisor(e as int);
    }
    (significand / divisor) as u8
}

/// The byte is the integer part: between the numbers 1 and 256 the byte
/// `n` of a number satisfies `n <= number < n + 1`, written out in units
/// of the significand; and it is at least 1.
pub proof fn lemma_truncation_brackets(bits: u64)
    requires
        is_number(bits),
        !is_negative(bits),
        EXPONENT_OF_ONE <= exponent(bits) < EXPONENT_OF_256,
    ensures
        1 <= spec_truncate_to_byte(bits) <= 255,
        spec_truncate_to_byte(bits) * unit_divisor(exponent(bits)) <= significand(bits),
        significand(bits) < (spec_truncate_to_byte(bits) + 1) * unit_divisor(exponent(bits)),
{
    lemma_unit_divisor(exponent(bits));
}

/// Truncation saturates at both ends of a byte: whatever is below one, or
/// no number at all, gives 0, and every number from 255 up gives 255.
pub proof fn lemma_truncation_saturates(bits: u64)
    ensures
        spec_less(bits, ONE_BITS) || !is_number(bits) ==> spec_truncate_to_byte(bits) == 0,
        is_number(bits) && !spec_less(bits, BITS_OF_255) ==> spec_truncate_to_byte(bits) == 255,
        is_number(bits) && !spec_less(bits, ONE_BITS) ==> spec_truncate_to_byte(bits) >= 1,
{
    if is_number(bits) && !is_negative(bits) && EXPONENT_OF_ONE <= exponent(bits)
        < EXPONENT_OF_256 {
        lemma_unit_divisor(exponent(bits));
    }
}

/// Between the numbers 1 and 256 the byte lies in the binade of the
/// number: from `2^k` up to, but not including, `2^(k + 1)` where the
/// exponent field is `1023 + k`.
pub proof fn lemma_truncation_binade(bits: u64)
    requires
        is_number(bits),
        !is_negative(bits),
        EXPONENT_OF_ONE <= exponent(bits) < EXPONENT_OF_256,
    ensures
        exponent(bits) == 1023 ==> spec_truncate_to_byte(bits) == 1,
        exponent(bits) == 1024 ==> 2 <= spec_truncate_to_byte(bits) < 4,
        exponent(bits) == 1025 ==> 4 <= spec_truncate_to_byte(bits) < 8,
        exponent(bits) == 1026 ==> 8 <= spec_truncate_to_byte(bits) < 16,
        exponent(bits) == 1027 ==> 16 <= spec_truncate_to_byte(bits) < 32,
        exponent(bits) == 1028 ==> 32 <= spec_truncate_to_byte(bits) < 64,
        exponent(bits) == 1029 ==> 64 <= spec_truncate_to_byte(bits) < 128,
        exponent(bits) == 1030 ==> 128 <= spec_truncate_to_byte(bits) < 256,
{
    lemma_unit_divisor(exponent(bits));
    assert(0x10_0000_0000_0000 <= significand(bits) < 0x20_0000_0000_0000);
}

/// Truncation keeps the order of numbers: a smaller number never gives the
/// larger byte.
pub proof fn lemma_truncation_is_monotonic(a: u64, b: u64)
    requires
        spec_less(a, b),
    ensures
        spec_truncate_to_byte(a) <= spec_truncate_to_byte(b),
{
    if is_negative(a) || exponent(a) < EXPONENT_OF_ONE {
        assert(spec_truncate_to_byte(a) == 0);
    } else {
        // `b` is the larger of two numbers that are not negative.
        assert(!is_negative(b) && magnitude(a) < magnitude(b));
        assert(exponent(a) <= exponent(b));
        if exponent(b) >= EXPONENT_OF_256 {
            assert(spec_truncate_to_byte(b) == 255);
        } else {
            lemma_truncation_binade(a);
            lemma_truncation_binade(b);
            if exponent(a) == exponent(b) {
                let d = unit_divisor(exponent(a));
                lemma_unit_divisor(exponent(a));
                assert(significand(a) < significand(b));
                assert(significand(a) / d <= significand(b) / d) by (nonlinear_arith)
                    requires
                        0 <= significand(a) < significand(b),
                        d > 0,
                ;
                assert(spec_truncate_to_byte(a) == significand(a) / d);
                assert(spec_truncate_to_byte(b) == significand(b) / d);
            }
        }
    }
}

/// The colour of three channels, each scaled by the caller to the range of
/// a byte and truncated here.
pub open spec fn spec_quantize(red: u64, green: u64, blue: u64) -> Rgb {
    Rgb {
        r: spec_truncate_to_byte(red),
        g: spec_truncate_to_byte(green),
        b: spec_truncate_to_byte(blue),
    }
}

/// Turns three scaled channels into a colour.
#[verifier::when_used_as_spec(spec_quantize)]
pub fn quantize(red: u64, green: u64, blue: u64) -> (colour: Rgb)
    ensures
        colour == spec_quantize(red, green, blue),
{
    Rgb { r: truncate_to_byte(red), g: truncate_to_byte(green), b: truncate_to_byte(blue) }
}

} // verus!
