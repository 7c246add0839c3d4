use crate::utils::scalar::{
    lemma_weight_increases, weight_of, Scalar, HIDDEN_BIT, INFINITY_BITS, SIGN_BIT,
};
use crate::utils::vec3::Vec3;
use vstd::arithmetic::div_mod::*;
use vstd::arithmetic::power2::*;
use vstd::bits::*;
use vstd::prelude::*;

verus! {

/// A colour: red, green and blue, each meant to lie in `[0, 1]`.
pub type Color = Vec3;

/// The pattern of 0.999, the largest channel value that is quantised as it
/// is. Clamping to it rather than to one keeps the level below 256.
pub const CEILING_BITS: u64 = 0x3fef_f7ce_d916_872b;

/// The 8-bit level of a channel: 256 times the channel clamped to
/// `[0, 0.999]`, rounded down. A NaN has level zero.
pub open spec fn level(channel: Scalar) -> int {
    if channel.spec_is_nan() {
        0
    } else {
        let value = channel.numerator();
        let ceiling = (Scalar { bits: CEILING_BITS }).numerator();
        let clamped = if value < 0 {
            0
        } else if value > ceiling {
            ceiling
        } else {
            value
        };
        (256 * clamped) / (pow2(1074) as int)
    }
}

/// The decimal digits of `n` in ASCII, without leading zeros.
pub open spec fn decimal(n: nat) -> Seq<u8>
    decreases n,
{
    if n < 10 {
        seq![(48 + n) as u8]
    } else {
        decimal(n / 10).push((48 + n % 10) as u8)
    }
}

/// One pixel of a plain-text image: the three levels in decimal, separated
/// by single spaces and ended by a line feed.
pub open spec fn pixel_line(red: int, green: int, blue: int) -> Seq<u8> {
    decimal(red as nat) + seq![32u8] + decimal(green as nat) + seq![32u8] + decimal(blue as nat)
        + seq![10u8]
}

/// Scaling a normal value below one by 256 and rounding down is a shift of
/// its significand.
proof fn lemma_level_is_shift(significand: int, exponent: int)
    requires
        0 <= significand,
        1015 <= exponent <= 1022,
    ensures
        (256 * (significand * pow2((exponent - 1) as nat))) / (pow2(1074) as int) == significand / (
        pow2((1067 - exponent) as nat) as int),
{
    let low = (exponent - 1) as nat;
    let shift = (1067 - exponent) as nat;
    let scale = pow2(8 + low) as int;
    lemma2_to64();
    lemma_pow2_adds(8, low);
    lemma_pow2_adds(8 + low, shift);
    lemma_pow2_pos(8 + low);
    lemma_pow2_pos(shift);
    assert(256 * (significand * pow2(low)) == scale * significand) by (nonlinear_arith)
        requires
            scale == 256 * pow2(low),
    ;
    lemma_div_multiples_vanish_quotient(scale, significand, pow2(shift) as int);
}

/// The level of a channel, `0 ..= 255`.
pub fn quantize(channel: Scalar) -> (r: u8)
    ensures
        r as int == level(channel),
{
    let bits = channel.to_bits();
    if bits >= SIGN_BIT {
        proof {
            lemma_pow2_pos(1074);
            if 0 < channel.magnitude() {
                lemma_weight_increases(0, channel.magnitude());
            }
        }
        return 0;
    }
    if bits > INFINITY_BITS {
        return 0;
    }
    proof {
        lemma2_to64();
        lemma2_to64_rest();
    }
    if bits > CEILING_BITS {
        proof {
            let significand: int = 0x1f_f7ce_d916_872b;
            lemma_weight_increases(CEILING_BITS as int, bits as int);
            lemma_level_is_shift(significand, 1022);
            assert(CEILING_BITS as int / (HIDDEN_BIT as int) == 1022);
            assert(HIDDEN_BIT + CEILING_BITS as int % (HIDDEN_BIT as int) == significand);
            assert(weight_of(CEILING_BITS as int) == significand * pow2(1021));
            assert(significand / (pow2(45) as int) == 255);
        }
        return 255;
    }
    proof {
        if bits < CEILING_BITS {
            lemma_weight_increases(bits as int, CEILING_BITS as int);
        }
        if 0 < bits {
            lemma_weight_increases(0, bits as int);
        }
    }
    let exponent: u64 = bits / HIDDEN_BIT;
    if exponent < 1015 {
        proof {
            let floor: int = 0x3f70_0000_0000_0000;
            let weight = weight_of(bits as int);
            lemma_weight_increases(bits as int, floor);
            assert(floor / (HIDDEN_BIT as int) == 1015);
            assert(floor % (HIDDEN_BIT as int) == 0);
            assert(weight_of(floor) == pow2(52) * pow2(1014));
            lemma_pow2_adds(52, 1014);
            lemma_pow2_adds(8, 1066);
            assert(0 <= 256 * weight < pow2(1074));
            lemma_basic_div(256 * weight, pow2(1074) as int);
        }
        return 0;
    }
    let significand: u64 = HIDDEN_BIT + bits % HIDDEN_BIT;
    let shift: u64 = 1067 - exponent;
    proof {
        lemma_level_is_shift(significand as int, exponent as int);
        lemma_u64_shr_is_div(significand, shift);
        lemma_div_is_ordered_by_denominator(
            significand as int,
            pow2(45) as int,
            pow2(shift as nat) as int,
        );
        if 45 < shift {
            lemma_pow2_strictly_increases(45, shift as nat);
        }
    }
    (significand >> shift) as u8
}

/// Appends the decimal digits of `n` to `out`.
fn push_decimal(out: &mut Vec<u8>, n: u64)
    ensures
        final(out)@ == old(out)@ + decimal(n as nat),
    decreases n,
{
    if n >= 10 {
        push_decimal(out, n / 10);
    }
    out.push(48 + (n % 10) as u8);
}

/// The header of a plain-text pixmap of the given size: the format's magic
/// (the letter P and the digit three), then the width and the height, then
/// 255 as the largest level, each on a line of its own.
pub open spec fn header(width: nat, height: nat) -> Seq<u8> {
    seq![80u8, 51u8, 10u8] + decimal(width) + seq![32u8] + decimal(height) + seq![
        10u8,
        50u8,
        53u8,
        53u8,
        10u8,
    ]
}

/// The header that precedes the pixel lines of an image of the given size.
pub fn write_header(width: usize, height: usize) -> (r: Vec<u8>)
    ensures
        r@ == header(width as nat, height as nat),
{
    let mut text: Vec<u8> = Vec::new();
    text.push(80);
    text.push(51);
    text.push(10);
    push_decimal(&mut text, width as u64);
    text.push(32);
    push_decimal(&mut text, height as u64);
    text.push(10);
    text.push(50);
    text.push(53);
    text.push(53);
    text.push(10);
    text
}

/// The text line of a pixel whose channels are already averaged and
/// gamma-corrected: each channel is quantised to its level and the three
/// levels are written in decimal.
pub fn write_color(pixel_color: &Color) -> (r: Vec<u8>)
    ensures
        r@ == pixel_line(level(pixel_color.x), level(pixel_color.y), level(pixel_color.z)),
{
    let mut line: Vec<u8> = Vec::new();
    push_decimal(&mut line, quantize(pixel_color.x) as u64);
    line.push(32);
    push_decimal(&mut line, quantize(pixel_color.y) as u64);
    line.push(32);
    push_decimal(&mut line, quantize(pixel_color.z) as u64);
    line.push(10);
    line
}

} // verus!
