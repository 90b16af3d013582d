use crate::vectors::color::Color;
use crate::vectors::scalar::Scalar;
use crate::vectors::scalar::FRACTION_RANGE;
use crate::vectors::scalar::SIGN_BIT;
use vstd::arithmetic::div_mod::lemma_basic_div;
use vstd::arithmetic::div_mod::lemma_div_multiples_vanish_quotient;
use vstd::arithmetic::power2::lemma2_to64;
use vstd::arithmetic::power2::lemma2_to64_rest;
use vstd::arithmetic::power2::lemma_pow2_adds;
use vstd::arithmetic::power2::lemma_pow2_pos;
use vstd::arithmetic::power2::pow2;
use vstd::bits::lemma_u64_shr_is_div;
use vstd::prelude::*;

verus! {

/// 0.999: the brightest intensity that is written. It keeps the level of a
/// channel under 256.
pub const BRIGHTEST: u64 = 0x3FEF_F7CE_D916_872B;

/// The decimal digits of `number`, in ASCII, without leading zeros.
pub open spec fn decimal(number: nat) -> Seq<u8>
    decreases number,
{
    if number < 10 {
        seq![(48 + number) as u8]
    } else {
        decimal(number / 10).push((48 + number % 10) as u8)
    }
}

/// The line that opens the file: `P3`, which says that the pixels are
/// written as ASCII numbers.
pub open spec fn magic_line() -> Seq<u8> {
    seq![0x50u8, 0x33u8, 0x0Au8]
}

/// The two lines that follow: the number of columns and of rows, and the
/// largest value of a channel, 255.
pub open spec fn size_lines(height: nat, width: nat) -> Seq<u8> {
    decimal(width) + seq![0x20u8] + decimal(height) + seq![0x0Au8] + seq![0x32u8, 0x35u8, 0x35u8, 0x0Au8]
}

/// The line of one pixel: its three levels, separated by spaces.
pub open spec fn pixel_line(red: nat, green: nat, blue: nat) -> Seq<u8> {
    decimal(red) + seq![0x20u8] + decimal(green) + seq![0x20u8] + decimal(blue) + seq![0x0Au8]
}

/// `number`, brought into the range from `min_value` to `max_value`. A NaN
/// is in no range and stays as it is.
pub open spec fn clamped(number: Scalar, min_value: Scalar, max_value: Scalar) -> Scalar {
    if max_value.below(number) {
        max_value
    } else if number.below(min_value) {
        min_value
    } else {
        number
    }
}

/// The level, out of 256, of a channel of the given intensity: the
/// intensity is clamped to the range from 0 to 0.999, multiplied by 256 and
/// rounded down. An intensity that is no number has the level 0.
///
/// A number from 0 to 0.999 is `significand / 2^(1075 - scale)`, so 256
/// times the number, rounded down, is the quotient below.
pub open spec fn level(intensity: Scalar) -> nat {
    let shown = clamped(intensity, Scalar { bits: 0 }, Scalar { bits: BRIGHTEST });
    if shown.nan() {
        0
    } else {
        ((shown.significand() * 256) / (pow2((1075 - shown.scale()) as nat) as int)) as nat
    }
}

/// Appends the decimal digits of `number` to `buffer`.
fn push_decimal(buffer: &mut Vec<u8>, number: usize)
    ensures
        final(buffer)@ == old(buffer)@ + decimal(number as nat),
{
    let mut digits: Vec<u8> = Vec::new();
    let mut rest: usize = number / 10;
    digits.push(48 + (number % 10) as u8);
    while rest > 0
        invariant
            digits@.len() > 0,
            decimal(number as nat) == (if rest > 0 {
                decimal(rest as nat)
            } else {
                Seq::<u8>::empty()
            }) + Seq::new(digits@.len(), |i: int| digits@[digits@.len() - 1 - i]),
        decreases rest,
    {
        let ghost before = digits@;
        digits.push(48 + (rest % 10) as u8);
        proof {
            let after = digits@;
            let next = rest / 10;
            let head = if next > 0 {
                decimal(next as nat)
            } else {
                Seq::<u8>::empty()
            };
            assert(decimal(rest as nat) == head + seq![(48 + rest % 10) as u8]);
            assert(Seq::new(after.len(), |i: int| after[after.len() - 1 - i]) == seq![
                (48 + rest % 10) as u8,
            ] + Seq::new(before.len(), |i: int| before[before.len() - 1 - i]));
        }
        rest = rest / 10;
    }
    let ghost start = buffer@;
    let mut remaining: usize = digits.len();
    while remaining > 0
        invariant
            remaining <= digits@.len(),
            buffer@ == start + Seq::new(
                (digits@.len() - remaining) as nat,
                |i: int| digits@[digits@.len() - 1 - i],
            ),
        decreases remaining,
    {
        remaining -= 1;
        buffer.push(digits[remaining]);
    }
}

/// Used for writing data in Portable Pixel Map format.
/// The output format is as follows:
///
/// P3
/// 3 2
/// 255
/// 0 0 0 255 255 255 0 0 0
/// 20 20 20 255 255 255 0 0 0
///
/// P3 => Means that pixels are represented by ascii numbers.
/// 3 2 => 3 columns and 2 rows.
/// 255 => Maximum color value.
/// ... => RGB triplets.
///
/// The writer collects the text. Whoever owns the file takes it from the
/// writer with `take_bytes`, as often as it likes.
pub struct PPMWriter {
    buffer: Vec<u8>,
    is_size_written: bool,
}

impl PPMWriter {
    /// The text that was written and not yet taken.
    pub closed spec fn pending(&self) -> Seq<u8> {
        self.buffer@
    }

    /// Whether the size of the image was written.
    pub closed spec fn size_written(&self) -> bool {
        self.is_size_written
    }

    pub fn new() -> (writer: PPMWriter)
        ensures
            writer.pending() == magic_line(),
            !writer.size_written(),
    {
        let mut buffer: Vec<u8> = Vec::new();
        // 'P3' means the colors are represented by ASCII numbers
        buffer.push(0x50);
        buffer.push(0x33);
        buffer.push(0x0A);
        PPMWriter { buffer, is_size_written: false }
    }

    /// Whether the size of the image was written.
    pub fn is_size_written(&self) -> (written: bool)
        ensures
            written == self.size_written(),
    {
        self.is_size_written
    }

    /// Hands out the text written since the last call, and forgets it.
    pub fn take_bytes(&mut self) -> (bytes: Vec<u8>)
        ensures
            bytes@ == old(self).pending(),
            final(self).pending() == Seq::<u8>::empty(),
            final(self).size_written() == old(self).size_written(),
    {
        let mut bytes: Vec<u8> = Vec::new();
        std::mem::swap(&mut bytes, &mut self.buffer);
        bytes
    }

    /// Writes the size of the image. It is written once, before any pixel.
    pub fn write_size(&mut self, height: usize, width: usize)
        requires
            !old(self).size_written(),
        ensures
            final(self).pending() == old(self).pending() + size_lines(height as nat, width as nat),
            final(self).size_written(),
    {
        push_decimal(&mut self.buffer, width);
        self.buffer.push(0x20);
        push_decimal(&mut self.buffer, height);
        self.buffer.push(0x0A);
        // 255 represents the maximum color
        self.buffer.push(0x32);
        self.buffer.push(0x35);
        self.buffer.push(0x35);
        self.buffer.push(0x0A);
        self.is_size_written = true;
    }

    pub fn clamp(&self, number: Scalar, min_value: Scalar, max_value: Scalar) -> (result: Scalar)
        ensures
            result == clamped(number, min_value, max_value),
    {
        if number.gt(max_value) {
            return max_value;
        }
        if number.lt(min_value) {
            return min_value
        }
        number
    }

    /// The level of a channel of the given intensity, from 0 to 255.
    pub fn quantize(&self, intensity: Scalar) -> (result: u8)
        ensures
            result == level(intensity),
    {
        let shown = self.clamp(intensity, Scalar::zero(), Scalar::new(BRIGHTEST));
        if shown.is_nan() {
            return 0;
        }
        let magnitude: u64 = if shown.bits >= SIGN_BIT {
            shown.bits - SIGN_BIT
        } else {
            shown.bits
        };
        let exponent: u64 = magnitude / FRACTION_RANGE;
        let fraction: u64 = magnitude % FRACTION_RANGE;
        proof {
            lemma2_to64();
            lemma2_to64_rest();
        }
        if exponent < 1015 {
            proof {
                let scale = shown.scale();
                lemma_pow2_adds(61, (1014 - scale) as nat);
                lemma_pow2_pos((1014 - scale) as nat);
                assert(pow2((1075 - scale) as nat) >= pow2(61)) by (nonlinear_arith)
                    requires
                        pow2((1075 - scale) as nat) == pow2(61) * pow2((1014 - scale) as nat),
                        pow2((1014 - scale) as nat) >= 1,
                        pow2(61) > 0,
                ;
                lemma_basic_div(shown.significand() * 256, pow2((1075 - scale) as nat) as int);
            }
            return 0;
        }
        let significand: u64 = FRACTION_RANGE + fraction;
        let shift: u64 = 1067 - exponent;
        proof {
            lemma_u64_shr_is_div(significand, shift);
            lemma_pow2_adds(8, shift as nat);
            lemma_div_multiples_vanish_quotient(256, significand as int, pow2(shift as nat) as int);
            assert((significand >> shift) < 256) by (bit_vector)
                requires
                    significand < 0x20_0000_0000_0000u64,
                    45 <= shift <= 52,
            ;
        }
        (significand >> shift) as u8
    }

    /// Write a single pixel to the final image
    pub fn write_color(&mut self, color: Color)
        requires
            old(self).size_written(),
        ensures
            final(self).pending() == old(self).pending() + pixel_line(
                level(color.red),
                level(color.green),
                level(color.blue),
            ),
            final(self).size_written(),
    {
        let red = self.quantize(color.red);
        let green = self.quantize(color.green);
        let blue = self.quantize(color.blue);
        push_decimal(&mut self.buffer, red as usize);
        self.buffer.push(0x20);
        push_decimal(&mut self.buffer, green as usize);
        self.buffer.push(0x20);
        push_decimal(&mut self.buffer, blue as usize);
        self.buffer.push(0x0A);
    }
}

} // verus!
