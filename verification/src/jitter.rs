use vstd::prelude::*;

verus! {

/// A rational number: `numerator / denominator`, with a positive denominator.
pub struct Ratio {
    pub numerator: int,
    pub denominator: int,
}

impl Ratio {
    /// The number is at least `-1/2` and less than `1/2`.
    pub open spec fn in_centered_unit_range(self) -> bool {
        &&& self.denominator > 0
        &&& -self.denominator <= 2 * self.numerator
        &&& 2 * self.numerator < self.denominator
    }
}

/// A rational number in machine integers: `numerator / denominator`.
#[derive(Clone, Copy, Debug, PartialEq, Eq)]
pub struct Fraction {
    pub numerator: i128,
    pub denominator: i128,
}

impl View for Fraction {
    type V = Ratio;

    open spec fn view(&self) -> Ratio {
        Ratio { numerator: self.numerator as int, denominator: self.denominator as int }
    }
}

/// A subpixel offset of the camera, in pixels on each axis.
#[derive(Clone, Copy, Debug, PartialEq, Eq)]
pub struct JitterOffset {
    pub x: Fraction,
    pub y: Fraction,
}

/// The element at `index` of the Halton sequence of the given base: the
/// digits of `index` in that base, mirrored at the radix point. The lowest
/// digit counts `1/base`, the next `1/base²`, and so on. The denominator is
/// the base to the power of the number of digits that `index` has.
pub open spec fn halton(index: nat, base: nat) -> Ratio
    decreases index,
    via halton_terminates
{
    if index == 0 || base < 2 {
        Ratio { numerator: 0, denominator: 1 }
    } else {
        let higher = halton(index / base, base);
        Ratio {
            numerator: (index % base) * higher.denominator + higher.numerator,
            denominator: base * higher.denominator,
        }
    }
}

#[via_fn]
proof fn halton_terminates(index: nat, base: nat) {
    if index > 0 && base >= 2 {
        lemma_quotient_is_smaller(index, base);
    }
}

/// Dividing a positive number by two or more makes it smaller.
pub proof fn lemma_quotient_is_smaller(index: nat, base: nat)
    requires
        index > 0,
        base >= 2,
    ensures
        index / base < index,
{
    assert(index / base < index) by (nonlinear_arith)
        requires
            index > 0,
            base >= 2,
    ;
}

/// `value - 1/2`, over twice the denominator of `value`.
pub open spec fn centered(value: Ratio) -> Ratio {
    Ratio {
        numerator: 2 * value.numerator - value.denominator,
        denominator: 2 * value.denominator,
    }
}

/// The number of jitter positions before the sequence repeats: eight times
/// the square of the ratio of output width to render width, rounded down, at
/// most the largest frame number, and at least `minimum`.
pub open spec fn phase_count(output_width: nat, render_width: nat, minimum: nat) -> nat {
    let exact = (8 * output_width * output_width) / (render_width * render_width);
    let bounded = if exact > u32::MAX {
        u32::MAX as nat
    } else {
        exact
    };
    if bounded < minimum {
        minimum
    } else {
        bounded
    }
}

/// The jitter of a frame where the sequence repeats after `phases` frames:
/// the elements of the Halton sequences of base 2 and base 3 at the frame's
/// place within the period, each less `1/2`.
pub open spec fn jitter_offset(frame_number: nat, phases: nat) -> (Ratio, Ratio) {
    let index = frame_number % phases;
    (centered(halton(index, 2)), centered(halton(index, 3)))
}

/// An element of a Halton sequence is at least zero and less than one, and
/// its denominator is no more than `index * base`.
pub proof fn lemma_halton_bounds(index: nat, base: nat)
    requires
        base >= 2,
    ensures
        0 <= halton(index, base).numerator < halton(index, base).denominator,
        index == 0 ==> halton(index, base).denominator == 1,
        index > 0 ==> halton(index, base).denominator <= index * base,
    decreases index,
{
    if index > 0 {
        let rest = index / base;
        let digit = index % base;
        let higher = halton(rest, base);
        lemma_quotient_is_smaller(index, base);
        lemma_halton_bounds(rest, base);
        assert(index == base * rest + digit && 0 <= digit < base) by (nonlinear_arith)
            requires
                base >= 2,
                rest == index / base,
                digit == index % base,
        ;
        assert(digit * higher.denominator + higher.numerator < base * higher.denominator)
            by (nonlinear_arith)
            requires
                0 <= digit < base,
                0 <= higher.numerator < higher.denominator,
        ;
        assert(digit * higher.denominator + higher.numerator >= 0) by (nonlinear_arith)
            requires
                0 <= digit,
                0 <= higher.numerator < higher.denominator,
        ;
        if rest == 0 {
            assert(base * higher.denominator <= index * base) by (nonlinear_arith)
                requires
                    higher.denominator == 1,
                    index >= 1,
                    base >= 2,
            ;
        } else {
            assert(base * higher.denominator <= index * base) by (nonlinear_arith)
                requires
                    higher.denominator <= rest * base,
                    index == base * rest + digit,
                    0 <= digit,
                    base >= 2,
            ;
        }
    }
}

/// A Halton element less one half is at least `-1/2` and less than `1/2`.
pub proof fn lemma_centered_halton_range(index: nat, base: nat)
    requires
        base >= 2,
    ensures
        centered(halton(index, base)).in_centered_unit_range(),
{
    lemma_halton_bounds(index, base);
}

/// The jitter lies in `[-1/2, 1/2)` on both axes.
pub proof fn lemma_jitter_offset_range(frame_number: nat, phases: nat)
    requires
        phases > 0,
    ensures
        jitter_offset(frame_number, phases).0.in_centered_unit_range(),
        jitter_offset(frame_number, phases).1.in_centered_unit_range(),
{
    lemma_centered_halton_range(frame_number % phases, 2);
    lemma_centered_halton_range(frame_number % phases, 3);
}

/// The jitter repeats after `phases` frames.
pub proof fn lemma_jitter_offset_periodic(frame_number: nat, phases: nat)
    requires
        phases > 0,
    ensures
        jitter_offset(frame_number, phases) == jitter_offset(frame_number + phases, phases),
{
    assert((frame_number + phases) % phases == frame_number % phases) by (nonlinear_arith)
        requires
            phases > 0,
    ;
}

/// Computes the element at `index` of the Halton sequence of the given base.
pub fn halton_sequence(index: u32, base: u32) -> (value: Fraction)
    requires
        base >= 2,
    ensures
        value@ == halton(index as nat, base as nat),
    decreases index,
{
    if index == 0 {
        Fraction { numerator: 0, denominator: 1 }
    } else {
        let rest: u32 = index / base;
        let digit: u32 = index % base;
        proof {
            lemma_quotient_is_smaller(index as nat, base as nat);
        }
        let higher = halton_sequence(rest, base);
        proof {
            lemma_halton_bounds(rest as nat, base as nat);
            lemma_halton_bounds(index as nat, base as nat);
            assert(index as nat * base as nat <= 0x1_0000_0000_0000_0000) by (nonlinear_arith)
                requires
                    index <= 0xFFFF_FFFF,
                    base <= 0xFFFF_FFFF,
            ;
        }
        let scaled: i128 = (base as i128) * higher.denominator;
        assert(0 <= (digit as int) * (higher.denominator as int) <= scaled) by (nonlinear_arith)
            requires
                0 <= digit < base,
                higher.denominator > 0,
                scaled == base * higher.denominator,
        ;
        Fraction {
            numerator: (digit as i128) * higher.denominator + higher.numerator,
            denominator: scaled,
        }
    }
}

/// Computes the number of jitter positions before the sequence repeats.
pub fn jitter_phase_count(output_width: u32, render_width: u32, minimum: u32) -> (phases: u32)
    requires
        render_width > 0,
    ensures
        phases == phase_count(output_width as nat, render_width as nat, minimum as nat),
{
    assert(8 * output_width * output_width <= 0x8_0000_0000_0000_0000 && 0 < render_width
        * render_width <= 0x1_0000_0000_0000_0000) by (nonlinear_arith)
        requires
            output_width <= 0xFFFF_FFFF,
            0 < render_width <= 0xFFFF_FFFF,
    ;
    let numerator: u128 = 8 * (output_width as u128) * (output_width as u128);
    let denominator: u128 = (render_width as u128) * (render_width as u128);
    let exact: u128 = numerator / denominator;
    let bounded: u32 = if exact > 0xFFFF_FFFF {
        0xFFFF_FFFF
    } else {
        exact as u32
    };
    if bounded < minimum {
        minimum
    } else {
        bounded
    }
}

/// Computes the jitter of a frame where the sequence repeats after `phases`
/// frames.
pub fn suggested_jitter(frame_number: u32, phases: u32) -> (offset: JitterOffset)
    requires
        phases > 0,
    ensures
        (offset.x@, offset.y@) == jitter_offset(frame_number as nat, phases as nat),
        offset.x@.in_centered_unit_range(),
        offset.y@.in_centered_unit_range(),
{
    let index: u32 = frame_number % phases;
    let x = halton_sequence(index, 2);
    let y = halton_sequence(index, 3);
    proof {
        lemma_halton_bounds(index as nat, 2);
        lemma_halton_bounds(index as nat, 3);
        lemma_jitter_offset_range(frame_number as nat, phases as nat);
    }
    JitterOffset {
        x: Fraction { numerator: 2 * x.numerator - x.denominator, denominator: 2 * x.denominator },
        y: Fraction { numerator: 2 * y.numerator - y.denominator, denominator: 2 * y.denominator },
    }
}

} // verus!
