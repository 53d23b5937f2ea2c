use vstd::prelude::*;

use crate::error::Error;

verus! {

/// Width of the glyph grid when the caller names none.
pub const DEFAULT_WIDTH: u32 = 30;

/// Height of the glyph grid when the caller names none.
pub const DEFAULT_HEIGHT: u32 = 30;

/// The size of the glyph grid: both sides are at least 1.
#[derive(Debug, Clone, Copy, PartialEq, Eq)]
pub struct Dimensions {
    width: u32,
    height: u32,
}

impl Dimensions {
    #[verifier::type_invariant]
    spec fn positive(self) -> bool {
        self.width > 0 && self.height > 0
    }

    /// Glyphs per line.
    pub closed spec fn spec_width(self) -> nat {
        self.width as nat
    }

    /// Number of lines.
    pub closed spec fn spec_height(self) -> nat {
        self.height as nat
    }

    /// Number of cells in the grid.
    pub open spec fn spec_cells(self) -> nat {
        self.spec_width() * self.spec_height()
    }

    /// Accepts a width and a height unless one of them is zero.
    pub fn new(width: u32, height: u32) -> (res: Result<Dimensions, Error>)
        ensures
            res is Ok <==> (width > 0 && height > 0),
            res matches Ok(d) ==> d.spec_width() == width && d.spec_height() == height,
            res matches Err(e) ==> e == Error::InvalidDimension,
    {
        if width == 0 || height == 0 {
            Err(Error::InvalidDimension)
        } else {
            Ok(Dimensions { width, height })
        }
    }

    /// Glyphs per line.
    pub fn width(&self) -> (w: u32)
        ensures
            w == self.spec_width(),
            w > 0,
    {
        proof {
            use_type_invariant(self);
        }
        self.width
    }

    /// Number of lines.
    pub fn height(&self) -> (h: u32)
        ensures
            h == self.spec_height(),
            h > 0,
    {
        proof {
            use_type_invariant(self);
        }
        self.height
    }

    /// Number of cells in the grid.
    pub fn cells(&self) -> (n: u64)
        ensures
            n == self.spec_cells(),
            n > 0,
            self.spec_width() > 0,
            self.spec_height() > 0,
    {
        proof {
            use_type_invariant(self);
            assert(self.width * self.height <= u64::MAX && self.width * self.height > 0)
                by (nonlinear_arith)
                requires
                    0 < self.width <= u32::MAX,
                    0 < self.height <= u32::MAX,
            ;
        }
        (self.width as u64) * (self.height as u64)
    }
}

impl Default for Dimensions {
    /// The grid of `DEFAULT_WIDTH` by `DEFAULT_HEIGHT`.
    fn default() -> (dims: Dimensions)
        ensures
            dims.spec_width() == DEFAULT_WIDTH,
            dims.spec_height() == DEFAULT_HEIGHT,
    {
        Dimensions { width: DEFAULT_WIDTH, height: DEFAULT_HEIGHT }
    }
}

/// The bit pattern of gamma 1.0, the correction that changes nothing.
pub const UNIT_GAMMA_BITS: u32 = 0x3f80_0000;

/// Whether the sign bit of a single-precision bit pattern is set.
pub open spec fn sign_bit(bits: u32) -> bool {
    bits >> 31 == 1
}

/// The eight exponent bits of a single-precision bit pattern.
pub open spec fn exponent_field(bits: u32) -> u32 {
    (bits >> 23) & 0xff
}

/// The twenty-three fraction bits of a single-precision bit pattern.
pub open spec fn fraction_field(bits: u32) -> u32 {
    bits & 0x7f_ffff
}

/// Whether a single-precision bit pattern stands for a finite number above
/// zero: no sign, an exponent that is not all ones (which would be an
/// infinity or a NaN), and not the pattern of zero itself.
pub open spec fn is_positive_finite(bits: u32) -> bool {
    &&& !sign_bit(bits)
    &&& exponent_field(bits) != 0xff
    &&& (exponent_field(bits) != 0 || fraction_field(bits) != 0)
}

/// The positive finite patterns are one unbroken range of integers.
pub proof fn lemma_positive_finite_range(bits: u32)
    ensures
        is_positive_finite(bits) <==> 0 < bits < 0x7f80_0000,
{
    assert((!(bits >> 31 == 1) && (bits >> 23) & 0xff != 0xff && ((bits >> 23) & 0xff != 0 || bits
        & 0x7f_ffff != 0)) <==> (0 < bits && bits < 0x7f80_0000)) by (bit_vector);
}

/// A gamma exponent, held as the bit pattern of a single-precision number so
/// that no floating-point arithmetic is needed to carry or to check it.
#[derive(Debug, Clone, Copy, PartialEq, Eq)]
pub struct Gamma {
    bits: u32,
}

impl Gamma {
    #[verifier::type_invariant]
    spec fn valid(self) -> bool {
        is_positive_finite(self.bits)
    }

    /// The bit pattern this gamma was made from.
    pub closed spec fn spec_bits(self) -> u32 {
        self.bits
    }

    /// Whether this is gamma 1.0.
    pub open spec fn spec_is_unit(self) -> bool {
        self.spec_bits() == UNIT_GAMMA_BITS
    }

    /// Accepts the bit pattern of a finite number above zero, and no other.
    pub fn from_bits(bits: u32) -> (res: Result<Gamma, Error>)
        ensures
            res is Ok <==> is_positive_finite(bits),
            res matches Ok(g) ==> g.spec_bits() == bits,
            res matches Err(e) ==> e == Error::InvalidGamma,
    {
        proof {
            lemma_positive_finite_range(bits);
        }
        if 0 < bits && bits < 0x7f80_0000 {
            Ok(Gamma { bits })
        } else {
            Err(Error::InvalidGamma)
        }
    }

    /// Gamma 1.0.
    pub fn unit() -> (g: Gamma)
        ensures
            g.spec_is_unit(),
    {
        proof {
            lemma_positive_finite_range(UNIT_GAMMA_BITS);
        }
        Gamma { bits: UNIT_GAMMA_BITS }
    }

    /// The bit pattern this gamma was made from.
    pub fn bits(&self) -> (bits: u32)
        ensures
            bits == self.spec_bits(),
            is_positive_finite(bits),
    {
        proof {
            use_type_invariant(self);
        }
        self.bits
    }

    /// Whether this is gamma 1.0.
    pub fn is_unit(&self) -> (unit: bool)
        ensures
            unit == self.spec_is_unit(),
    {
        self.bits == UNIT_GAMMA_BITS
    }
}

impl Default for Gamma {
    /// Gamma 1.0.
    fn default() -> (g: Gamma)
        ensures
            g.spec_is_unit(),
    {
        Gamma::unit()
    }
}

} // verus!
