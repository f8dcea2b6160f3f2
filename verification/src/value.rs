//! Value kinds and the concrete values carried through graphs.
//!
//! Real numbers (channel intensities, tensor samples, coordinates) are held in their shortest
//! decimal form, see [`Decimal`]; the library stores, forwards and compares them.

use vstd::prelude::*;

verus! {

/// Identifies the coarse-grained type of a graph value for connection validation and UI behavior.
#[derive(Debug, Clone, Copy, PartialEq, Eq, Structural, Hash)]
pub enum ValueKind {
    Any,
    Float,
    String,
    FloatTensor,
    Color,
    LedLayout,
    ColorFrame,
    MappedFrame,
}

impl ValueKind {
    /// Returns whether the kind represents one of the frame-carrying variants.
    pub fn is_frame(self) -> (frame: bool)
        ensures
            frame == (self == ValueKind::ColorFrame || self == ValueKind::MappedFrame),
    {
        match self {
            ValueKind::ColorFrame | ValueKind::MappedFrame => true,
            _ => false,
        }
    }

    /// The variant's name, as it appears in diagnostic messages.
    pub open spec fn name_text(self) -> Seq<char> {
        match self {
            ValueKind::Any => "Any"@,
            ValueKind::Float => "Float"@,
            ValueKind::String => "String"@,
            ValueKind::FloatTensor => "FloatTensor"@,
            ValueKind::Color => "Color"@,
            ValueKind::LedLayout => "LedLayout"@,
            ValueKind::ColorFrame => "ColorFrame"@,
            ValueKind::MappedFrame => "MappedFrame"@,
        }
    }

    /// Returns the variant's name, as it appears in diagnostic messages.
    pub fn name(self) -> (name: &'static str)
        ensures
            name@ == self.name_text(),
    {
        match self {
            ValueKind::Any => "Any",
            ValueKind::Float => "Float",
            ValueKind::String => "String",
            ValueKind::FloatTensor => "FloatTensor",
            ValueKind::Color => "Color",
            ValueKind::LedLayout => "LedLayout",
            ValueKind::ColorFrame => "ColorFrame",
            ValueKind::MappedFrame => "MappedFrame",
        }
    }
}

/// A finite real number in decimal form: `(-1)^negative × significand × 10^exponent`.
///
/// Values produced from binary floating point use the shortest form that reads back to the same
/// binary number, so the significand carries no trailing zero digit and zero has exponent `0`.
#[derive(Debug, Clone, Copy, PartialEq, Eq, Structural, Hash)]
pub struct Decimal {
    pub negative: bool,
    pub significand: u64,
    pub exponent: i32,
}

impl Decimal {
    /// Whether the two forms denote the same number, `0` and `-0` being the same.
    pub open spec fn same_number(self, other: Decimal) -> bool {
        (self.significand == 0 && other.significand == 0) || self == other
    }

    /// Builds a non-negative decimal `significand × 10^exponent`.
    pub fn new(significand: u64, exponent: i32) -> (d: Decimal)
        ensures
            d == (Decimal { negative: false, significand, exponent }),
    {
        Decimal { negative: false, significand, exponent }
    }

    /// Builds a negative decimal `-significand × 10^exponent`.
    pub fn negative(significand: u64, exponent: i32) -> (d: Decimal)
        ensures
            d == (Decimal { negative: true, significand, exponent }),
    {
        Decimal { negative: true, significand, exponent }
    }

    /// Returns whether the two forms denote the same number.
    pub fn same_as(&self, other: &Decimal) -> (same: bool)
        ensures
            same == self.same_number(*other),
    {
        (self.significand == 0 && other.significand == 0) || (self.negative == other.negative
            && self.significand == other.significand && self.exponent == other.exponent)
    }

    /// The number times `10^2147483648`: an integer for every decimal, since no exponent lies
    /// below `i32::MIN`. Two decimals compare as these integers do.
    pub open spec fn scaled(self) -> int {
        let magnitude = self.significand * pow10((self.exponent - i32::MIN) as nat);
        if self.negative {
            -magnitude
        } else {
            magnitude
        }
    }

    /// Whether this number is less than or equal to `other`.
    pub open spec fn at_most(self, other: Decimal) -> bool {
        self.scaled() <= other.scaled()
    }

    /// Whether this number is strictly less than `other`.
    pub open spec fn below(self, other: Decimal) -> bool {
        self.scaled() < other.scaled()
    }

    /// Returns whether this number is less than or equal to `other`.
    pub fn is_at_most(&self, other: &Decimal) -> (at_most: bool)
        ensures
            at_most == self.at_most(*other),
    {
        proof {
            lemma_magnitude_sign(self.significand, self.exponent);
            lemma_magnitude_sign(other.significand, other.exponent);
        }
        let self_negative = self.negative && self.significand != 0;
        let other_negative = other.negative && other.significand != 0;
        if self_negative && !other_negative {
            true
        } else if !self_negative && other_negative {
            false
        } else if self_negative {
            magnitude_at_most(other.significand, other.exponent, self.significand, self.exponent)
        } else {
            magnitude_at_most(self.significand, self.exponent, other.significand, other.exponent)
        }
    }

    /// Returns whether this number is strictly less than `other`.
    pub fn is_below(&self, other: &Decimal) -> (below: bool)
        ensures
            below == self.below(*other),
    {
        !other.is_at_most(self)
    }
}

/// `10^n`.
pub open spec fn pow10(n: nat) -> nat
    decreases n,
{
    if n == 0 {
        1
    } else {
        10 * pow10((n - 1) as nat)
    }
}

/// Powers of ten multiply by adding exponents.
pub proof fn lemma_pow10_add(a: nat, b: nat)
    ensures
        pow10(a + b) == pow10(a) * pow10(b),
    decreases a,
{
    if a > 0 {
        lemma_pow10_add((a - 1) as nat, b);
        assert(pow10(a + b) == 10 * pow10((a - 1 + b) as nat));
        let p = pow10((a - 1) as nat);
        let q = pow10(b);
        assert(pow10(a) == 10 * p);
        assert(10 * (p * q) == (10 * p) * q) by (nonlinear_arith);
    } else {
        assert(pow10(a) == 1);
        assert(a + b == b);
    }
}

/// Powers of ten are positive and grow with the exponent.
pub proof fn lemma_pow10_monotone(a: nat, b: nat)
    requires
        a <= b,
    ensures
        1 <= pow10(a) <= pow10(b),
    decreases b,
{
    if b > a {
        lemma_pow10_monotone(a, (b - 1) as nat);
    } else if a > 0 {
        lemma_pow10_monotone((a - 1) as nat, (a - 1) as nat);
    }
}

proof fn lemma_magnitude_sign(significand: u64, exponent: i32)
    ensures
        significand * pow10((exponent - i32::MIN) as nat) >= 0,
        (significand * pow10((exponent - i32::MIN) as nat) == 0) == (significand == 0),
{
    let p = pow10((exponent - i32::MIN) as nat);
    lemma_pow10_monotone(0, (exponent - i32::MIN) as nat);
    assert(significand * p >= 0) by (nonlinear_arith)
        requires
            p >= 1,
    ;
    assert((significand * p == 0) == (significand == 0)) by (nonlinear_arith)
        requires
            p >= 1,
    ;
}

/// Returns `10^n` for an exponent below twenty.
fn power_of_ten(n: u32) -> (p: u128)
    requires
        n < 20,
    ensures
        p == pow10(n as nat),
        p <= 10_000_000_000_000_000_000u128,
{
    let mut p: u128 = 1;
    let mut i: u32 = 0;
    while i < n
        invariant
            i <= n < 20,
            p == pow10(i as nat),
        decreases n - i,
    {
        proof {
            lemma_pow10_monotone(i as nat, 19);
            assert(pow10(19) == 10_000_000_000_000_000_000nat) by {
                reveal_with_fuel(pow10, 20);
            }
        }
        p = p * 10;
        i = i + 1;
    }
    proof {
        lemma_pow10_monotone(n as nat, 19);
        assert(pow10(19) == 10_000_000_000_000_000_000nat) by {
                reveal_with_fuel(pow10, 20);
            }
    }
    p
}

/// Compares `left × 10^left_exponent` with `right × 10^right_exponent`.
fn magnitude_at_most(left: u64, left_exponent: i32, right: u64, right_exponent: i32) -> (at_most:
    bool)
    ensures
        at_most == (left * pow10((left_exponent - i32::MIN) as nat) <= right * pow10(
            (right_exponent - i32::MIN) as nat,
        )),
{
    let ghost lp = pow10((left_exponent - i32::MIN) as nat);
    let ghost rp = pow10((right_exponent - i32::MIN) as nat);
    proof {
        lemma_magnitude_sign(left, left_exponent);
        lemma_magnitude_sign(right, right_exponent);
    }
    if left == 0 {
        return true;
    }
    if right == 0 {
        return false;
    }
    if left_exponent >= right_exponent {
        let gap: i64 = left_exponent as i64 - right_exponent as i64;
        let ghost base = (right_exponent - i32::MIN) as nat;
        proof {
            lemma_pow10_add(gap as nat, base);
            lemma_pow10_monotone(0, base);
            assert(lp == pow10(gap as nat) * rp);
        }
        if gap >= 20 {
            proof {
                lemma_pow10_monotone(20, gap as nat);
                assert(pow10(20) == 100_000_000_000_000_000_000nat) by {
                    reveal_with_fuel(pow10, 21);
                }
                lemma_scaled_beyond(left as int, right as int, pow10(gap as nat) as int, rp as int);
            }
            false
        } else {
            let p = power_of_ten(gap as u32);
            proof {
                lemma_scale_compare(left * p, right as int, rp as int);
                assert(left * p <= 0xffff_ffff_ffff_ffffu128 * 10_000_000_000_000_000_000u128)
                    by (nonlinear_arith)
                    requires
                        left <= 0xffff_ffff_ffff_ffffu64,
                        p <= 10_000_000_000_000_000_000u128,
                ;
                assert(left * lp == (left * p) * rp) by (nonlinear_arith)
                    requires
                        lp == p * rp,
                ;
            }
            (left as u128) * p <= right as u128
        }
    } else {
        let gap: i64 = right_exponent as i64 - left_exponent as i64;
        let ghost base = (left_exponent - i32::MIN) as nat;
        proof {
            lemma_pow10_add(gap as nat, base);
            lemma_pow10_monotone(0, base);
            assert(rp == pow10(gap as nat) * lp);
        }
        if gap >= 20 {
            proof {
                lemma_pow10_monotone(20, gap as nat);
                assert(pow10(20) == 100_000_000_000_000_000_000nat) by {
                    reveal_with_fuel(pow10, 21);
                }
                lemma_scaled_beyond(right as int, left as int, pow10(gap as nat) as int, lp as int);
            }
            true
        } else {
            let p = power_of_ten(gap as u32);
            proof {
                lemma_scale_compare(left as int, right * p, lp as int);
                assert(right * p <= 0xffff_ffff_ffff_ffffu128 * 10_000_000_000_000_000_000u128)
                    by (nonlinear_arith)
                    requires
                        right <= 0xffff_ffff_ffff_ffffu64,
                        p <= 10_000_000_000_000_000_000u128,
                ;
                assert(right * rp == (right * p) * lp) by (nonlinear_arith)
                    requires
                        rp == p * lp,
                ;
            }
            left as u128 <= (right as u128) * p
        }
    }
}

proof fn lemma_scale_compare(x: int, y: int, p: int)
    requires
        p > 0,
    ensures
        (x * p <= y * p) == (x <= y),
{
    assert((x * p <= y * p) == (x <= y)) by (nonlinear_arith)
        requires
            p > 0,
    ;
}

/// A positive significand shifted twenty or more places outweighs any other significand.
proof fn lemma_scaled_beyond(big: int, small: int, shift: int, p: int)
    requires
        1 <= big,
        0 <= small < 100_000_000_000_000_000_000,
        shift >= 100_000_000_000_000_000_000,
        p >= 1,
    ensures
        big * (shift * p) > small * p,
{
    assert(big * shift >= shift) by (nonlinear_arith)
        requires
            1 <= big,
            shift >= 0,
    ;
    assert(big * (shift * p) == (big * shift) * p) by (nonlinear_arith);
    lemma_scale_compare(big * shift, small, p);
    assert((big * shift) * p > small * p) by (nonlinear_arith)
        requires
            big * shift > small,
            p >= 1,
    ;
}

/// A dense tensor of real samples together with its logical shape.
#[derive(Debug, Clone, PartialEq)]
pub struct FloatTensor {
    pub shape: Vec<usize>,
    pub values: Vec<Decimal>,
}

/// The product of the extents in `shape`.
pub open spec fn extent_product(shape: Seq<usize>) -> int
    decreases shape.len(),
{
    if shape.len() == 0 {
        1
    } else {
        extent_product(shape.drop_last()) * shape.last()
    }
}

impl FloatTensor {
    /// The logical number of elements implied by the shape; an empty shape is a scalar.
    pub open spec fn spec_element_count(&self) -> int {
        if self.shape@.len() == 0 {
            1
        } else {
            extent_product(self.shape@)
        }
    }

    /// Returns the logical number of elements implied by the tensor shape.
    ///
    /// Empty shapes are treated as a scalar containing one element.
    pub fn element_count(&self) -> (count: usize)
        requires
            forall|i: int|
                0 <= i <= self.shape@.len() ==> extent_product(#[trigger] self.shape@.take(i))
                    <= usize::MAX,
        ensures
            count == self.spec_element_count(),
    {
        if self.shape.len() == 0 {
            return 1;
        }
        let mut count: usize = 1;
        let mut i: usize = 0;
        while i < self.shape.len()
            invariant
                0 <= i <= self.shape@.len(),
                forall|k: int|
                    0 <= k <= self.shape@.len() ==> extent_product(#[trigger] self.shape@.take(k))
                        <= usize::MAX,
                self.shape@.len() > 0,
                count == extent_product(self.shape@.take(i as int)),
            decreases self.shape@.len() - i,
        {
            let extent = self.shape[i];
            assert(self.shape@.take(i + 1).drop_last() =~= self.shape@.take(i as int));
            assert(extent_product(self.shape@.take(i + 1)) <= usize::MAX);
            count = count * extent;
            i = i + 1;
        }
        assert(self.shape@.take(i as int) =~= self.shape@);
        count
    }
}


/// Describes a concrete LED layout used for frame-producing nodes and sinks.
#[derive(Debug, Clone, PartialEq)]
pub struct LedLayout {
    pub id: String,
    pub role: LedLayoutRole,
    pub pixel_count: usize,
    pub width: Option<usize>,
    pub height: Option<usize>,
    pub points_3d: Option<Vec<Vec3>>,
}

/// Declares whether a layout is a render destination or a source capture layout.
#[derive(Debug, Clone, Copy, PartialEq, Eq, Structural, Hash)]
pub enum LedLayoutRole {
    RenderTarget,
    Source,
}

impl Default for LedLayoutRole {
    fn default() -> (role: Self)
        ensures
            role == LedLayoutRole::RenderTarget,
    {
        LedLayoutRole::RenderTarget
    }
}

/// Represents a full RGBA frame paired with the layout it was rendered for.
#[derive(Debug, Clone, PartialEq)]
pub struct ColorFrame {
    pub layout: LedLayout,
    pub pixels: Vec<RgbaColor>,
}

/// Represents a color gradient as an ordered list of color stops.
#[derive(Debug, Clone, PartialEq)]
pub struct ColorGradient {
    pub stops: Vec<ColorGradientStop>,
}

/// Represents one stop in a color gradient.
#[derive(Debug, Clone, Copy, PartialEq, Eq, Structural)]
pub struct ColorGradientStop {
    pub position: Decimal,
    pub color: RgbaColor,
}

/// Represents a normalized RGBA color using `0.0..=1.0` channel values.
#[derive(Debug, Clone, Copy, PartialEq, Eq, Structural)]
pub struct RgbaColor {
    pub r: Decimal,
    pub g: Decimal,
    pub b: Decimal,
    pub a: Decimal,
}

/// Represents one LED position in a spatial render layout.
#[derive(Debug, Clone, Copy, PartialEq, Eq, Structural)]
pub struct Vec3 {
    pub x: Decimal,
    pub y: Decimal,
    pub z: Decimal,
}

/// Represents a concrete runtime or persisted value carried through the graph system.
#[derive(Debug, Clone, PartialEq)]
pub enum InputValue {
    Float(Decimal),
    String(String),
    FloatTensor(FloatTensor),
    Color(RgbaColor),
    LedLayout(LedLayout),
    ColorFrame(ColorFrame),
    MappedFrame(ColorFrame),
}

impl InputValue {
    /// The coarse-grained kind of a value.
    pub open spec fn kind(self) -> ValueKind {
        match self {
            InputValue::Float(_) => ValueKind::Float,
            InputValue::String(_) => ValueKind::String,
            InputValue::FloatTensor(_) => ValueKind::FloatTensor,
            InputValue::Color(_) => ValueKind::Color,
            InputValue::LedLayout(_) => ValueKind::LedLayout,
            InputValue::ColorFrame(_) => ValueKind::ColorFrame,
            InputValue::MappedFrame(_) => ValueKind::MappedFrame,
        }
    }

    /// Returns the coarse-grained value kind represented by this concrete value.
    pub fn value_kind(&self) -> (kind: ValueKind)
        ensures
            kind == self.kind(),
    {
        match self {
            InputValue::Float(_) => ValueKind::Float,
            InputValue::String(_) => ValueKind::String,
            InputValue::FloatTensor(_) => ValueKind::FloatTensor,
            InputValue::Color(_) => ValueKind::Color,
            InputValue::LedLayout(_) => ValueKind::LedLayout,
            InputValue::ColorFrame(_) => ValueKind::ColorFrame,
            InputValue::MappedFrame(_) => ValueKind::MappedFrame,
        }
    }

    /// Returns the contained frame payload for either frame-valued variant.
    pub fn as_frame(&self) -> (frame: Option<&ColorFrame>)
        ensures
            match self {
                InputValue::ColorFrame(f) | InputValue::MappedFrame(f) => frame == Some(f),
                _ => frame is None,
            },
    {
        match self {
            InputValue::ColorFrame(frame) | InputValue::MappedFrame(frame) => Some(frame),
            _ => None,
        }
    }

    /// Returns the contained frame payload for either frame-valued variant, for editing in place.
    pub fn as_frame_mut(&mut self) -> (frame: Option<&mut ColorFrame>)
        ensures
            match *old(self) {
                InputValue::ColorFrame(f) => frame matches Some(r) && *r == f
                    && *final(self) == InputValue::ColorFrame(*final(r)),
                InputValue::MappedFrame(f) => frame matches Some(r) && *r == f
                    && *final(self) == InputValue::MappedFrame(*final(r)),
                _ => frame is None && *final(self) == *old(self),
            },
    {
        match self {
            InputValue::ColorFrame(frame) => Some(frame),
            InputValue::MappedFrame(frame) => Some(frame),
            _ => None,
        }
    }

    /// Converts a frame payload into the requested frame-valued variant.
    pub fn from_frame_kind(kind: ValueKind, frame: ColorFrame) -> (value: Option<InputValue>)
        ensures
            kind == ValueKind::ColorFrame ==> value == Some(InputValue::ColorFrame(frame)),
            kind == ValueKind::MappedFrame ==> value == Some(InputValue::MappedFrame(frame)),
            !(kind == ValueKind::ColorFrame || kind == ValueKind::MappedFrame) ==> value is None,
    {
        match kind {
            ValueKind::ColorFrame => Some(InputValue::ColorFrame(frame)),
            ValueKind::MappedFrame => Some(InputValue::MappedFrame(frame)),
            _ => None,
        }
    }
}

} // verus!
