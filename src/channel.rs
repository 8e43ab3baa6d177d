use vstd::prelude::*;

verus! {

/// Normalized product `a * b / max`, rounded to the nearest value.
pub open spec fn un_mul_spec(a: int, b: int, max: int) -> int {
    (a * b + max / 2) / max
}

/// Sum that saturates at `max`.
pub open spec fn un_add_spec(a: int, b: int, max: int) -> int {
    if a + b > max {
        max
    } else {
        a + b
    }
}

/// Difference that saturates at zero.
pub open spec fn un_sub_spec(a: int, b: int) -> int {
    if a < b {
        0
    } else {
        a - b
    }
}

/// A value `v` of a channel whose largest value is `from_max`, rescaled to
/// a channel whose largest value is `to_max`, rounded to the nearest value.
pub open spec fn convert_spec(v: int, from_max: int, to_max: int) -> int {
    (v * to_max + from_max / 2) / from_max
}

/// A normalized color sample: an unsigned integer where `0` is none and
/// `channel_max()` is full intensity.
pub trait Channel: Copy + Sized {
    /// The sample as an integer in `[0, spec_max()]`.
    spec fn spec_value(self) -> int;

    /// The largest sample, standing for full intensity.
    spec fn spec_max() -> int;

    proof fn lemma_range(self)
        ensures
            0 <= self.spec_value() <= Self::spec_max(),
    ;

    proof fn lemma_max()
        ensures
            0 < Self::spec_max() <= 0xffff,
    ;

    /// The sample standing for no intensity.
    fn zero() -> (r: Self)
        ensures
            r.spec_value() == 0,
    ;

    /// The sample standing for full intensity.
    fn channel_max() -> (r: Self)
        ensures
            r.spec_value() == Self::spec_max(),
    ;

    /// The largest sample as a `u32`.
    fn max_u32() -> (r: u32)
        ensures
            r == Self::spec_max(),
    ;

    fn to_u32(self) -> (r: u32)
        ensures
            r == self.spec_value(),
    ;

    fn from_u32(v: u32) -> (r: Self)
        requires
            v <= Self::spec_max(),
        ensures
            r.spec_value() == v,
    ;

    /// Unsigned-normalized multiply.
    fn un_mul(self, other: Self) -> (r: Self)
        ensures
            r.spec_value() == un_mul_spec(self.spec_value(), other.spec_value(), Self::spec_max()),
    ;

    /// Unsigned-normalized add, saturating at full intensity.
    fn un_add(self, other: Self) -> (r: Self)
        ensures
            r.spec_value() == un_add_spec(self.spec_value(), other.spec_value(), Self::spec_max()),
    ;

    /// Unsigned-normalized subtract, saturating at zero.
    fn un_sub(self, other: Self) -> (r: Self)
        ensures
            r.spec_value() == un_sub_spec(self.spec_value(), other.spec_value()),
    ;
}

impl Channel for u8 {
    open spec fn spec_value(self) -> int {
        self as int
    }

    open spec fn spec_max() -> int {
        0xff
    }

    proof fn lemma_range(self) {
    }

    proof fn lemma_max() {
    }

    fn zero() -> (r: u8) {
        0
    }

    fn channel_max() -> (r: u8) {
        0xff
    }

    fn max_u32() -> (r: u32) {
        0xff
    }

    fn to_u32(self) -> (r: u32) {
        self as u32
    }

    fn from_u32(v: u32) -> (r: u8) {
        v as u8
    }

    fn un_mul(self, other: u8) -> (r: u8) {
        let a: u32 = self as u32;
        let b: u32 = other as u32;
        assert(a * b <= 0xff * 0xff) by (nonlinear_arith)
            requires
                a <= 0xff,
                b <= 0xff,
        ;
        let p: u32 = a * b;
        assert((p + 0x7f) / 0xff <= 0xff) by (nonlinear_arith)
            requires
                p <= 0xff * 0xff,
        ;
        ((p + 0x7f) / 0xff) as u8
    }

    fn un_add(self, other: u8) -> (r: u8) {
        self.saturating_add(other)
    }

    fn un_sub(self, other: u8) -> (r: u8) {
        self.saturating_sub(other)
    }
}

impl Channel for u16 {
    open spec fn spec_value(self) -> int {
        self as int
    }

    open spec fn spec_max() -> int {
        0xffff
    }

    proof fn lemma_range(self) {
    }

    proof fn lemma_max() {
    }

    fn zero() -> (r: u16) {
        0
    }

    fn channel_max() -> (r: u16) {
        0xffff
    }

    fn max_u32() -> (r: u32) {
        0xffff
    }

    fn to_u32(self) -> (r: u32) {
        self as u32
    }

    fn from_u32(v: u32) -> (r: u16) {
        v as u16
    }

    fn un_mul(self, other: u16) -> (r: u16) {
        let a: u32 = self as u32;
        let b: u32 = other as u32;
        assert(a * b <= 0xffff * 0xffff) by (nonlinear_arith)
            requires
                a <= 0xffff,
                b <= 0xffff,
        ;
        let p: u32 = a * b;
        assert((p + 0x7fff) / 0xffff <= 0xffff) by (nonlinear_arith)
            requires
                p <= 0xffff * 0xffff,
        ;
        ((p + 0x7fff) / 0xffff) as u16
    }

    fn un_add(self, other: u16) -> (r: u16) {
        self.saturating_add(other)
    }

    fn un_sub(self, other: u16) -> (r: u16) {
        self.saturating_sub(other)
    }
}

/// Converts a sample between channel representations by rescaling.
pub fn to_channel<F: Channel, T: Channel>(v: F) -> (r: T)
    ensures
        r.spec_value() == convert_spec(v.spec_value(), F::spec_max(), T::spec_max()),
{
    proof {
        v.lemma_range();
        F::lemma_max();
        T::lemma_max();
    }
    let x = v.to_u32();
    let fm = F::max_u32();
    let tm = T::max_u32();
    let ghost (xi, ti, fi) = (x as int, tm as int, fm as int);
    assert(xi * ti + fi / 2 <= 0xffff * 0xffff + 0x7fff) by (nonlinear_arith)
        requires
            0 <= xi <= fi <= 0xffff,
            0 <= ti <= 0xffff,
    ;
    assert((xi * ti + fi / 2) / fi <= ti) by (nonlinear_arith)
        requires
            0 <= xi <= fi,
            0 < fi,
            0 <= ti,
    ;
    T::from_u32((x * tm + fm / 2) / fm)
}

/// The normalized product never exceeds the larger operand, and multiplying by
/// full intensity gives the other operand back.
pub proof fn lemma_un_mul_bounds<T: Channel>(a: T, b: T)
    ensures
        un_mul_spec(a.spec_value(), b.spec_value(), T::spec_max()) <= vstd::math::max(
            a.spec_value(),
            b.spec_value(),
        ),
        un_mul_spec(T::spec_max(), b.spec_value(), T::spec_max()) == b.spec_value(),
{
    a.lemma_range();
    b.lemma_range();
    T::lemma_max();
    let x = a.spec_value();
    let y = b.spec_value();
    let m = T::spec_max();
    assert((x * y + m / 2) / m <= y) by (nonlinear_arith)
        requires
            0 <= x <= m,
            0 <= y <= m,
            0 < m,
    ;
    assert((m * y + m / 2) / m == y) by (nonlinear_arith)
        requires
            0 <= y,
            0 < m,
    ;
}

/// Channel conversion keeps both extremes and never reverses the order of
/// two samples.
pub proof fn lemma_convert_extremes_monotonic(a: int, b: int, from_max: int, to_max: int)
    requires
        0 < from_max,
        0 < to_max,
        0 <= a <= b <= from_max,
    ensures
        convert_spec(0, from_max, to_max) == 0,
        convert_spec(from_max, from_max, to_max) == to_max,
        convert_spec(a, from_max, to_max) <= convert_spec(b, from_max, to_max),
{
    assert((from_max / 2) / from_max == 0) by (nonlinear_arith)
        requires
            0 < from_max,
    ;
    assert((from_max * to_max + from_max / 2) / from_max == to_max) by (nonlinear_arith)
        requires
            0 < from_max,
            0 < to_max,
    ;
    assert((a * to_max + from_max / 2) / from_max <= (b * to_max + from_max / 2) / from_max)
        by (nonlinear_arith)
        requires
            0 < from_max,
            0 < to_max,
            0 <= a <= b,
    ;
}

} // verus!
