use vstd::prelude::*;

use crate::channel::{convert_spec, to_channel, un_add_spec, un_mul_spec, un_sub_spec, Channel};

verus! {

/// A single-channel grey color.
#[derive(Clone, Copy, Debug, PartialEq, Eq, Hash)]
pub struct Grey<T>(pub T);

/// A grey color with an alpha channel.
#[derive(Clone, Copy, Debug, PartialEq, Eq, Hash)]
pub struct GreyAlpha<T> {
    pub g: T,
    pub a: T,
}

/// A 3-channel RGB color.
#[derive(Clone, Copy, Debug, PartialEq, Eq, Hash)]
pub struct Rgb<T> {
    pub r: T,
    pub g: T,
    pub b: T,
}

/// A 4-channel RGBA color.
#[derive(Clone, Copy, Debug, PartialEq, Eq, Hash)]
pub struct Rgba<T> {
    pub r: T,
    pub g: T,
    pub b: T,
    pub a: T,
}

/// Create a new RGBA color.
pub fn rgba<T>(r: T, g: T, b: T, a: T) -> (c: Rgba<T>)
    ensures
        c == (Rgba { r, g, b, a }),
{
    Rgba { r, g, b, a }
}

impl<T> Rgba<T> {
    /// Create a new RGBA color.
    pub fn new(r: T, g: T, b: T, a: T) -> (c: Self)
        ensures
            c == (Rgba { r, g, b, a }),
    {
        Rgba { r, g, b, a }
    }
}

/// Each channel of `c` holds `f` applied to the matching channel of `x` and `y`.
pub open spec fn channelwise<T: Channel>(
    c: Rgba<T>,
    x: Rgba<T>,
    y: Rgba<T>,
    f: spec_fn(int, int) -> int,
) -> bool {
    &&& c.r.spec_value() == f(x.r.spec_value(), y.r.spec_value())
    &&& c.g.spec_value() == f(x.g.spec_value(), y.g.spec_value())
    &&& c.b.spec_value() == f(x.b.spec_value(), y.b.spec_value())
    &&& c.a.spec_value() == f(x.a.spec_value(), y.a.spec_value())
}

/// Each channel of `c` is the matching channel of `x` rescaled to `T`.
pub open spec fn converted<F: Channel, T: Channel>(c: Rgba<T>, x: Rgba<F>) -> bool {
    &&& c.r.spec_value() == convert_spec(x.r.spec_value(), F::spec_max(), T::spec_max())
    &&& c.g.spec_value() == convert_spec(x.g.spec_value(), F::spec_max(), T::spec_max())
    &&& c.b.spec_value() == convert_spec(x.b.spec_value(), F::spec_max(), T::spec_max())
    &&& c.a.spec_value() == convert_spec(x.a.spec_value(), F::spec_max(), T::spec_max())
}

proof fn lemma_convert_max<F: Channel, T: Channel>()
    ensures
        convert_spec(F::spec_max(), F::spec_max(), T::spec_max()) == T::spec_max(),
{
    F::lemma_max();
    T::lemma_max();
    crate::channel::lemma_convert_extremes_monotonic(0, 0, F::spec_max(), T::spec_max());
}

impl<T: Channel> Rgba<T> {
    /// Create a color with all components set to the same value.
    pub fn splat(val: T) -> (c: Self)
        ensures
            c == (Rgba { r: val, g: val, b: val, a: val }),
    {
        Rgba { r: val, g: val, b: val, a: val }
    }

    /// Convert from grey to RGBA: the grey value goes to the three color
    /// channels and the color is fully opaque.
    pub fn from_grey<C: Channel>(val: Grey<C>) -> (c: Self)
        ensures
            c.r.spec_value() == convert_spec(val.0.spec_value(), C::spec_max(), T::spec_max()),
            c.g == c.r,
            c.b == c.r,
            c.a.spec_value() == T::spec_max(),
    {
        val.to_rgba()
    }

    /// Convert from grey-alpha to RGBA: the grey value goes to the three
    /// color channels and alpha is carried through.
    pub fn from_grey_alpha<C: Channel>(val: GreyAlpha<C>) -> (c: Self)
        ensures
            c.r.spec_value() == convert_spec(val.g.spec_value(), C::spec_max(), T::spec_max()),
            c.g == c.r,
            c.b == c.r,
            c.a.spec_value() == convert_spec(val.a.spec_value(), C::spec_max(), T::spec_max()),
    {
        val.to_rgba()
    }

    /// Convert from RGB to RGBA: the color is fully opaque.
    pub fn from_rgb<C: Channel>(val: Rgb<C>) -> (c: Self)
        ensures
            c.r.spec_value() == convert_spec(val.r.spec_value(), C::spec_max(), T::spec_max()),
            c.g.spec_value() == convert_spec(val.g.spec_value(), C::spec_max(), T::spec_max()),
            c.b.spec_value() == convert_spec(val.b.spec_value(), C::spec_max(), T::spec_max()),
            c.a.spec_value() == T::spec_max(),
    {
        val.to_rgba()
    }

    /// Convert from an RGBA color of another channel representation.
    pub fn from_rgba<C: Channel>(val: Rgba<C>) -> (c: Self)
        ensures
            converted(c, val),
    {
        val.to_rgba()
    }

    /// Convert every channel to another channel representation.
    pub fn to_rgba<C: Channel>(self) -> (c: Rgba<C>)
        ensures
            converted(c, self),
    {
        Rgba {
            r: to_channel(self.r),
            g: to_channel(self.g),
            b: to_channel(self.b),
            a: to_channel(self.a),
        }
    }

    /// Unsigned-normalize multiply all channels by the value.
    pub fn un_mul(self, a: T) -> (c: Self)
        ensures
            channelwise(c, self, Self::splat_spec(a), |x: int, y: int| un_mul_spec(x, y, T::spec_max())),
    {
        Rgba { r: self.r.un_mul(a), g: self.g.un_mul(a), b: self.b.un_mul(a), a: self.a.un_mul(a) }
    }

    /// Unsigned-normalize multiply each channel by the matching channel of `o`.
    pub fn mul_color(self, o: Self) -> (c: Self)
        ensures
            channelwise(c, self, o, |x: int, y: int| un_mul_spec(x, y, T::spec_max())),
    {
        Rgba { r: self.r.un_mul(o.r), g: self.g.un_mul(o.g), b: self.b.un_mul(o.b), a: self.a.un_mul(o.a) }
    }

    /// Unsigned-normalize add each channel of `o`, saturating at full intensity.
    pub fn add_color(self, o: Self) -> (c: Self)
        ensures
            channelwise(c, self, o, |x: int, y: int| un_add_spec(x, y, T::spec_max())),
    {
        Rgba { r: self.r.un_add(o.r), g: self.g.un_add(o.g), b: self.b.un_add(o.b), a: self.a.un_add(o.a) }
    }

    /// Unsigned-normalize subtract each channel of `o`, saturating at zero.
    pub fn sub_color(self, o: Self) -> (c: Self)
        ensures
            channelwise(c, self, o, |x: int, y: int| un_sub_spec(x, y)),
    {
        Rgba { r: self.r.un_sub(o.r), g: self.g.un_sub(o.g), b: self.b.un_sub(o.b), a: self.a.un_sub(o.a) }
    }

    pub open spec fn splat_spec(val: T) -> Self {
        Rgba { r: val, g: val, b: val, a: val }
    }
}

impl<T: Channel> Grey<T> {
    /// Convert to RGBA of any channel representation, fully opaque.
    pub fn to_rgba<C: Channel>(self) -> (c: Rgba<C>)
        ensures
            c.r.spec_value() == convert_spec(self.0.spec_value(), T::spec_max(), C::spec_max()),
            c.g == c.r,
            c.b == c.r,
            c.a.spec_value() == C::spec_max(),
    {
        proof {
            lemma_convert_max::<T, C>();
        }
        let v: C = to_channel(self.0);
        Rgba { r: v, g: v, b: v, a: to_channel(T::channel_max()) }
    }
}

impl<T: Channel> GreyAlpha<T> {
    /// Convert to RGBA of any channel representation, keeping alpha.
    pub fn to_rgba<C: Channel>(self) -> (c: Rgba<C>)
        ensures
            c.r.spec_value() == convert_spec(self.g.spec_value(), T::spec_max(), C::spec_max()),
            c.g == c.r,
            c.b == c.r,
            c.a.spec_value() == convert_spec(self.a.spec_value(), T::spec_max(), C::spec_max()),
    {
        let v: C = to_channel(self.g);
        Rgba { r: v, g: v, b: v, a: to_channel(self.a) }
    }
}

impl<T: Channel> Rgb<T> {
    /// Convert to RGBA of any channel representation, fully opaque.
    pub fn to_rgba<C: Channel>(self) -> (c: Rgba<C>)
        ensures
            c.r.spec_value() == convert_spec(self.r.spec_value(), T::spec_max(), C::spec_max()),
            c.g.spec_value() == convert_spec(self.g.spec_value(), T::spec_max(), C::spec_max()),
            c.b.spec_value() == convert_spec(self.b.spec_value(), T::spec_max(), C::spec_max()),
            c.a.spec_value() == C::spec_max(),
    {
        proof {
            lemma_convert_max::<T, C>();
        }
        Rgba {
            r: to_channel(self.r),
            g: to_channel(self.g),
            b: to_channel(self.b),
            a: to_channel(T::channel_max()),
        }
    }
}


/// The packed form of an 8-bit color: red in the highest byte, alpha in the
/// lowest.
pub open spec fn pack_spec(c: Rgba<u8>) -> int {
    c.r as int * 0x1000000 + c.g as int * 0x10000 + c.b as int * 0x100 + c.a as int
}

/// The 8-bit color whose packed form is `p`.
pub open spec fn unpack_spec(p: u32) -> Rgba<u8> {
    Rgba {
        r: (p as int / 0x1000000) as u8,
        g: (p as int / 0x10000 % 0x100) as u8,
        b: (p as int / 0x100 % 0x100) as u8,
        a: (p as int % 0x100) as u8,
    }
}

/// The opaque 8-bit color whose blue, green and red are the three low bytes
/// of `packed`, blue highest.
pub fn bgr(packed: u32) -> (c: Rgba<u8>)
    ensures
        c.r == packed % 0x100,
        c.g == packed / 0x100 % 0x100,
        c.b == packed / 0x10000 % 0x100,
        c.a == 0xff,
{
    let r: u8 = (packed & 0xff) as u8;
    let g: u8 = ((packed >> 8) & 0xff) as u8;
    let b: u8 = ((packed >> 16) & 0xff) as u8;
    assert(packed & 0xff == packed % 0x100) by (bit_vector);
    assert((packed >> 8) & 0xff == packed / 0x100 % 0x100) by (bit_vector);
    assert((packed >> 16) & 0xff == packed / 0x10000 % 0x100) by (bit_vector);
    Rgba::new(r, g, b, 255)
}

impl Rgba<u8> {
    /// Pack the color into a `u32` value.
    pub fn pack(self) -> (p: u32)
        ensures
            p == pack_spec(self),
    {
        let (r, g, b, a) = (self.r, self.g, self.b, self.a);
        assert((r as u32) << 24 | (g as u32) << 16 | (b as u32) << 8 | (a as u32) == r as u32
            * 0x1000000 + g as u32 * 0x10000 + b as u32 * 0x100 + a as u32) by (bit_vector);
        (r as u32) << 24 | (g as u32) << 16 | (b as u32) << 8 | (a as u32)
    }

    /// Unpack the color from a `u32` value.
    pub fn unpack(packed: u32) -> (c: Self)
        ensures
            c == unpack_spec(packed),
    {
        assert(packed >> 24 == packed / 0x1000000) by (bit_vector);
        assert((packed >> 16) & 0xff == packed / 0x10000 % 0x100) by (bit_vector);
        assert((packed >> 8) & 0xff == packed / 0x100 % 0x100) by (bit_vector);
        assert(packed & 0xff == packed % 0x100) by (bit_vector);
        Rgba::new(
            (packed >> 24) as u8,
            ((packed >> 16) & 0xff) as u8,
            ((packed >> 8) & 0xff) as u8,
            (packed & 0xff) as u8,
        )
    }
}

/// Unpacking any `u32` and packing the color again gives the same `u32`.
pub proof fn lemma_unpack_pack(p: u32)
    ensures
        pack_spec(unpack_spec(p)) == p,
{
    assert(p / 0x1000000 * 0x1000000 + p / 0x10000 % 0x100 * 0x10000 + p / 0x100 % 0x100 * 0x100
        + p % 0x100 == p) by (bit_vector);
}

/// Packing any 8-bit color and unpacking the result gives the same color.
pub proof fn lemma_pack_unpack(c: Rgba<u8>)
    ensures
        0 <= pack_spec(c) <= u32::MAX,
        unpack_spec(pack_spec(c) as u32) == c,
{
    let (r, g, b, a) = (c.r, c.g, c.b, c.a);
    assert(r as u32 * 0x1000000 + g as u32 * 0x10000 + b as u32 * 0x100 + a as u32 <= u32::MAX)
        by (bit_vector);
    assert((r as u32 * 0x1000000 + g as u32 * 0x10000 + b as u32 * 0x100 + a as u32) / 0x1000000
        == r as u32) by (bit_vector);
    assert((r as u32 * 0x1000000 + g as u32 * 0x10000 + b as u32 * 0x100 + a as u32) / 0x10000
        % 0x100 == g as u32) by (bit_vector);
    assert((r as u32 * 0x1000000 + g as u32 * 0x10000 + b as u32 * 0x100 + a as u32) / 0x100
        % 0x100 == b as u32) by (bit_vector);
    assert((r as u32 * 0x1000000 + g as u32 * 0x10000 + b as u32 * 0x100 + a as u32) % 0x100
        == a as u32) by (bit_vector);
}


impl From<u32> for Rgba<u8> {
    fn from(value: u32) -> (c: Self) {
        Self::unpack(value)
    }
}

impl vstd::std_specs::convert::FromSpecImpl<u32> for Rgba<u8> {
    open spec fn obeys_from_spec() -> bool {
        true
    }

    open spec fn from_spec(v: u32) -> Self {
        unpack_spec(v)
    }
}

} // verus!
