use vstd::prelude::*;

verus! {

/// A 2D vector.
#[derive(Clone, Copy, Debug, PartialEq, Eq, Hash)]
pub struct Vec2<T> {
    pub x: T,
    pub y: T,
}

/// An axis-aligned rectangle: its top-left corner and its size.
#[derive(Clone, Copy, Debug, PartialEq, Eq, Hash)]
pub struct Rect<T> {
    pub x: T,
    pub y: T,
    pub w: T,
    pub h: T,
}

/// A vector of unsigned pixel units.
pub type Vec2U = Vec2<u32>;

/// A vector of signed pixel units.
pub type Vec2I = Vec2<i32>;

/// A rectangle in unsigned pixel units.
pub type RectU = Rect<u32>;

/// Create a new vector.
pub fn vec2<T>(x: T, y: T) -> (v: Vec2<T>)
    ensures
        v == (Vec2 { x, y }),
{
    Vec2 { x, y }
}

/// Create a new rectangle.
pub fn rect<T>(x: T, y: T, w: T, h: T) -> (r: Rect<T>)
    ensures
        r == (Rect { x, y, w, h }),
{
    Rect { x, y, w, h }
}

impl<T: Copy> Rect<T> {
    /// The width and height of the rectangle.
    pub fn size(&self) -> (s: Vec2<T>)
        ensures
            s == (Vec2 { x: self.w, y: self.h }),
    {
        Vec2 { x: self.w, y: self.h }
    }
}

} // verus!
