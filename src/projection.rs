use vstd::prelude::*;

verus! {

/// The projection of a 2D shape on an axis: the start and end bounds of the
/// shape along that axis, as used by separating-axis overlap checks.
#[derive(Clone, Copy, Debug, PartialEq, Eq, Hash)]
pub struct Projection<T> {
    pub min: T,
    pub max: T,
}

impl<T> Projection<T> {
    /// Create a new projection.
    pub fn new(min: T, max: T) -> (p: Self)
        ensures
            p == (Projection { min, max }),
    {
        Projection { min, max }
    }
}

/// Create a new projection.
pub fn projection<T>(min: T, max: T) -> (p: Projection<T>)
    ensures
        p == (Projection { min, max }),
{
    Projection { min, max }
}

impl Projection<i32> {
    /// The two projections share more than an endpoint.
    pub open spec fn overlaps_spec(self, other: Self) -> bool {
        self.min < other.max && self.max > other.min
    }

    /// Whether `value` lies between the bounds, both included.
    pub fn contains(&self, value: i32) -> (r: bool)
        ensures
            r == (self.min <= value && value <= self.max),
    {
        value >= self.min && value <= self.max
    }

    /// Returns true if this projection overlaps the other. Projections that
    /// only touch at an endpoint do not overlap.
    pub fn overlaps(&self, other: Projection<i32>) -> (r: bool)
        ensures
            r == self.overlaps_spec(other),
    {
        self.min < other.max && self.max > other.min
    }

    /// If this projection overlaps the other, returns the amount by which it
    /// overlaps, measured from the other's start to this one's end.
    pub fn overlap(&self, other: Projection<i32>) -> (r: Option<i32>)
        requires
            self.overlaps_spec(other) ==> self.max - other.min <= i32::MAX,
        ensures
            r == (if self.overlaps_spec(other) {
                Some((self.max - other.min) as i32)
            } else {
                None
            }),
    {
        if self.min < other.max && self.max > other.min {
            Some(self.max - other.min)
        } else {
            None
        }
    }

    /// Length of the projection.
    pub fn len(&self) -> (r: i32)
        requires
            i32::MIN <= self.max - self.min <= i32::MAX,
        ensures
            r == self.max - self.min,
    {
        self.max - self.min
    }
}

} // verus!
