//! Two-dimensional coordinate pairs.

use vstd::prelude::*;

verus! {

/// Represents a 2-dimensional point, such as a pixel position.
#[derive(Debug, Clone, Copy, PartialEq, Eq)]
pub struct Coords<T> {
    pub x: T,
    pub y: T,
}

impl<T> Coords<T> {
    /// Constructs coordinates from the given `(x, y)` pair.
    pub fn new(x: T, y: T) -> (r: Coords<T>)
        ensures
            r.x == x,
            r.y == y,
    {
        Coords { x, y }
    }
}

impl<T: Copy> Coords<T> {
    /// Constructs coordinates with `x == y == n`.
    pub fn splat(n: T) -> (r: Coords<T>)
        ensures
            r.x == n,
            r.y == n,
    {
        Coords { x: n, y: n }
    }
}

} // verus!
