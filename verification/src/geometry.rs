//! Points, sizes and rectangles in window coordinates: x runs right, y down.

use crate::float::{scalar, Scalar};
use vstd::prelude::*;

verus! {

#[derive(Clone, Copy, Debug, PartialEq, Eq, Structural)]
pub struct Point {
    pub x: Scalar,
    pub y: Scalar,
}

#[derive(Clone, Copy, Debug, PartialEq, Eq, Structural)]
pub struct Size {
    pub width: Scalar,
    pub height: Scalar,
}

#[derive(Clone, Copy, Debug, PartialEq, Eq, Structural)]
pub struct Bounds {
    pub origin: Point,
    pub size: Size,
}

#[derive(Clone, Copy, Debug, PartialEq, Eq, Structural)]
pub struct Edges {
    pub top: Scalar,
    pub right: Scalar,
    pub bottom: Scalar,
    pub left: Scalar,
}

/// The point with the given coordinates.
#[verifier::allow_in_spec]
pub fn point(x: Scalar, y: Scalar) -> Point
    returns
        (Point { x, y }),
{
    Point { x, y }
}

/// The origin of a window.
#[verifier::allow_in_spec]
pub fn origin() -> Point
    returns
        (Point { x: scalar(0), y: scalar(0) }),
{
    Point { x: scalar(0), y: scalar(0) }
}

/// A size, by its sides.
#[verifier::allow_in_spec]
pub fn size(width: Scalar, height: Scalar) -> Size
    returns
        (Size { width, height }),
{
    Size { width, height }
}

/// No inset on any side.
#[verifier::allow_in_spec]
pub fn no_edges() -> Edges
    returns
        (Edges { top: scalar(0), right: scalar(0), bottom: scalar(0), left: scalar(0) }),
{
    Edges { top: scalar(0), right: scalar(0), bottom: scalar(0), left: scalar(0) }
}

} // verus!
