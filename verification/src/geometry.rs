//! Positions and extents on the map.

use crate::float::Float;
use vstd::prelude::*;

verus! {

/// A position on the game board.
#[derive(Clone, Copy, Debug, PartialEq, Eq, Hash, Structural)]
pub struct Point2 {
    pub x: Float,
    pub y: Float,
}

impl Point2 {
    pub fn new(x: Float, y: Float) -> (point: Point2)
        ensures
            point == (Point2 { x, y }),
    {
        Point2 { x, y }
    }
}

/// A position in the game world, with its height.
#[derive(Clone, Copy, Debug, PartialEq, Eq, Hash, Structural)]
pub struct Point3 {
    pub x: Float,
    pub y: Float,
    pub z: Float,
}

impl Point3 {
    pub fn new(x: Float, y: Float, z: Float) -> (point: Point3)
        ensures
            point == (Point3 { x, y, z }),
    {
        Point3 { x, y, z }
    }
}

/// The width and height of a grid, in cells.
#[derive(Clone, Copy, Debug, PartialEq, Eq, Hash, Structural)]
pub struct Size {
    pub x: usize,
    pub y: usize,
}

impl Size {
    pub fn new(x: usize, y: usize) -> (size: Size)
        ensures
            size == (Size { x, y }),
    {
        Size { x, y }
    }
}

/// A rectangle of cells, given by two opposite corners.
#[derive(Clone, Copy, Debug, PartialEq, Eq, Hash, Structural)]
pub struct Rect {
    pub x0: usize,
    pub y0: usize,
    pub x1: usize,
    pub y1: usize,
}

impl Rect {
    pub fn new(x0: usize, y0: usize, x1: usize, y1: usize) -> (rect: Rect)
        ensures
            rect == (Rect { x0, y0, x1, y1 }),
    {
        Rect { x0, y0, x1, y1 }
    }
}

} // verus!
