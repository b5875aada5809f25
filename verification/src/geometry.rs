//! Points, axis-aligned boxes and the classification of an overlap by side.

use vstd::prelude::*;

verus! {

/// A point of the field. Both coordinates count millionths of a unit.
#[derive(Clone, Copy, Debug, PartialEq, Eq, Structural)]
pub struct Point {
    pub x: i64,
    pub y: i64,
}

/// An axis-aligned box: its center and half of its width and of its height.
#[derive(Clone, Copy, Debug, PartialEq, Eq, Structural)]
pub struct Aabb {
    pub center: Point,
    pub half_width: i64,
    pub half_height: i64,
}

/// The side of the second box on which the first one lies when both overlap.
/// `Inside` stands for an overlap that singles out no side.
#[derive(Clone, Copy, Debug, PartialEq, Eq, Structural)]
pub enum Collision {
    Left,
    Right,
    Top,
    Bottom,
    Inside,
}

impl Aabb {
    pub open spec fn min_x(self) -> int {
        self.center.x - self.half_width
    }

    pub open spec fn max_x(self) -> int {
        self.center.x + self.half_width
    }

    pub open spec fn min_y(self) -> int {
        self.center.y - self.half_height
    }

    pub open spec fn max_y(self) -> int {
        self.center.y + self.half_height
    }

    /// The interiors of the two boxes meet. Boxes that only touch do not overlap.
    pub open spec fn overlaps(self, other: Aabb) -> bool {
        &&& self.min_x() < other.max_x()
        &&& self.max_x() > other.min_x()
        &&& self.min_y() < other.max_y()
        &&& self.max_y() > other.min_y()
    }

    /// `self` sticks out of `other` on the left and ends inside it.
    pub open spec fn enters_from_left(self, other: Aabb) -> bool {
        self.min_x() < other.min_x() < self.max_x() < other.max_x()
    }

    /// `self` sticks out of `other` on the right and begins inside it.
    pub open spec fn enters_from_right(self, other: Aabb) -> bool {
        other.min_x() < self.min_x() < other.max_x() < self.max_x()
    }

    /// `self` sticks out of `other` below and ends inside it.
    pub open spec fn enters_from_below(self, other: Aabb) -> bool {
        self.min_y() < other.min_y() < self.max_y() < other.max_y()
    }

    /// `self` sticks out of `other` above and begins inside it.
    pub open spec fn enters_from_above(self, other: Aabb) -> bool {
        other.min_y() < self.min_y() < other.max_y() < self.max_y()
    }

    /// The side of `other` that `self` crosses horizontally, and how far it
    /// reaches in. `None` where it crosses neither side alone.
    pub open spec fn horizontal_hit(self, other: Aabb) -> Option<(Collision, int)> {
        if self.enters_from_left(other) {
            Some((Collision::Left, self.max_x() - other.min_x()))
        } else if self.enters_from_right(other) {
            Some((Collision::Right, other.max_x() - self.min_x()))
        } else {
            None
        }
    }

    /// The side of `other` that `self` crosses vertically, and how far it
    /// reaches in. `None` where it crosses neither side alone.
    pub open spec fn vertical_hit(self, other: Aabb) -> Option<(Collision, int)> {
        if self.enters_from_below(other) {
            Some((Collision::Bottom, self.max_y() - other.min_y()))
        } else if self.enters_from_above(other) {
            Some((Collision::Top, other.max_y() - self.min_y()))
        } else {
            None
        }
    }

    /// The side on which `self` hits `other`: of the horizontal and the
    /// vertical crossing the shallower one, the horizontal one where both
    /// are equally deep, and `Inside` where there is neither. `None` where
    /// the boxes do not overlap.
    pub open spec fn side_hit(self, other: Aabb) -> Option<Collision> {
        if !self.overlaps(other) {
            None
        } else {
            match (self.horizontal_hit(other), self.vertical_hit(other)) {
                (None, None) => Some(Collision::Inside),
                (Some((h, _)), None) => Some(h),
                (None, Some((v, _))) => Some(v),
                (Some((h, reach_h)), Some((v, reach_v))) => if reach_v < reach_h {
                    Some(v)
                } else {
                    Some(h)
                },
            }
        }
    }
}

/// Classifies the overlap of box `a` with box `b` by the side of `b` that `a` hit.
pub fn collide(a: &Aabb, b: &Aabb) -> (hit: Option<Collision>)
    ensures
        hit == a.side_hit(*b),
{
    let a_min_x: i128 = a.center.x as i128 - a.half_width as i128;
    let a_max_x: i128 = a.center.x as i128 + a.half_width as i128;
    let a_min_y: i128 = a.center.y as i128 - a.half_height as i128;
    let a_max_y: i128 = a.center.y as i128 + a.half_height as i128;
    let b_min_x: i128 = b.center.x as i128 - b.half_width as i128;
    let b_max_x: i128 = b.center.x as i128 + b.half_width as i128;
    let b_min_y: i128 = b.center.y as i128 - b.half_height as i128;
    let b_max_y: i128 = b.center.y as i128 + b.half_height as i128;

    if !(a_min_x < b_max_x && a_max_x > b_min_x && a_min_y < b_max_y && a_max_y > b_min_y) {
        return None;
    }
    let horizontal: Option<(Collision, i128)> = if a_min_x < b_min_x && a_max_x < b_max_x {
        Some((Collision::Left, a_max_x - b_min_x))
    } else if a_min_x > b_min_x && a_max_x > b_max_x {
        Some((Collision::Right, b_max_x - a_min_x))
    } else {
        None
    };
    let vertical: Option<(Collision, i128)> = if a_min_y < b_min_y && a_max_y < b_max_y {
        Some((Collision::Bottom, a_max_y - b_min_y))
    } else if a_min_y > b_min_y && a_max_y > b_max_y {
        Some((Collision::Top, b_max_y - a_min_y))
    } else {
        None
    };
    match (horizontal, vertical) {
        (None, None) => Some(Collision::Inside),
        (Some((h, _)), None) => Some(h),
        (None, Some((v, _))) => Some(v),
        (Some((h, reach_h)), Some((v, reach_v))) => if reach_v < reach_h {
            Some(v)
        } else {
            Some(h)
        },
    }
}

} // verus!
