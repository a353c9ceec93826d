//! Geometry kernel: 2D points and vectors on the integer schematic grid,
//! axis-aligned bounding boxes, homogeneous rotation matrices, and the fixed
//! orientation tables for pin graphics.
//!
//! Coordinates are signed grid units. Every parsed Y coordinate is negated
//! relative to the raw file value before being stored, so all geometry here is
//! in screen space (Y grows downward).

use vstd::prelude::*;

verus! {

/// A point on the component-library coordinate grid.
#[derive(Debug, Clone, Copy, PartialEq, Eq, Structural)]
pub struct Point {
    pub x: isize,
    pub y: isize,
}

/// Text layout axis for field and pin labels.
#[derive(Debug, Clone, Copy, PartialEq, Eq, Structural)]
pub enum TextOrientation {
    Horizontal,
    Vertical,
}

/// Reserved classification of pin electrical roles; no role is modelled
/// yet.
#[derive(Debug, Clone, Copy, PartialEq, Eq, Structural)]
pub enum PinDescription {
    Unspecified,
}

/// The four directions a pin can point, in screen space.
#[derive(Debug, Clone, Copy, PartialEq, Eq, Structural)]
pub enum PinOrientation {
    Up,
    Down,
    Right,
    Left,
}

/// Text anchor side used when placing labels relative to a reference point.
#[derive(Debug, Clone, Copy, PartialEq, Eq, Structural)]
pub enum Justify {
    Left,
    Right,
    Center,
    Bottom,
    Top,
}

/// One graphic element of a library component definition.
#[derive(Debug, Clone, PartialEq)]
pub enum GraphicElement {
    Polygon {
        points: Vec<Point>,
        unit: usize,
        convert: usize,
        thickness: usize,
    },
    Rectangle {
        start: Point,
        end: Point,
        unit: usize,
        convert: usize,
    },
    Circle {
        center: Point,
        radius: usize,
        unit: usize,
        convert: usize,
        thickness: usize,
        filled: bool,
    },
    CircleArc {
        center: Point,
        radius: usize,
        start_coord: Point,
        end_coord: Point,
        start_angle: isize,
        end_angle: isize,
        unit: usize,
        convert: usize,
        thickness: usize,
        filled: bool,
    },
    TextField {
        content: String,
        orientation: TextOrientation,
        position: Point,
        unit: usize,
        convert: usize,
    },
    Pin {
        orientation: PinOrientation,
        name: Option<String>,
        number: usize,
        position: Point,
        length: usize,
        number_size: usize,
        name_size: usize,
        invisible: bool,
    },
}

pub ghost enum GraphicElementV {
    Polygon { points: Seq<Point>, unit: int, convert: int, thickness: int },
    Rectangle { start: Point, end: Point, unit: int, convert: int },
    Circle { center: Point, radius: int, unit: int, convert: int, thickness: int, filled: bool },
    CircleArc {
        center: Point,
        radius: int,
        start_coord: Point,
        end_coord: Point,
        start_angle: int,
        end_angle: int,
        unit: int,
        convert: int,
        thickness: int,
        filled: bool,
    },
    TextField {
        content: Seq<char>,
        orientation: TextOrientation,
        position: Point,
        unit: int,
        convert: int,
    },
    Pin {
        orientation: PinOrientation,
        name: Option<Seq<char>>,
        number: int,
        position: Point,
        length: int,
        number_size: int,
        name_size: int,
        invisible: bool,
    },
}

impl View for GraphicElement {
    type V = GraphicElementV;

    open spec fn view(&self) -> GraphicElementV {
        match self {
            GraphicElement::Polygon { points, unit, convert, thickness } => GraphicElementV::Polygon {
                points: points@,
                unit: *unit as int,
                convert: *convert as int,
                thickness: *thickness as int,
            },
            GraphicElement::Rectangle { start, end, unit, convert } => GraphicElementV::Rectangle {
                start: *start,
                end: *end,
                unit: *unit as int,
                convert: *convert as int,
            },
            GraphicElement::Circle { center, radius, unit, convert, thickness, filled } => GraphicElementV::Circle {
                center: *center,
                radius: *radius as int,
                unit: *unit as int,
                convert: *convert as int,
                thickness: *thickness as int,
                filled: *filled,
            },
            GraphicElement::CircleArc {
                center,
                radius,
                start_coord,
                end_coord,
                start_angle,
                end_angle,
                unit,
                convert,
                thickness,
                filled,
            } => GraphicElementV::CircleArc {
                center: *center,
                radius: *radius as int,
                start_coord: *start_coord,
                end_coord: *end_coord,
                start_angle: *start_angle as int,
                end_angle: *end_angle as int,
                unit: *unit as int,
                convert: *convert as int,
                thickness: *thickness as int,
                filled: *filled,
            },
            GraphicElement::TextField { content, orientation, position, unit, convert } => GraphicElementV::TextField {
                content: content@,
                orientation: *orientation,
                position: *position,
                unit: *unit as int,
                convert: *convert as int,
            },
            GraphicElement::Pin {
                orientation,
                name,
                number,
                position,
                length,
                number_size,
                name_size,
                invisible,
            } => GraphicElementV::Pin {
                orientation: *orientation,
                name: match name {
                    Some(n) => Some(n@),
                    None => None,
                },
                number: *number as int,
                position: *position,
                length: *length as int,
                number_size: *number_size as int,
                name_size: *name_size as int,
                invisible: *invisible,
            },
        }
    }
}

/// A point of the schematic plane, in screen space.
#[derive(Debug, Clone, Copy, PartialEq, Eq, Structural)]
pub struct Point2 {
    pub x: i64,
    pub y: i64,
}

/// A displacement of the schematic plane.
#[derive(Debug, Clone, Copy, PartialEq, Eq, Structural)]
pub struct Vector2 {
    pub x: i64,
    pub y: i64,
}

impl Point2 {
    pub fn new(x: i64, y: i64) -> (r: Point2)
        ensures
            r.x == x,
            r.y == y,
    {
        Point2 { x, y }
    }

    pub fn origin() -> (r: Point2)
        ensures
            r == (Point2 { x: 0, y: 0 }),
    {
        Point2 { x: 0, y: 0 }
    }
}

impl Vector2 {
    pub fn new(x: i64, y: i64) -> (r: Vector2)
        ensures
            r.x == x,
            r.y == y,
    {
        Vector2 { x, y }
    }
}

impl PinOrientation {
    /// The direction the pin points, as a unit vector in screen space.
    pub open spec fn spec_unit_vec(self) -> Vector2 {
        match self {
            PinOrientation::Up => Vector2 { x: 0, y: (-1) as i64 },
            PinOrientation::Down => Vector2 { x: 0, y: 1 },
            PinOrientation::Right => Vector2 { x: 1, y: 0 },
            PinOrientation::Left => Vector2 { x: (-1) as i64, y: 0 },
        }
    }

    pub fn unit_vec(&self) -> (r: Vector2)
        ensures
            r == self.spec_unit_vec(),
    {
        match self {
            PinOrientation::Up => Vector2 { x: 0, y: -1 },
            PinOrientation::Down => Vector2 { x: 0, y: 1 },
            PinOrientation::Right => Vector2 { x: 1, y: 0 },
            PinOrientation::Left => Vector2 { x: -1, y: 0 },
        }
    }

    /// Layout axis of the texts attached to a pin: vertical pins carry
    /// vertical text, horizontal pins horizontal text.
    pub open spec fn spec_text_orientation(self) -> TextOrientation {
        match self {
            PinOrientation::Up => TextOrientation::Vertical,
            PinOrientation::Down => TextOrientation::Vertical,
            PinOrientation::Right => TextOrientation::Horizontal,
            PinOrientation::Left => TextOrientation::Horizontal,
        }
    }

    pub fn text_orientation(&self) -> (r: TextOrientation)
        ensures
            r == self.spec_text_orientation(),
    {
        match self {
            PinOrientation::Up => TextOrientation::Vertical,
            PinOrientation::Down => TextOrientation::Vertical,
            PinOrientation::Right => TextOrientation::Horizontal,
            PinOrientation::Left => TextOrientation::Horizontal,
        }
    }

    /// Anchor side of the pin number, which sits at the outward end.
    pub open spec fn spec_number_justify(self) -> Justify {
        match self {
            PinOrientation::Up => Justify::Right,
            PinOrientation::Down => Justify::Left,
            PinOrientation::Right => Justify::Right,
            PinOrientation::Left => Justify::Left,
        }
    }

    pub fn number_justify(&self) -> (r: Justify)
        ensures
            r == self.spec_number_justify(),
    {
        match self {
            PinOrientation::Up => Justify::Right,
            PinOrientation::Down => Justify::Left,
            PinOrientation::Right => Justify::Right,
            PinOrientation::Left => Justify::Left,
        }
    }

    /// Anchor side of the pin name, which sits at the inward end: the
    /// complement of the number's side.
    pub open spec fn spec_name_justify(self) -> Justify {
        match self {
            PinOrientation::Up => Justify::Left,
            PinOrientation::Down => Justify::Right,
            PinOrientation::Right => Justify::Left,
            PinOrientation::Left => Justify::Right,
        }
    }

    pub fn name_justify(&self) -> (r: Justify)
        ensures
            r == self.spec_name_justify(),
    {
        match self {
            PinOrientation::Up => Justify::Left,
            PinOrientation::Down => Justify::Right,
            PinOrientation::Right => Justify::Left,
            PinOrientation::Left => Justify::Right,
        }
    }
}

/// An axis-aligned bounding box, as a min/max corner pair.
#[derive(Debug, Clone, Copy, PartialEq, Eq, Structural)]
pub struct AABB {
    pub min: Point2,
    pub max: Point2,
}

/// The componentwise union of two boxes.
pub open spec fn spec_merge(a: AABB, b: AABB) -> AABB {
    AABB {
        min: Point2 {
            x: if a.min.x <= b.min.x { a.min.x } else { b.min.x },
            y: if a.min.y <= b.min.y { a.min.y } else { b.min.y },
        },
        max: Point2 {
            x: if a.max.x >= b.max.x { a.max.x } else { b.max.x },
            y: if a.max.y >= b.max.y { a.max.y } else { b.max.y },
        },
    }
}

impl AABB {
    pub fn new(min: Point2, max: Point2) -> (r: AABB)
        ensures
            r.min == min,
            r.max == max,
    {
        AABB { min, max }
    }

    /// Grow this box to the union of itself and `other`: the componentwise
    /// min of the min corners and max of the max corners.
    pub fn merge(&mut self, other: &AABB)
        ensures
            *final(self) == spec_merge(*old(self), *other),
    {
        if other.min.x < self.min.x {
            self.min.x = other.min.x;
        }
        if other.min.y < self.min.y {
            self.min.y = other.min.y;
        }
        if other.max.x > self.max.x {
            self.max.x = other.max.x;
        }
        if other.max.y > self.max.y {
            self.max.y = other.max.y;
        }
    }

    /// Move both corners by `v`.
    pub fn translate(&self, v: Vector2) -> (r: AABB)
        requires
            i64::MIN <= self.min.x + v.x <= i64::MAX,
            i64::MIN <= self.min.y + v.y <= i64::MAX,
            i64::MIN <= self.max.x + v.x <= i64::MAX,
            i64::MIN <= self.max.y + v.y <= i64::MAX,
        ensures
            r.min.x == self.min.x + v.x,
            r.min.y == self.min.y + v.y,
            r.max.x == self.max.x + v.x,
            r.max.y == self.max.y + v.y,
    {
        AABB {
            min: Point2 { x: self.min.x + v.x, y: self.min.y + v.y },
            max: Point2 { x: self.max.x + v.x, y: self.max.y + v.y },
        }
    }
}

/// A 4x4 homogeneous transform over the schematic plane. Rotations accumulate
/// by matrix multiplication, never by replacement.
#[derive(Debug, Clone, Copy, PartialEq, Eq, Structural)]
pub struct Matrix4 {
    pub m00: i64, pub m01: i64, pub m02: i64, pub m03: i64,
    pub m10: i64, pub m11: i64, pub m12: i64, pub m13: i64,
    pub m20: i64, pub m21: i64, pub m22: i64, pub m23: i64,
    pub m30: i64, pub m31: i64, pub m32: i64, pub m33: i64,
}

/// Entry of `m` at row `r`, column `c`.
pub open spec fn mat_entry(m: Matrix4, r: int, c: int) -> int {
    if r == 0 {
        if c == 0 { m.m00 as int } else if c == 1 { m.m01 as int }
        else if c == 2 { m.m02 as int } else { m.m03 as int }
    } else if r == 1 {
        if c == 0 { m.m10 as int } else if c == 1 { m.m11 as int }
        else if c == 2 { m.m12 as int } else { m.m13 as int }
    } else if r == 2 {
        if c == 0 { m.m20 as int } else if c == 1 { m.m21 as int }
        else if c == 2 { m.m22 as int } else { m.m23 as int }
    } else {
        if c == 0 { m.m30 as int } else if c == 1 { m.m31 as int }
        else if c == 2 { m.m32 as int } else { m.m33 as int }
    }
}

/// Entry (`r`,`c`) of the matrix product `a * b`.
pub open spec fn mat_mul_entry(a: Matrix4, b: Matrix4, r: int, c: int) -> int {
    mat_entry(a, r, 0) * mat_entry(b, 0, c) + mat_entry(a, r, 1) * mat_entry(b, 1, c)
        + mat_entry(a, r, 2) * mat_entry(b, 2, c) + mat_entry(a, r, 3) * mat_entry(b, 3, c)
}

/// The quarter-turn (90 degree) rotation about the Z axis.
pub open spec fn spec_quarter_turn() -> Matrix4 {
    Matrix4 {
        m00: 0, m01: (-1) as i64, m02: 0, m03: 0,
        m10: 1, m11: 0, m12: 0, m13: 0,
        m20: 0, m21: 0, m22: 1, m23: 0,
        m30: 0, m31: 0, m32: 0, m33: 1,
    }
}

/// `m * spec_quarter_turn()`: the first column becomes the old second column,
/// the second column becomes the negated old first column, the rest is kept.
pub open spec fn spec_rotated90(m: Matrix4) -> Matrix4 {
    Matrix4 {
        m00: m.m01, m01: (0 - m.m00) as i64, m02: m.m02, m03: m.m03,
        m10: m.m11, m11: (0 - m.m10) as i64, m12: m.m12, m13: m.m13,
        m20: m.m21, m21: (0 - m.m20) as i64, m22: m.m22, m23: m.m23,
        m30: m.m31, m31: (0 - m.m30) as i64, m32: m.m32, m33: m.m33,
    }
}

/// No entry of the first two columns is `i64::MIN`, so negating them is exact.
pub open spec fn rotatable(m: Matrix4) -> bool {
    m.m00 != i64::MIN && m.m01 != i64::MIN && m.m10 != i64::MIN && m.m11 != i64::MIN
        && m.m20 != i64::MIN && m.m21 != i64::MIN && m.m30 != i64::MIN && m.m31 != i64::MIN
}

impl Matrix4 {
    pub fn identity() -> (r: Matrix4)
        ensures
            r == spec_mat_identity(),
    {
        Matrix4 {
            m00: 1, m01: 0, m02: 0, m03: 0,
            m10: 0, m11: 1, m12: 0, m13: 0,
            m20: 0, m21: 0, m22: 1, m23: 0,
            m30: 0, m31: 0, m32: 0, m33: 1,
        }
    }

    /// Compose this transform with a quarter turn: the result is the matrix
    /// product of `self` and the quarter-turn rotation.
    pub fn rotated90(&self) -> (r: Matrix4)
        requires
            rotatable(*self),
        ensures
            r == spec_rotated90(*self),
            forall|i: int, c: int|
                0 <= i < 4 && 0 <= c < 4 ==> mat_entry(r, i, c) == mat_mul_entry(
                    *self,
                    spec_quarter_turn(),
                    i,
                    c,
                ),
    {
        let r = Matrix4 {
            m00: self.m01, m01: -self.m00, m02: self.m02, m03: self.m03,
            m10: self.m11, m11: -self.m10, m12: self.m12, m13: self.m13,
            m20: self.m21, m21: -self.m20, m22: self.m22, m23: self.m23,
            m30: self.m31, m31: -self.m30, m32: self.m32, m33: self.m33,
        };
        proof {
            assert forall|i: int, c: int|
                0 <= i < 4 && 0 <= c < 4 implies mat_entry(r, i, c) == mat_mul_entry(
                *self,
                spec_quarter_turn(),
                i,
                c,
            ) by {
                let q = spec_quarter_turn();
                if c == 0 {
                    assert(mat_entry(q, 0, 0) == 0 && mat_entry(q, 1, 0) == 1);
                    assert(mat_entry(q, 2, 0) == 0 && mat_entry(q, 3, 0) == 0);
                    assert(mat_mul_entry(*self, q, i, c) == mat_entry(*self, i, 1));
                    assert(mat_entry(r, i, c) == mat_entry(*self, i, 1));
                } else if c == 1 {
                    assert(mat_entry(q, 0, 1) == -1 && mat_entry(q, 1, 1) == 0);
                    assert(mat_entry(q, 2, 1) == 0 && mat_entry(q, 3, 1) == 0);
                    assert(mat_mul_entry(*self, q, i, c) == -mat_entry(*self, i, 0));
                    assert(mat_entry(r, i, c) == -mat_entry(*self, i, 0));
                } else if c == 2 {
                    assert(mat_entry(q, 0, 2) == 0 && mat_entry(q, 1, 2) == 0);
                    assert(mat_entry(q, 2, 2) == 1 && mat_entry(q, 3, 2) == 0);
                    assert(mat_mul_entry(*self, q, i, c) == mat_entry(*self, i, 2));
                    assert(mat_entry(r, i, c) == mat_entry(*self, i, 2));
                } else {
                    assert(mat_entry(q, 0, 3) == 0 && mat_entry(q, 1, 3) == 0);
                    assert(mat_entry(q, 2, 3) == 0 && mat_entry(q, 3, 3) == 1);
                    assert(mat_mul_entry(*self, q, i, c) == mat_entry(*self, i, 3));
                    assert(mat_entry(r, i, c) == mat_entry(*self, i, 3));
                }
            }
        }
        r
    }
}

pub open spec fn spec_mat_identity() -> Matrix4 {
    Matrix4 {
        m00: 1, m01: 0, m02: 0, m03: 0,
        m10: 0, m11: 1, m12: 0, m13: 0,
        m20: 0, m21: 0, m22: 1, m23: 0,
        m30: 0, m31: 0, m32: 0, m33: 1,
    }
}

/// Rotating by a quarter turn four times returns a transform to its starting
/// value, and each step composes with (does not replace) the prior rotation.
pub proof fn lemma_four_quarter_turns(m: Matrix4)
    requires
        rotatable(m),
    ensures
        spec_rotated90(spec_rotated90(spec_rotated90(spec_rotated90(m)))) == m,
{
}

/// Box union is commutative.
pub proof fn lemma_merge_commutative(a: AABB, b: AABB)
    ensures
        spec_merge(a, b) == spec_merge(b, a),
{
}

/// Box union is associative.
pub proof fn lemma_merge_associative(a: AABB, b: AABB, c: AABB)
    ensures
        spec_merge(spec_merge(a, b), c) == spec_merge(a, spec_merge(b, c)),
{
}

} // verus!
