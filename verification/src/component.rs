//! Library components, their text fields, and placed component instances.

use vstd::prelude::*;

use crate::geometry::{
    Point2, Matrix4, TextOrientation, Justify, GraphicElement, GraphicElementV, AABB, spec_merge,
};
use crate::identity::Identity;

verus! {

/// The magnitude bound every parsed coordinate, radius, length and rotation
/// entry satisfies; geometry arithmetic is exact under it.
pub open spec fn coord_ok(v: int) -> bool {
    -1_000_000_000 <= v <= 1_000_000_000
}

pub open spec fn point_ok(p: crate::geometry::Point) -> bool {
    coord_ok(p.x as int) && coord_ok(p.y as int)
}

/// A labeled text attribute of a component instance: reference designator,
/// value, footprint or datasheet, with its placement and styling.
#[derive(Debug, Clone, PartialEq)]
pub struct Field {
    pub n: i64,
    pub text: String,
    pub position: Point2,
    pub dimension: u64,
    pub orientation: TextOrientation,
    pub visible: bool,
    pub hjustify: Justify,
    pub vjustify: Justify,
    pub italic: bool,
    pub bold: bool,
    pub name: Option<String>,
}

pub ghost struct FieldV {
    pub n: int,
    pub text: Seq<char>,
    pub position: Point2,
    pub dimension: int,
    pub orientation: TextOrientation,
    pub visible: bool,
    pub hjustify: Justify,
    pub vjustify: Justify,
    pub italic: bool,
    pub bold: bool,
    pub name: Option<Seq<char>>,
}

impl View for Field {
    type V = FieldV;

    open spec fn view(&self) -> FieldV {
        FieldV {
            n: self.n as int,
            text: self.text@,
            position: self.position,
            dimension: self.dimension as int,
            orientation: self.orientation,
            visible: self.visible,
            hjustify: self.hjustify,
            vjustify: self.vjustify,
            italic: self.italic,
            bold: self.bold,
            name: match self.name {
                Some(n) => Some(n@),
                None => None,
            },
        }
    }
}

/// A library component definition: a name and the ordered sequence of
/// graphic elements that draw it.
#[derive(Debug, Clone, PartialEq)]
pub struct Component {
    pub name: String,
    pub elements: Vec<GraphicElement>,
}

pub ghost struct ComponentV {
    pub name: Seq<char>,
    pub elements: Seq<crate::geometry::GraphicElementV>,
}

/// The view of a graphic-element vector.
pub open spec fn elements_view(v: Seq<GraphicElement>) -> Seq<crate::geometry::GraphicElementV> {
    Seq::new(v.len(), |i: int| v[i]@)
}

impl View for Component {
    type V = ComponentV;

    open spec fn view(&self) -> ComponentV {
        ComponentV { name: self.name@, elements: elements_view(self.elements@) }
    }
}

/// A placed instance of a library component. The parser creates instances
/// with the nil identity; the aggregate assigns a real identity exactly once,
/// at insertion.
#[derive(Debug, Clone, PartialEq)]
pub struct ComponentInstance {
    pub uuid: Identity,
    pub name: String,
    pub reference: String,
    pub position: Point2,
    pub rotation: Matrix4,
}

pub ghost struct ComponentInstanceV {
    pub uuid: Identity,
    pub name: Seq<char>,
    pub reference: Seq<char>,
    pub position: Point2,
    pub rotation: Matrix4,
}

impl View for ComponentInstance {
    type V = ComponentInstanceV;

    open spec fn view(&self) -> ComponentInstanceV {
        ComponentInstanceV {
            uuid: self.uuid,
            name: self.name@,
            reference: self.reference@,
            position: self.position,
            rotation: self.rotation,
        }
    }
}

/// A degenerate box at the origin: the unit of the bounding-box fold.
pub open spec fn origin_box() -> AABB {
    AABB { min: Point2 { x: 0, y: 0 }, max: Point2 { x: 0, y: 0 } }
}

/// The degenerate box at a single point.
pub open spec fn point_box(x: int, y: int) -> AABB {
    AABB { min: Point2 { x: x as i64, y: y as i64 }, max: Point2 { x: x as i64, y: y as i64 } }
}

/// Coordinates of a graphic element are bounded, so box arithmetic on it is
/// exact.
pub open spec fn elem_wf(e: GraphicElementV) -> bool {
    match e {
        GraphicElementV::Polygon { points, .. } => forall|i: int|
            0 <= i < points.len() ==> point_ok(#[trigger] points[i]),
        GraphicElementV::Rectangle { start, end, .. } => point_ok(start) && point_ok(end),
        GraphicElementV::Circle { center, radius, .. } => point_ok(center) && 0 <= radius
            && coord_ok(radius),
        GraphicElementV::CircleArc { center, radius, start_coord, end_coord, .. } => point_ok(
            center,
        ) && 0 <= radius && coord_ok(radius) && point_ok(start_coord) && point_ok(end_coord),
        GraphicElementV::TextField { position, .. } => point_ok(position),
        GraphicElementV::Pin { position, length, .. } => point_ok(position) && 0 <= length
            && coord_ok(length),
    }
}

/// Every element of the sequence is bounded.
pub open spec fn elems_wf(es: Seq<GraphicElementV>) -> bool {
    forall|i: int| 0 <= i < es.len() ==> elem_wf(#[trigger] es[i])
}

/// The box of a polyline: the union of its points' boxes, folded from the
/// origin box.
pub open spec fn poly_bbox(pts: Seq<crate::geometry::Point>) -> AABB
    decreases pts.len(),
{
    if pts.len() == 0 {
        origin_box()
    } else {
        spec_merge(poly_bbox(pts.drop_last()), point_box(pts.last().x as int, pts.last().y as int))
    }
}

/// The box of one graphic element. A circle or arc takes the full disc
/// around its center; a pin takes its anchor and its outward end; a text
/// takes its anchor point.
pub open spec fn elem_bbox(e: GraphicElementV) -> AABB {
    match e {
        GraphicElementV::Polygon { points, .. } => poly_bbox(points),
        GraphicElementV::Rectangle { start, end, .. } => spec_merge(
            point_box(start.x as int, start.y as int),
            point_box(end.x as int, end.y as int),
        ),
        GraphicElementV::Circle { center, radius, .. } => AABB {
            min: Point2 {
                x: (center.x - radius) as i64,
                y: (center.y - radius) as i64,
            },
            max: Point2 {
                x: (center.x + radius) as i64,
                y: (center.y + radius) as i64,
            },
        },
        GraphicElementV::CircleArc { center, radius, .. } => AABB {
            min: Point2 {
                x: (center.x - radius) as i64,
                y: (center.y - radius) as i64,
            },
            max: Point2 {
                x: (center.x + radius) as i64,
                y: (center.y + radius) as i64,
            },
        },
        GraphicElementV::TextField { position, .. } => point_box(
            position.x as int,
            position.y as int,
        ),
        GraphicElementV::Pin { position, length, orientation, .. } => {
            let v = orientation.spec_unit_vec();
            spec_merge(
                point_box(position.x as int, position.y as int),
                point_box(position.x + v.x * length, position.y + v.y * length),
            )
        },
    }
}

/// The box of a component's geometry: the union of its elements' boxes,
/// folded from the origin box (the component anchor is always included).
pub open spec fn comp_bbox(es: Seq<GraphicElementV>) -> AABB
    decreases es.len(),
{
    if es.len() == 0 {
        origin_box()
    } else {
        spec_merge(comp_bbox(es.drop_last()), elem_bbox(es.last()))
    }
}

/// Box corners within twice the coordinate bound: what the box fold
/// guarantees, and what makes the rotation transform exact.
pub open spec fn box_ok(b: AABB) -> bool {
    -2_000_000_000 <= b.min.x <= 2_000_000_000 && -2_000_000_000 <= b.min.y <= 2_000_000_000
        && -2_000_000_000 <= b.max.x <= 2_000_000_000 && -2_000_000_000 <= b.max.y
        <= 2_000_000_000
}

proof fn lemma_poly_bbox_ok(pts: Seq<crate::geometry::Point>)
    requires
        forall|i: int| 0 <= i < pts.len() ==> point_ok(#[trigger] pts[i]),
    ensures
        box_ok(poly_bbox(pts)),
    decreases pts.len(),
{
    if pts.len() > 0 {
        lemma_poly_bbox_ok(pts.drop_last());
    }
}

proof fn lemma_comp_bbox_ok(es: Seq<GraphicElementV>)
    requires
        elems_wf(es),
    ensures
        box_ok(comp_bbox(es)),
    decreases es.len(),
{
    if es.len() > 0 {
        assert(elems_wf(es.drop_last()));
        lemma_comp_bbox_ok(es.drop_last());
        let e = es.last();
        assert(elem_wf(e)) by {
            assert(es[es.len() - 1] == e);
        }
        match e {
            GraphicElementV::Polygon { points, .. } => {
                lemma_poly_bbox_ok(points);
            },
            GraphicElementV::Pin { orientation, position, length, .. } => {
                let v = orientation.spec_unit_vec();
                let vx: int = v.x as int;
                let vy: int = v.y as int;
                assert(-1 <= vx <= 1 && -1 <= vy <= 1) by {
                    match orientation {
                        crate::geometry::PinOrientation::Up => {},
                        crate::geometry::PinOrientation::Down => {},
                        crate::geometry::PinOrientation::Right => {},
                        crate::geometry::PinOrientation::Left => {},
                    }
                }
                assert(-length <= vx * length <= length && -length <= vy * length <= length)
                    by (nonlinear_arith)
                    requires
                        -1 <= vx <= 1,
                        -1 <= vy <= 1,
                        0 <= length,
                ;
                assert(box_ok(elem_bbox(e)));
            },
            _ => {},
        }
        assert(box_ok(elem_bbox(e)));
    }
}

fn point_to_box(p: &crate::geometry::Point) -> (r: AABB)
    ensures
        r == point_box(p.x as int, p.y as int),
{
    let x: i64 = p.x as i64;
    let y: i64 = p.y as i64;
    AABB { min: Point2 { x, y }, max: Point2 { x, y } }
}

/// The box of one graphic element.
fn element_bbox(e: &GraphicElement) -> (r: AABB)
    requires
        elem_wf(e@),
    ensures
        r == elem_bbox(e@),
{
    match e {
        GraphicElement::Polygon { points, .. } => {
            proof {
                assert(match e@ {
                    GraphicElementV::Polygon { points: pv, .. } => pv == points@,
                    _ => false,
                });
            }
            let mut bb: AABB = AABB {
                min: Point2 { x: 0, y: 0 },
                max: Point2 { x: 0, y: 0 },
            };
            let mut i: usize = 0;
            while i < points.len()
                invariant
                    0 <= i <= points@.len(),
                    forall|q: int| 0 <= q < points@.len() ==> point_ok(#[trigger] points@[q]),
                    bb == poly_bbox(points@.subrange(0, i as int)),
                decreases points@.len() - i,
            {
                let pb: AABB = point_to_box(&points[i]);
                bb.merge(&pb);
                proof {
                    assert(points@.subrange(0, i + 1).drop_last() =~= points@.subrange(
                        0,
                        i as int,
                    ));
                }
                i = i + 1;
            }
            proof {
                assert(points@.subrange(0, points@.len() as int) =~= points@);
            }
            bb
        },
        GraphicElement::Rectangle { start, end, .. } => {
            let mut bb: AABB = point_to_box(start);
            let eb: AABB = point_to_box(end);
            bb.merge(&eb);
            bb
        },
        GraphicElement::Circle { center, radius, .. } => {
            let cx: i64 = center.x as i64;
            let cy: i64 = center.y as i64;
            let r: i64 = *radius as i64;
            AABB {
                min: Point2 { x: cx - r, y: cy - r },
                max: Point2 { x: cx + r, y: cy + r },
            }
        },
        GraphicElement::CircleArc { center, radius, .. } => {
            let cx: i64 = center.x as i64;
            let cy: i64 = center.y as i64;
            let r: i64 = *radius as i64;
            AABB {
                min: Point2 { x: cx - r, y: cy - r },
                max: Point2 { x: cx + r, y: cy + r },
            }
        },
        GraphicElement::TextField { position, .. } => point_to_box(position),
        GraphicElement::Pin { position, length, orientation, .. } => {
            let px: i64 = position.x as i64;
            let py: i64 = position.y as i64;
            let len: i64 = *length as i64;
            let v = orientation.unit_vec();
            proof {
                let vx: int = v.x as int;
                let vy: int = v.y as int;
                let lv: int = len as int;
                assert((vx == 0 || vx == 1 || vx == -1) && (vy == 0 || vy == 1 || vy == -1)) by {
                    match orientation {
                        crate::geometry::PinOrientation::Up => {},
                        crate::geometry::PinOrientation::Down => {},
                        crate::geometry::PinOrientation::Right => {},
                        crate::geometry::PinOrientation::Left => {},
                    }
                }
                assert(vx * lv == (if vx == 1 { lv } else if vx == -1 { -lv } else { 0 }))
                    by (nonlinear_arith)
                    requires
                        vx == 0 || vx == 1 || vx == -1,
                ;
                assert(vy * lv == (if vy == 1 { lv } else if vy == -1 { -lv } else { 0 }))
                    by (nonlinear_arith)
                    requires
                        vy == 0 || vy == 1 || vy == -1,
                ;
            }
            let ex: i64 = if v.x == 1 {
                px + len
            } else if v.x == -1 {
                px - len
            } else {
                px
            };
            let ey: i64 = if v.y == 1 {
                py + len
            } else if v.y == -1 {
                py - len
            } else {
                py
            };
            let mut bb: AABB = AABB {
                min: Point2 { x: px, y: py },
                max: Point2 { x: px, y: py },
            };
            let eb: AABB = AABB {
                min: Point2 { x: ex, y: ey },
                max: Point2 { x: ex, y: ey },
            };
            bb.merge(&eb);
            bb
        },
    }
}

impl Component {
    /// The bounding box of this component's geometry, recomputed on demand
    /// from the elements; nothing is cached, so it can never go stale.
    pub fn get_boundingbox(&self) -> (r: AABB)
        requires
            elems_wf(self@.elements),
        ensures
            r == comp_bbox(self@.elements),
    {
        let mut bb: AABB = AABB { min: Point2 { x: 0, y: 0 }, max: Point2 { x: 0, y: 0 } };
        let mut i: usize = 0;
        while i < self.elements.len()
            invariant
                0 <= i <= self@.elements.len(),
                elems_wf(self@.elements),
                bb == comp_bbox(self@.elements.subrange(0, i as int)),
            decreases self@.elements.len() - i,
        {
            proof {
                assert(elem_wf(self@.elements[i as int]));
            }
            let eb: AABB = element_bbox(&self.elements[i]);
            bb.merge(&eb);
            proof {
                assert(self@.elements.subrange(0, i + 1).drop_last() =~= self@.elements.subrange(
                    0,
                    i as int,
                ));
                assert(self@.elements.subrange(0, i + 1).last() == self@.elements[i as int]);
            }
            i = i + 1;
        }
        proof {
            assert(self@.elements.subrange(0, self@.elements.len() as int) =~= self@.elements);
        }
        bb
    }
}

/// The first two columns of a transform are bounded, so negating them when
/// composing a quarter turn is exact.
pub open spec fn rot_wf(m: Matrix4) -> bool {
    coord_ok(m.m00 as int) && coord_ok(m.m01 as int) && coord_ok(m.m10 as int) && coord_ok(
        m.m11 as int,
    ) && coord_ok(m.m20 as int) && coord_ok(m.m21 as int) && coord_ok(m.m30 as int) && coord_ok(
        m.m31 as int,
    )
}

/// A placed instance with bounded position and rotation.
pub open spec fn instance_wf(i: ComponentInstanceV) -> bool {
    coord_ok(i.position.x as int) && coord_ok(i.position.y as int) && rot_wf(i.rotation)
}

/// X coordinate of a point under the 2x2 rotation block.
pub open spec fn tx_x(m: Matrix4, x: int, y: int) -> int {
    m.m00 * x + m.m01 * y
}

/// Y coordinate of a point under the 2x2 rotation block.
pub open spec fn tx_y(m: Matrix4, x: int, y: int) -> int {
    m.m10 * x + m.m11 * y
}

pub open spec fn imin(a: int, b: int) -> int {
    if a <= b {
        a
    } else {
        b
    }
}

pub open spec fn imax(a: int, b: int) -> int {
    if a >= b {
        a
    } else {
        b
    }
}

/// The bounding box of a placed instance: the component's box taken through
/// the instance's rotation (by transforming its four corners) and then
/// translated to the instance's position.
pub open spec fn instance_bbox(es: Seq<GraphicElementV>, inst: ComponentInstanceV) -> AABB {
    let b = comp_bbox(es);
    let m = inst.rotation;
    let x00 = tx_x(m, b.min.x as int, b.min.y as int);
    let x01 = tx_x(m, b.min.x as int, b.max.y as int);
    let x10 = tx_x(m, b.max.x as int, b.min.y as int);
    let x11 = tx_x(m, b.max.x as int, b.max.y as int);
    let y00 = tx_y(m, b.min.x as int, b.min.y as int);
    let y01 = tx_y(m, b.min.x as int, b.max.y as int);
    let y10 = tx_y(m, b.max.x as int, b.min.y as int);
    let y11 = tx_y(m, b.max.x as int, b.max.y as int);
    let px = inst.position.x as int;
    let py = inst.position.y as int;
    AABB {
        min: Point2 {
            x: (imin(imin(x00, x01), imin(x10, x11)) + px) as i64,
            y: (imin(imin(y00, y01), imin(y10, y11)) + py) as i64,
        },
        max: Point2 {
            x: (imax(imax(x00, x01), imax(x10, x11)) + px) as i64,
            y: (imax(imax(y00, y01), imax(y10, y11)) + py) as i64,
        },
    }
}

proof fn lemma_mul_bound(a: int, b: int, bound_a: int, bound_b: int)
    requires
        -bound_a <= a <= bound_a,
        -bound_b <= b <= bound_b,
        0 <= bound_a,
        0 <= bound_b,
    ensures
        -(bound_a * bound_b) <= a * b <= bound_a * bound_b,
{
    assert(-(bound_a * bound_b) <= a * b <= bound_a * bound_b) by (nonlinear_arith)
        requires
            -bound_a <= a <= bound_a,
            -bound_b <= b <= bound_b,
            0 <= bound_a,
            0 <= bound_b,
    ;
}

/// Transform one corner by the 2x2 rotation block.
fn tx_corner(m: &Matrix4, x: i64, y: i64) -> (r: (i64, i64))
    requires
        rot_wf(*m),
        -2_000_000_000 <= x <= 2_000_000_000,
        -2_000_000_000 <= y <= 2_000_000_000,
    ensures
        r.0 as int == tx_x(*m, x as int, y as int),
        r.1 as int == tx_y(*m, x as int, y as int),
        -4_000_000_000_000_000_000 <= r.0 <= 4_000_000_000_000_000_000,
        -4_000_000_000_000_000_000 <= r.1 <= 4_000_000_000_000_000_000,
{
    proof {
        lemma_mul_bound(m.m00 as int, x as int, 1_000_000_000, 2_000_000_000);
        lemma_mul_bound(m.m01 as int, y as int, 1_000_000_000, 2_000_000_000);
        lemma_mul_bound(m.m10 as int, x as int, 1_000_000_000, 2_000_000_000);
        lemma_mul_bound(m.m11 as int, y as int, 1_000_000_000, 2_000_000_000);
    }
    let rx: i64 = m.m00 * x + m.m01 * y;
    let ry: i64 = m.m10 * x + m.m11 * y;
    (rx, ry)
}

fn min2(a: i64, b: i64) -> (r: i64)
    ensures
        r as int == imin(a as int, b as int),
{
    if a <= b {
        a
    } else {
        b
    }
}

fn max2(a: i64, b: i64) -> (r: i64)
    ensures
        r as int == imax(a as int, b as int),
{
    if a >= b {
        a
    } else {
        b
    }
}

/// The full placement transform of an instance: its rotation with its
/// position in the translation column.
pub open spec fn spec_transform(c: ComponentInstanceV) -> Matrix4 {
    Matrix4 { m03: c.position.x, m13: c.position.y, ..c.rotation }
}

impl ComponentInstance {
    /// The bounding box of this instance: the referenced component's
    /// geometry under this instance's rotation, moved to its position. It is
    /// a pure function of the component geometry, the rotation and the
    /// position, recomputed on every call.
    pub fn get_boundingbox(&self, component: &Component) -> (r: AABB)
        requires
            instance_wf(self@),
            elems_wf(component@.elements),
        ensures
            r == instance_bbox(component@.elements, self@),
    {
        let b: AABB = component.get_boundingbox();
        proof {
            lemma_comp_bbox_ok(component@.elements);
        }
        let (x00, y00): (i64, i64) = tx_corner(&self.rotation, b.min.x, b.min.y);
        let (x01, y01): (i64, i64) = tx_corner(&self.rotation, b.min.x, b.max.y);
        let (x10, y10): (i64, i64) = tx_corner(&self.rotation, b.max.x, b.min.y);
        let (x11, y11): (i64, i64) = tx_corner(&self.rotation, b.max.x, b.max.y);
        let min_x: i64 = min2(min2(x00, x01), min2(x10, x11)) + self.position.x;
        let min_y: i64 = min2(min2(y00, y01), min2(y10, y11)) + self.position.y;
        let max_x: i64 = max2(max2(x00, x01), max2(x10, x11)) + self.position.x;
        let max_y: i64 = max2(max2(y00, y01), max2(y10, y11)) + self.position.y;
        AABB { min: Point2 { x: min_x, y: min_y }, max: Point2 { x: max_x, y: max_y } }
    }

    /// The full placement transform of this instance: its rotation with its
    /// position in the translation column.
    pub fn get_transform(&self) -> (r: Matrix4)
        ensures
            r == spec_transform(self@),
    {
        let mut m: Matrix4 = self.rotation;
        m.m03 = self.position.x;
        m.m13 = self.position.y;
        m
    }
}

} // verus!
