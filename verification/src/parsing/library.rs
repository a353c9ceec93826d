//! The component-library grammar: a library header line, then `DEF` ...
//! `ENDDEF` component blocks. Each block names the component and carries a
//! `DRAW` ... `ENDDRAW` section of graphic-element records: `S` rectangle,
//! `C` circle, `A` circular arc, `P` polygon, `X` pin, `T` text. A malformed
//! record aborts the parse of the whole file.
//!
//! As in the schematic grammar, every stored Y coordinate is the negation of
//! the raw file value, so library geometry is in screen space too.

use vstd::prelude::*;
use vstd::string::StringSliceAdditionalSpecFns;

use crate::geometry::{Point, GraphicElement, GraphicElementV, TextOrientation, PinOrientation};
use crate::component::{Component, ComponentV, elements_view, elem_wf, elems_wf};
use crate::parsing::common::{
    sp_tag, sp_space1, sp_line_ending, sp_till_eol, sp_till_consume, sp_int, sp_token, find_from,
    token_run_end, p_lit, p_space1, p_line_ending, p_till_eol, p_till_consume, p_int, p_token,
    p_find,
};

verus! {

/// `k` numbers, each preceded by whitespace.
pub open spec fn sp_fields(s: Seq<u8>, i: int, k: int) -> Option<(int, Seq<int>)>
    decreases k,
{
    if k <= 0 {
        Some((i, Seq::empty()))
    } else {
        match sp_space1(s, i) {
            Some(j) => match sp_int(s, j) {
                Some((l, v)) => match sp_fields(s, l, k - 1) {
                    Some((e, rest)) => Some((e, seq![v] + rest)),
                    None => None,
                },
                None => None,
            },
            None => None,
        }
    }
}

/// The view of a parsed number vector.
pub open spec fn ints_view(v: Seq<i64>) -> Seq<int> {
    Seq::new(v.len(), |m: int| v[m] as int)
}

pub fn p_fields(s: &[u8], i: usize, k: usize) -> (r: Option<(usize, Vec<i64>)>)
    requires
        i <= s@.len(),
    ensures
        match r {
            Some((j, vs)) => sp_fields(s@, i as int, k as int) matches Some((sj, svs)) && sj
                == j as int && svs == ints_view(vs@) && i <= j <= s@.len() && vs@.len() == k
                && forall|m: int| 0 <= m < vs@.len() ==> -1_000_000_000 <= #[trigger] vs@[m] <= 1_000_000_000,
            None => sp_fields(s@, i as int, k as int) is None,
        },
{
    let mut pos: usize = i;
    let mut out: Vec<i64> = Vec::new();
    let mut rem: usize = k;
    proof {
        assert(ints_view(out@) =~= Seq::<int>::empty());
    }
    loop
        invariant
            i <= pos <= s@.len(),
            out@.len() + rem == k,
            forall|m: int| 0 <= m < out@.len() ==> -1_000_000_000 <= #[trigger] out@[m] <= 1_000_000_000,
            ({
                match sp_fields(s@, pos as int, rem as int) {
                    Some((e, rest)) => sp_fields(s@, i as int, k as int) == Some(
                        (e, ints_view(out@) + rest),
                    ),
                    None => sp_fields(s@, i as int, k as int) is None,
                }
            }),
        decreases rem,
    {
        if rem == 0 {
            proof {
                assert(ints_view(out@) + Seq::<int>::empty() =~= ints_view(out@));
            }
            return Some((pos, out));
        }
        let j: usize = match p_space1(s, pos) {
            Some(v) => v,
            None => {
                return None;
            },
        };
        let (l, v): (usize, i64) = match p_int(s, j) {
            Some(v) => v,
            None => {
                return None;
            },
        };
        proof {
            let (e2, rest2) = sp_fields(s@, l as int, rem - 1).unwrap();
            assert(ints_view(out@.push(v)) =~= ints_view(out@).push(v as int));
            assert(ints_view(out@) + (seq![v as int] + rest2) =~= ints_view(out@.push(v)) + rest2);
        }
        out.push(v);
        pos = l;
        rem = rem - 1;
    }
}

/// A fill token: `f` or `F` fills the shape, anything else leaves it open.
pub open spec fn sp_fill(s: Seq<u8>, i: int) -> Option<(int, bool)> {
    match sp_token(s, i) {
        Some((j, _t)) => Some((j, i < s.len() && (s[i] == 'f' as u8 || s[i] == 'F' as u8))),
        None => None,
    }
}

fn p_fill(s: &[u8], i: usize) -> (r: Option<(usize, bool)>)
    requires
        i <= s@.len(),
    ensures
        match r {
            Some((j, v)) => sp_fill(s@, i as int) == Some((j as int, v)) && i <= j <= s@.len(),
            None => sp_fill(s@, i as int) is None,
        },
{
    match p_token(s, i) {
        Some((j, _t)) => {
            let filled: bool = i < s.len() && (s[i] == 'f' as u8 || s[i] == 'F' as u8);
            Some((j, filled))
        },
        None => None,
    }
}

/// `U`, `D`, `R` or `L`: the direction a pin points.
pub open spec fn sp_pin_orientation(s: Seq<u8>, i: int) -> Option<(int, PinOrientation)> {
    if 0 <= i && i < s.len() {
        if s[i] == 'U' as u8 {
            Some((i + 1, PinOrientation::Up))
        } else if s[i] == 'D' as u8 {
            Some((i + 1, PinOrientation::Down))
        } else if s[i] == 'R' as u8 {
            Some((i + 1, PinOrientation::Right))
        } else if s[i] == 'L' as u8 {
            Some((i + 1, PinOrientation::Left))
        } else {
            None
        }
    } else {
        None
    }
}

fn p_pin_orientation(s: &[u8], i: usize) -> (r: Option<(usize, PinOrientation)>)
    requires
        i <= s@.len(),
    ensures
        match r {
            Some((j, v)) => sp_pin_orientation(s@, i as int) == Some((j as int, v)) && i < j
                <= s@.len(),
            None => sp_pin_orientation(s@, i as int) is None,
        },
{
    if i < s.len() {
        let c: u8 = s[i];
        if c == 'U' as u8 {
            Some((i + 1, PinOrientation::Up))
        } else if c == 'D' as u8 {
            Some((i + 1, PinOrientation::Down))
        } else if c == 'R' as u8 {
            Some((i + 1, PinOrientation::Right))
        } else if c == 'L' as u8 {
            Some((i + 1, PinOrientation::Left))
        } else {
            None
        }
    } else {
        None
    }
}

/// The points of a polygon record: consecutive (x, y) pairs from the flat
/// number list, each stored with Y negated.
pub open spec fn poly_points(fs: Seq<int>) -> Seq<Point> {
    Seq::new(fs.len() / 2, |m: int| Point { x: fs[2 * m] as isize, y: (-fs[2 * m + 1]) as isize })
}

/// An `S` record: `S x1 y1 x2 y2 unit convert thickness fill`, a rectangle.
/// The thickness and fill fields are read and discarded.
pub open spec fn sp_rect_record(s: Seq<u8>, i: int) -> Option<(int, GraphicElementV)> {
    match sp_tag(s, i, "S".spec_bytes()) {
        Some(i1) => match sp_fields(s, i1, 7) {
            Some((i2, f)) => match sp_space1(s, i2) {
                Some(i3) => match sp_fill(s, i3) {
                    Some((i4, _fill)) => match sp_line_ending(s, i4) {
                        Some(i5) => if f[4] >= 0 && f[5] >= 0 {
                            Some(
                                (
                                    i5,
                                    GraphicElementV::Rectangle {
                                        start: Point { x: f[0] as isize, y: (-f[1]) as isize },
                                        end: Point { x: f[2] as isize, y: (-f[3]) as isize },
                                        unit: f[4],
                                        convert: f[5],
                                    },
                                ),
                            )
                        } else {
                            None
                        },
                        None => None,
                    },
                    None => None,
                },
                None => None,
            },
            None => None,
        },
        None => None,
    }
}

fn p_rect_record(s: &[u8], i: usize) -> (r: Option<(usize, GraphicElement)>)
    requires
        i <= s@.len(),
    ensures
        match r {
            Some((j, e)) => sp_rect_record(s@, i as int) matches Some((sj, se)) && sj == j as int
                && se == e@ && i < j <= s@.len(),
            None => sp_rect_record(s@, i as int) is None,
        },
{
    let i1: usize = match p_lit(s, i, "S") {
        Some(v) => v,
        None => {
            return None;
        },
    };
    let (i2, f): (usize, Vec<i64>) = match p_fields(s, i1, 7) {
        Some(v) => v,
        None => {
            return None;
        },
    };
    let i3: usize = match p_space1(s, i2) {
        Some(v) => v,
        None => {
            return None;
        },
    };
    let (i4, _fill): (usize, bool) = match p_fill(s, i3) {
        Some(v) => v,
        None => {
            return None;
        },
    };
    let i5: usize = match p_line_ending(s, i4) {
        Some(v) => v,
        None => {
            return None;
        },
    };
    if f[4] >= 0 && f[5] >= 0 {
        Some(
            (
                i5,
                GraphicElement::Rectangle {
                    start: Point { x: f[0] as isize, y: (-f[1]) as isize },
                    end: Point { x: f[2] as isize, y: (-f[3]) as isize },
                    unit: f[4] as usize,
                    convert: f[5] as usize,
                },
            ),
        )
    } else {
        None
    }
}

/// A `C` record: `C x y radius unit convert thickness fill`, a circle.
pub open spec fn sp_circle_record(s: Seq<u8>, i: int) -> Option<(int, GraphicElementV)> {
    match sp_tag(s, i, "C".spec_bytes()) {
        Some(i1) => match sp_fields(s, i1, 6) {
            Some((i2, f)) => match sp_space1(s, i2) {
                Some(i3) => match sp_fill(s, i3) {
                    Some((i4, fill)) => match sp_line_ending(s, i4) {
                        Some(i5) => if f[2] >= 0 && f[3] >= 0 && f[4] >= 0 && f[5] >= 0 {
                            Some(
                                (
                                    i5,
                                    GraphicElementV::Circle {
                                        center: Point { x: f[0] as isize, y: (-f[1]) as isize },
                                        radius: f[2],
                                        unit: f[3],
                                        convert: f[4],
                                        thickness: f[5],
                                        filled: fill,
                                    },
                                ),
                            )
                        } else {
                            None
                        },
                        None => None,
                    },
                    None => None,
                },
                None => None,
            },
            None => None,
        },
        None => None,
    }
}

fn p_circle_record(s: &[u8], i: usize) -> (r: Option<(usize, GraphicElement)>)
    requires
        i <= s@.len(),
    ensures
        match r {
            Some((j, e)) => sp_circle_record(s@, i as int) matches Some((sj, se)) && sj
                == j as int && se == e@ && i < j <= s@.len(),
            None => sp_circle_record(s@, i as int) is None,
        },
{
    let i1: usize = match p_lit(s, i, "C") {
        Some(v) => v,
        None => {
            return None;
        },
    };
    let (i2, f): (usize, Vec<i64>) = match p_fields(s, i1, 6) {
        Some(v) => v,
        None => {
            return None;
        },
    };
    let i3: usize = match p_space1(s, i2) {
        Some(v) => v,
        None => {
            return None;
        },
    };
    let (i4, fill): (usize, bool) = match p_fill(s, i3) {
        Some(v) => v,
        None => {
            return None;
        },
    };
    let i5: usize = match p_line_ending(s, i4) {
        Some(v) => v,
        None => {
            return None;
        },
    };
    if f[2] >= 0 && f[3] >= 0 && f[4] >= 0 && f[5] >= 0 {
        Some(
            (
                i5,
                GraphicElement::Circle {
                    center: Point { x: f[0] as isize, y: (-f[1]) as isize },
                    radius: f[2] as usize,
                    unit: f[3] as usize,
                    convert: f[4] as usize,
                    thickness: f[5] as usize,
                    filled: fill,
                },
            ),
        )
    } else {
        None
    }
}

/// An `A` record: `A x y radius start end unit convert thickness fill
/// x1 y1 x2 y2`, a circular arc with its endpoints; angles are in tenths of
/// a degree.
pub open spec fn sp_arc_record(s: Seq<u8>, i: int) -> Option<(int, GraphicElementV)> {
    match sp_tag(s, i, "A".spec_bytes()) {
        Some(i1) => match sp_fields(s, i1, 8) {
            Some((i2, f)) => match sp_space1(s, i2) {
                Some(i3) => match sp_fill(s, i3) {
                    Some((i4, fill)) => match sp_fields(s, i4, 4) {
                        Some((i5, g)) => match sp_line_ending(s, i5) {
                            Some(i6) => if f[2] >= 0 && f[5] >= 0 && f[6] >= 0 && f[7] >= 0 {
                                Some(
                                    (
                                        i6,
                                        GraphicElementV::CircleArc {
                                            center: Point { x: f[0] as isize, y: (-f[1]) as isize },
                                            radius: f[2],
                                            start_coord: Point {
                                                x: g[0] as isize,
                                                y: (-g[1]) as isize,
                                            },
                                            end_coord: Point {
                                                x: g[2] as isize,
                                                y: (-g[3]) as isize,
                                            },
                                            start_angle: f[3],
                                            end_angle: f[4],
                                            unit: f[5],
                                            convert: f[6],
                                            thickness: f[7],
                                            filled: fill,
                                        },
                                    ),
                                )
                            } else {
                                None
                            },
                            None => None,
                        },
                        None => None,
                    },
                    None => None,
                },
                None => None,
            },
            None => None,
        },
        None => None,
    }
}

fn p_arc_record(s: &[u8], i: usize) -> (r: Option<(usize, GraphicElement)>)
    requires
        i <= s@.len(),
    ensures
        match r {
            Some((j, e)) => sp_arc_record(s@, i as int) matches Some((sj, se)) && sj == j as int
                && se == e@ && i < j <= s@.len(),
            None => sp_arc_record(s@, i as int) is None,
        },
{
    let i1: usize = match p_lit(s, i, "A") {
        Some(v) => v,
        None => {
            return None;
        },
    };
    let (i2, f): (usize, Vec<i64>) = match p_fields(s, i1, 8) {
        Some(v) => v,
        None => {
            return None;
        },
    };
    let i3: usize = match p_space1(s, i2) {
        Some(v) => v,
        None => {
            return None;
        },
    };
    let (i4, fill): (usize, bool) = match p_fill(s, i3) {
        Some(v) => v,
        None => {
            return None;
        },
    };
    let (i5, g): (usize, Vec<i64>) = match p_fields(s, i4, 4) {
        Some(v) => v,
        None => {
            return None;
        },
    };
    let i6: usize = match p_line_ending(s, i5) {
        Some(v) => v,
        None => {
            return None;
        },
    };
    if f[2] >= 0 && f[5] >= 0 && f[6] >= 0 && f[7] >= 0 {
        Some(
            (
                i6,
                GraphicElement::CircleArc {
                    center: Point { x: f[0] as isize, y: (-f[1]) as isize },
                    radius: f[2] as usize,
                    start_coord: Point { x: g[0] as isize, y: (-g[1]) as isize },
                    end_coord: Point { x: g[2] as isize, y: (-g[3]) as isize },
                    start_angle: f[3] as isize,
                    end_angle: f[4] as isize,
                    unit: f[5] as usize,
                    convert: f[6] as usize,
                    thickness: f[7] as usize,
                    filled: fill,
                },
            ),
        )
    } else {
        None
    }
}

/// A `P` record: `P count unit convert thickness x1 y1 ... xn yn fill`, an
/// open polyline of `count` points.
pub open spec fn sp_poly_record(s: Seq<u8>, i: int) -> Option<(int, GraphicElementV)> {
    match sp_tag(s, i, "P".spec_bytes()) {
        Some(i1) => match sp_fields(s, i1, 4) {
            Some((i2, f)) => if 0 <= f[0] && f[1] >= 0 && f[2] >= 0 && f[3] >= 0 {
                match sp_fields(s, i2, 2 * f[0]) {
                    Some((i3, pts)) => match sp_space1(s, i3) {
                        Some(i4) => match sp_fill(s, i4) {
                            Some((i5, _fill)) => match sp_line_ending(s, i5) {
                                Some(i6) => Some(
                                    (
                                        i6,
                                        GraphicElementV::Polygon {
                                            points: poly_points(pts),
                                            unit: f[1],
                                            convert: f[2],
                                            thickness: f[3],
                                        },
                                    ),
                                ),
                                None => None,
                            },
                            None => None,
                        },
                        None => None,
                    },
                    None => None,
                }
            } else {
                None
            },
            None => None,
        },
        None => None,
    }
}

fn p_poly_record(s: &[u8], i: usize) -> (r: Option<(usize, GraphicElement)>)
    requires
        i <= s@.len(),
    ensures
        match r {
            Some((j, e)) => sp_poly_record(s@, i as int) matches Some((sj, se)) && sj == j as int
                && se == e@ && i < j <= s@.len(),
            None => sp_poly_record(s@, i as int) is None,
        },
{
    let i1: usize = match p_lit(s, i, "P") {
        Some(v) => v,
        None => {
            return None;
        },
    };
    let (i2, f): (usize, Vec<i64>) = match p_fields(s, i1, 4) {
        Some(v) => v,
        None => {
            return None;
        },
    };
    if !(f[0] >= 0 && f[1] >= 0 && f[2] >= 0 && f[3] >= 0) {
        return None;
    }
    let count: usize = f[0] as usize;
    let (i3, flat): (usize, Vec<i64>) = match p_fields(s, i2, 2 * count) {
        Some(v) => v,
        None => {
            return None;
        },
    };
    let i4: usize = match p_space1(s, i3) {
        Some(v) => v,
        None => {
            return None;
        },
    };
    let (i5, _fill): (usize, bool) = match p_fill(s, i4) {
        Some(v) => v,
        None => {
            return None;
        },
    };
    let i6: usize = match p_line_ending(s, i5) {
        Some(v) => v,
        None => {
            return None;
        },
    };
    let mut points: Vec<Point> = Vec::new();
    let mut m: usize = 0;
    while m < count
        invariant
            0 <= m <= count,
            count <= 1_000_000_000,
            flat@.len() == 2 * count,
            forall|q: int| 0 <= q < flat@.len() ==> -1_000_000_000 <= #[trigger] flat@[q] <= 1_000_000_000,
            points@.len() == m,
            forall|q: int|
                0 <= q < m ==> points@[q] == (Point {
                    x: flat@[2 * q] as isize,
                    y: (-flat@[2 * q + 1]) as isize,
                }),
        decreases count - m,
    {
        let x: i64 = flat[2 * m];
        let y: i64 = flat[2 * m + 1];
        points.push(Point { x: x as isize, y: (-y) as isize });
        m = m + 1;
    }
    proof {
        assert(points@ =~= poly_points(ints_view(flat@)));
    }
    Some(
        (
            i6,
            GraphicElement::Polygon {
                points: points,
                unit: f[1] as usize,
                convert: f[2] as usize,
                thickness: f[3] as usize,
            },
        ),
    )
}

/// An `X` record: `X name number x y length orient numsize namesize unit
/// convert type [shape]`, a pin. A name of `~` means the pin is unnamed; a
/// shape token starting with `N` marks the pin invisible.
pub open spec fn sp_pin_record(s: Seq<u8>, i: int) -> Option<(int, GraphicElementV)> {
    match sp_tag(s, i, "X".spec_bytes()) {
        Some(i1) => match sp_space1(s, i1) {
            Some(i2) => match sp_token(s, i2) {
                Some((i3, name)) => match sp_fields(s, i3, 4) {
                    Some((i4, f)) => match sp_space1(s, i4) {
                        Some(i5) => match sp_pin_orientation(s, i5) {
                            Some((i6, orient)) => match sp_fields(s, i6, 4) {
                                Some((i7, g)) => match sp_space1(s, i7) {
                                    Some(i8) => match sp_token(s, i8) {
                                        Some((i9, _etype)) => sp_pin_tail(
                                            s,
                                            i9,
                                            name,
                                            token_run_end(s, i2) == i2 + 1 && s[i2] == '~' as u8,
                                            f,
                                            orient,
                                            g,
                                        ),
                                        None => None,
                                    },
                                    None => None,
                                },
                                None => None,
                            },
                            None => None,
                        },
                        None => None,
                    },
                    None => None,
                },
                None => None,
            },
            None => None,
        },
        None => None,
    }
}

/// The optional shape token of a pin record, then the line ending.
pub open spec fn sp_pin_tail(
    s: Seq<u8>,
    i: int,
    name: Seq<char>,
    unnamed: bool,
    f: Seq<int>,
    orient: PinOrientation,
    g: Seq<int>,
) -> Option<(int, GraphicElementV)> {
    let shaped = match sp_space1(s, i) {
        Some(j) => match sp_token(s, j) {
            Some((k, _shape)) => Some((k, j < s.len() && s[j] == 'N' as u8)),
            None => None,
        },
        None => match sp_line_ending(s, i) {
            Some(_) => Some((i, false)),
            None => None,
        },
    };
    match shaped {
        Some((k, invisible)) => match sp_line_ending(s, k) {
            Some(e) => if f[0] >= 0 && f[3] >= 0 && g[0] >= 0 && g[1] >= 0 {
                Some(
                    (
                        e,
                        GraphicElementV::Pin {
                            orientation: orient,
                            name: if unnamed {
                                None
                            } else {
                                Some(name)
                            },
                            number: f[0],
                            position: Point { x: f[1] as isize, y: (-f[2]) as isize },
                            length: f[3],
                            number_size: g[0],
                            name_size: g[1],
                            invisible: invisible,
                        },
                    ),
                )
            } else {
                None
            },
            None => None,
        },
        None => None,
    }
}

fn p_pin_record(s: &[u8], i: usize) -> (r: Option<(usize, GraphicElement)>)
    requires
        i <= s@.len(),
    ensures
        match r {
            Some((j, e)) => sp_pin_record(s@, i as int) matches Some((sj, se)) && sj == j as int
                && se == e@ && i < j <= s@.len(),
            None => sp_pin_record(s@, i as int) is None,
        },
{
    let i1: usize = match p_lit(s, i, "X") {
        Some(v) => v,
        None => {
            return None;
        },
    };
    let i2: usize = match p_space1(s, i1) {
        Some(v) => v,
        None => {
            return None;
        },
    };
    let (i3, name): (usize, String) = match p_token(s, i2) {
        Some(v) => v,
        None => {
            return None;
        },
    };
    let unnamed: bool = i3 - i2 == 1 && s[i2] == '~' as u8;
    let (i4, f): (usize, Vec<i64>) = match p_fields(s, i3, 4) {
        Some(v) => v,
        None => {
            return None;
        },
    };
    let i5: usize = match p_space1(s, i4) {
        Some(v) => v,
        None => {
            return None;
        },
    };
    let (i6, orient): (usize, PinOrientation) = match p_pin_orientation(s, i5) {
        Some(v) => v,
        None => {
            return None;
        },
    };
    let (i7, g): (usize, Vec<i64>) = match p_fields(s, i6, 4) {
        Some(v) => v,
        None => {
            return None;
        },
    };
    let i8: usize = match p_space1(s, i7) {
        Some(v) => v,
        None => {
            return None;
        },
    };
    let (i9, _etype): (usize, String) = match p_token(s, i8) {
        Some(v) => v,
        None => {
            return None;
        },
    };
    let (i10, invisible): (usize, bool) = match p_space1(s, i9) {
        Some(j) => match p_token(s, j) {
            Some((k, _shape)) => (k, j < s.len() && s[j] == 'N' as u8),
            None => {
                return None;
            },
        },
        None => match p_line_ending(s, i9) {
            Some(_) => (i9, false),
            None => {
                return None;
            },
        },
    };
    let i11: usize = match p_line_ending(s, i10) {
        Some(v) => v,
        None => {
            return None;
        },
    };
    if f[0] >= 0 && f[3] >= 0 && g[0] >= 0 && g[1] >= 0 {
        Some(
            (
                i11,
                GraphicElement::Pin {
                    orientation: orient,
                    name: if unnamed {
                        None
                    } else {
                        Some(name)
                    },
                    number: f[0] as usize,
                    position: Point { x: f[1] as isize, y: (-f[2]) as isize },
                    length: f[3] as usize,
                    number_size: g[0] as usize,
                    name_size: g[1] as usize,
                    invisible: invisible,
                },
            ),
        )
    } else {
        None
    }
}

/// A `T` record: `T angle x y size hidden unit convert text`. An angle of
/// 900 tenths of a degree lays the text out vertically.
pub open spec fn sp_text_record(s: Seq<u8>, i: int) -> Option<(int, GraphicElementV)> {
    match sp_tag(s, i, "T".spec_bytes()) {
        Some(i1) => match sp_fields(s, i1, 7) {
            Some((i2, f)) => match sp_space1(s, i2) {
                Some(i3) => match sp_token(s, i3) {
                    Some((i4, content)) => match sp_line_ending(s, i4) {
                        Some(i5) => if f[5] >= 0 && f[6] >= 0 {
                            Some(
                                (
                                    i5,
                                    GraphicElementV::TextField {
                                        content: content,
                                        orientation: if f[0] == 900 {
                                            TextOrientation::Vertical
                                        } else {
                                            TextOrientation::Horizontal
                                        },
                                        position: Point { x: f[1] as isize, y: (-f[2]) as isize },
                                        unit: f[5],
                                        convert: f[6],
                                    },
                                ),
                            )
                        } else {
                            None
                        },
                        None => None,
                    },
                    None => None,
                },
                None => None,
            },
            None => None,
        },
        None => None,
    }
}

fn p_text_record(s: &[u8], i: usize) -> (r: Option<(usize, GraphicElement)>)
    requires
        i <= s@.len(),
    ensures
        match r {
            Some((j, e)) => sp_text_record(s@, i as int) matches Some((sj, se)) && sj == j as int
                && se == e@ && i < j <= s@.len(),
            None => sp_text_record(s@, i as int) is None,
        },
{
    let i1: usize = match p_lit(s, i, "T") {
        Some(v) => v,
        None => {
            return None;
        },
    };
    let (i2, f): (usize, Vec<i64>) = match p_fields(s, i1, 7) {
        Some(v) => v,
        None => {
            return None;
        },
    };
    let i3: usize = match p_space1(s, i2) {
        Some(v) => v,
        None => {
            return None;
        },
    };
    let (i4, content): (usize, String) = match p_token(s, i3) {
        Some(v) => v,
        None => {
            return None;
        },
    };
    let i5: usize = match p_line_ending(s, i4) {
        Some(v) => v,
        None => {
            return None;
        },
    };
    if f[5] >= 0 && f[6] >= 0 {
        let orientation: TextOrientation = if f[0] == 900 {
            TextOrientation::Vertical
        } else {
            TextOrientation::Horizontal
        };
        Some(
            (
                i5,
                GraphicElement::TextField {
                    content: content,
                    orientation: orientation,
                    position: Point { x: f[1] as isize, y: (-f[2]) as isize },
                    unit: f[5] as usize,
                    convert: f[6] as usize,
                },
            ),
        )
    } else {
        None
    }
}

/// One graphic-element record, selected by its leading letter.
pub open spec fn sp_draw_record(s: Seq<u8>, i: int) -> Option<(int, GraphicElementV)> {
    match sp_rect_record(s, i) {
        Some(r) => Some(r),
        None => match sp_circle_record(s, i) {
            Some(r) => Some(r),
            None => match sp_arc_record(s, i) {
                Some(r) => Some(r),
                None => match sp_poly_record(s, i) {
                    Some(r) => Some(r),
                    None => match sp_pin_record(s, i) {
                        Some(r) => Some(r),
                        None => match sp_text_record(s, i) {
                            Some(r) => Some(r),
                            None => None,
                        },
                    },
                },
            },
        },
    }
}

fn p_draw_record(s: &[u8], i: usize) -> (r: Option<(usize, GraphicElement)>)
    requires
        i <= s@.len(),
    ensures
        match r {
            Some((j, e)) => sp_draw_record(s@, i as int) matches Some((sj, se)) && sj == j as int
                && se == e@ && i < j <= s@.len(),
            None => sp_draw_record(s@, i as int) is None,
        },
{
    match p_rect_record(s, i) {
        Some(v) => {
            return Some(v);
        },
        None => {},
    }
    match p_circle_record(s, i) {
        Some(v) => {
            return Some(v);
        },
        None => {},
    }
    match p_arc_record(s, i) {
        Some(v) => {
            return Some(v);
        },
        None => {},
    }
    match p_poly_record(s, i) {
        Some(v) => {
            return Some(v);
        },
        None => {},
    }
    match p_pin_record(s, i) {
        Some(v) => {
            return Some(v);
        },
        None => {},
    }
    match p_text_record(s, i) {
        Some(v) => {
            return Some(v);
        },
        None => {},
    }
    None
}

/// The records of a `DRAW` section, up to and including the `ENDDRAW` tag.
pub open spec fn sp_draw_list(s: Seq<u8>, i: int) -> Option<(int, Seq<GraphicElementV>)>
    decreases s.len() - i when 0 <= i <= s.len()
{
    match sp_tag(s, i, "ENDDRAW".spec_bytes()) {
        Some(j) => Some((j, Seq::empty())),
        None => match sp_draw_record(s, i) {
            Some((j, e)) => if i < j <= s.len() {
                match sp_draw_list(s, j) {
                    Some((k, rest)) => Some((k, seq![e] + rest)),
                    None => None,
                }
            } else {
                None
            },
            None => None,
        },
    }
}

fn p_draw_list(s: &[u8], i: usize) -> (r: Option<(usize, Vec<GraphicElement>)>)
    requires
        i <= s@.len(),
    ensures
        match r {
            Some((j, es)) => sp_draw_list(s@, i as int) matches Some((sj, ses)) && sj == j as int
                && ses == elements_view(es@) && i <= j <= s@.len(),
            None => sp_draw_list(s@, i as int) is None,
        },
{
    let mut pos: usize = i;
    let mut out: Vec<GraphicElement> = Vec::new();
    proof {
        assert(elements_view(out@) =~= Seq::<GraphicElementV>::empty());
    }
    loop
        invariant
            i <= pos <= s@.len(),
            ({
                match sp_draw_list(s@, pos as int) {
                    Some((k, rest)) => sp_draw_list(s@, i as int) == Some(
                        (k, elements_view(out@) + rest),
                    ),
                    None => sp_draw_list(s@, i as int) is None,
                }
            }),
        decreases s@.len() - pos,
    {
        match p_lit(s, pos, "ENDDRAW") {
            Some(j) => {
                proof {
                    assert(elements_view(out@) + Seq::<GraphicElementV>::empty() =~= elements_view(
                        out@,
                    ));
                }
                return Some((j, out));
            },
            None => {},
        }
        match p_draw_record(s, pos) {
            Some((j, e)) => {
                proof {
                    match sp_draw_list(s@, j as int) {
                        Some((k2, rest2)) => {
                            assert(elements_view(out@.push(e)) =~= elements_view(out@).push(e@));
                            assert(elements_view(out@) + (seq![e@] + rest2) =~= elements_view(
                                out@.push(e),
                            ) + rest2);
                        },
                        None => {},
                    }
                }
                out.push(e);
                pos = j;
            },
            None => {
                return None;
            },
        }
    }
}

/// A component block: `DEF <name> ...` through `ENDDEF`, with the elements
/// of its `DRAW` section.
pub open spec fn sp_lib_component(s: Seq<u8>, i: int) -> Option<(int, ComponentV)> {
    match sp_tag(s, i, "DEF".spec_bytes()) {
        Some(i1) => match sp_space1(s, i1) {
            Some(i2) => match sp_token(s, i2) {
                Some((i3, name)) => match sp_till_consume(s, i3, "DRAW".spec_bytes()) {
                    Some(i4) => match sp_line_ending(s, i4) {
                        Some(i5) => match sp_draw_list(s, i5) {
                            Some((i6, elements)) => match sp_till_consume(
                                s,
                                i6,
                                "ENDDEF".spec_bytes(),
                            ) {
                                Some(i7) => Some((i7, ComponentV { name, elements })),
                                None => None,
                            },
                            None => None,
                        },
                        None => None,
                    },
                    None => None,
                },
                None => None,
            },
            None => None,
        },
        None => None,
    }
}

fn p_lib_component(s: &[u8], i: usize) -> (r: Option<(usize, Component)>)
    requires
        i <= s@.len(),
    ensures
        match r {
            Some((j, c)) => sp_lib_component(s@, i as int) matches Some((sj, sc)) && sj
                == j as int && sc == c@ && i <= j <= s@.len(),
            None => sp_lib_component(s@, i as int) is None,
        },
{
    let i1: usize = match p_lit(s, i, "DEF") {
        Some(v) => v,
        None => {
            return None;
        },
    };
    let i2: usize = match p_space1(s, i1) {
        Some(v) => v,
        None => {
            return None;
        },
    };
    let (i3, name): (usize, String) = match p_token(s, i2) {
        Some(v) => v,
        None => {
            return None;
        },
    };
    let i4: usize = match p_till_consume(s, i3, "DRAW") {
        Some(v) => v,
        None => {
            return None;
        },
    };
    let i5: usize = match p_line_ending(s, i4) {
        Some(v) => v,
        None => {
            return None;
        },
    };
    let (i6, elements): (usize, Vec<GraphicElement>) = match p_draw_list(s, i5) {
        Some(v) => v,
        None => {
            return None;
        },
    };
    let i7: usize = match p_till_consume(s, i6, "ENDDEF") {
        Some(v) => v,
        None => {
            return None;
        },
    };
    Some((i7, Component { name, elements }))
}

/// The view of a component vector.
pub open spec fn components_view(v: Seq<Component>) -> Seq<ComponentV> {
    Seq::new(v.len(), |m: int| v[m]@)
}

/// All component blocks of a library file, from the first `DEF` onward.
/// Text between blocks is skipped; a block that does not match aborts the
/// whole parse.
pub open spec fn sp_lib_components(s: Seq<u8>, i: int) -> Option<Seq<ComponentV>>
    decreases s.len() - i when 0 <= i <= s.len()
{
    match find_from(s, i, "DEF ".spec_bytes()) {
        None => Some(Seq::empty()),
        Some(d) => if i <= d <= s.len() {
            match sp_lib_component(s, d) {
                Some((j, c)) => if d < j <= s.len() {
                    match sp_lib_components(s, j) {
                        Some(rest) => Some(seq![c] + rest),
                        None => None,
                    }
                } else {
                    None
                },
                None => None,
            }
        } else {
            None
        },
    }
}

/// A whole library file: the `EESchema-LIBRARY` header line, then component
/// blocks.
pub open spec fn sp_lib_file(s: Seq<u8>) -> Option<Seq<ComponentV>> {
    match sp_tag(s, 0, "EESchema-LIBRARY".spec_bytes()) {
        Some(i1) => match sp_till_eol(s, i1) {
            Some(i2) => match sp_line_ending(s, i2) {
                Some(i3) => sp_lib_components(s, i3),
                None => None,
            },
            None => None,
        },
        None => None,
    }
}

/// Decode a whole component-library file. Returns the component definitions
/// in file order exactly when every block matches the grammar.
pub fn parse_components(input: &[u8]) -> (r: Option<Vec<Component>>)
    ensures
        match r {
            Some(cs) => sp_lib_file(input@) matches Some(scs) && scs == components_view(cs@),
            None => sp_lib_file(input@) is None,
        },
{
    let i1: usize = match p_lit(input, 0, "EESchema-LIBRARY") {
        Some(v) => v,
        None => {
            return None;
        },
    };
    let i2: usize = match p_till_eol(input, i1) {
        Some(v) => v,
        None => {
            return None;
        },
    };
    let i3: usize = match p_line_ending(input, i2) {
        Some(v) => v,
        None => {
            return None;
        },
    };
    let mut pos: usize = i3;
    let mut out: Vec<Component> = Vec::new();
    proof {
        assert(components_view(out@) =~= Seq::<ComponentV>::empty());
    }
    loop
        invariant
            pos <= input@.len(),
            ({
                match sp_lib_components(input@, pos as int) {
                    Some(rest) => sp_lib_components(input@, i3 as int) == Some(
                        components_view(out@) + rest,
                    ),
                    None => sp_lib_components(input@, i3 as int) is None,
                }
            }),
            sp_lib_file(input@) == sp_lib_components(input@, i3 as int),
        decreases input@.len() - pos,
    {
        let d: usize = match p_find(input, pos, "DEF ") {
            Some(v) => v,
            None => {
                proof {
                    assert(components_view(out@) + Seq::<ComponentV>::empty() =~= components_view(
                        out@,
                    ));
                }
                return Some(out);
            },
        };
        match p_lib_component(input, d) {
            Some((j, c)) => {
                if j <= d {
                    // A component block always ends past its `DEF` tag; the
                    // parser's bounds make this branch unreachable.
                    return None;
                }
                proof {
                    match sp_lib_components(input@, j as int) {
                        Some(rest2) => {
                            assert(components_view(out@.push(c)) =~= components_view(out@).push(
                                c@,
                            ));
                            assert(components_view(out@) + (seq![c@] + rest2) =~= components_view(
                                out@.push(c),
                            ) + rest2);
                        },
                        None => {},
                    }
                }
                out.push(c);
                pos = j;
            },
            None => {
                return None;
            },
        }
    }
}


/// Every component definition in the sequence has only bounded elements.
pub open spec fn all_components_wf(cs: Seq<ComponentV>) -> bool {
    forall|j: int| 0 <= j < cs.len() ==> elems_wf((#[trigger] cs[j]).elements)
}

proof fn lemma_fields_bounded(s: Seq<u8>, i: int, k: int)
    ensures
        sp_fields(s, i, k) matches Some((_, vs)) ==> vs.len() == (if k <= 0 {
            0
        } else {
            k
        }) && forall|m: int|
            0 <= m < vs.len() ==> -1_000_000_000 <= #[trigger] vs[m] <= 1_000_000_000,
    decreases k,
{
    if k > 0 {
        match sp_space1(s, i) {
            Some(j) => match sp_int(s, j) {
                Some((l, v)) => {
                    lemma_fields_bounded(s, l, k - 1);
                    match sp_fields(s, l, k - 1) {
                        Some((_, rest)) => {
                            let whole = seq![v] + rest;
                            assert(whole[0] == v);
                            assert(forall|m: int| 1 <= m < whole.len() ==> whole[m] == rest[m - 1]);
                        },
                        None => {},
                    }
                },
                None => {},
            },
            None => {},
        }
    }
}

proof fn lemma_rect_record_wf(s: Seq<u8>, i: int)
    ensures
        sp_rect_record(s, i) matches Some((_, e)) ==> elem_wf(e),
{
    if sp_rect_record(s, i) is Some {
        let i1 = sp_tag(s, i, "S".spec_bytes()).unwrap();
        lemma_fields_bounded(s, i1, 7);
        let (_i2, f) = sp_fields(s, i1, 7).unwrap();
        assert(-1_000_000_000 <= f[0] <= 1_000_000_000);
        assert(-1_000_000_000 <= f[1] <= 1_000_000_000);
        assert(-1_000_000_000 <= f[2] <= 1_000_000_000);
        assert(-1_000_000_000 <= f[3] <= 1_000_000_000);
    }
}

proof fn lemma_circle_record_wf(s: Seq<u8>, i: int)
    ensures
        sp_circle_record(s, i) matches Some((_, e)) ==> elem_wf(e),
{
    if sp_circle_record(s, i) is Some {
        let i1 = sp_tag(s, i, "C".spec_bytes()).unwrap();
        lemma_fields_bounded(s, i1, 6);
        let (_i2, f) = sp_fields(s, i1, 6).unwrap();
        assert(-1_000_000_000 <= f[0] <= 1_000_000_000);
        assert(-1_000_000_000 <= f[1] <= 1_000_000_000);
        assert(-1_000_000_000 <= f[2] <= 1_000_000_000);
        assert(-1_000_000_000 <= f[3] <= 1_000_000_000);
        assert(-1_000_000_000 <= f[4] <= 1_000_000_000);
        assert(-1_000_000_000 <= f[5] <= 1_000_000_000);
    }
}

proof fn lemma_arc_record_wf(s: Seq<u8>, i: int)
    ensures
        sp_arc_record(s, i) matches Some((_, e)) ==> elem_wf(e),
{
    if sp_arc_record(s, i) is Some {
        let i1 = sp_tag(s, i, "A".spec_bytes()).unwrap();
        lemma_fields_bounded(s, i1, 8);
        let (i2, f) = sp_fields(s, i1, 8).unwrap();
        let i3 = sp_space1(s, i2).unwrap();
        let (i4, _fill) = sp_fill(s, i3).unwrap();
        lemma_fields_bounded(s, i4, 4);
        let (_i5, g) = sp_fields(s, i4, 4).unwrap();
        assert(-1_000_000_000 <= f[0] <= 1_000_000_000);
        assert(-1_000_000_000 <= f[1] <= 1_000_000_000);
        assert(-1_000_000_000 <= f[2] <= 1_000_000_000);
        assert(-1_000_000_000 <= f[3] <= 1_000_000_000);
        assert(-1_000_000_000 <= f[4] <= 1_000_000_000);
        assert(-1_000_000_000 <= f[5] <= 1_000_000_000);
        assert(-1_000_000_000 <= f[6] <= 1_000_000_000);
        assert(-1_000_000_000 <= f[7] <= 1_000_000_000);
        assert(-1_000_000_000 <= g[0] <= 1_000_000_000);
        assert(-1_000_000_000 <= g[1] <= 1_000_000_000);
        assert(-1_000_000_000 <= g[2] <= 1_000_000_000);
        assert(-1_000_000_000 <= g[3] <= 1_000_000_000);
    }
}

proof fn lemma_poly_record_wf(s: Seq<u8>, i: int)
    ensures
        sp_poly_record(s, i) matches Some((_, e)) ==> elem_wf(e),
{
    if sp_poly_record(s, i) is Some {
        let i1 = sp_tag(s, i, "P".spec_bytes()).unwrap();
        lemma_fields_bounded(s, i1, 4);
        let (i2, f) = sp_fields(s, i1, 4).unwrap();
        lemma_fields_bounded(s, i2, 2 * f[0]);
        let (_, pts) = sp_fields(s, i2, 2 * f[0]).unwrap();
        assert(forall|m: int|
            0 <= m < poly_points(pts).len() ==> crate::component::point_ok(
                #[trigger] poly_points(pts)[m],
            ));
    }
}

proof fn lemma_pin_record_wf(s: Seq<u8>, i: int)
    ensures
        sp_pin_record(s, i) matches Some((_, e)) ==> elem_wf(e),
{
    if sp_pin_record(s, i) is Some {
        let i1 = sp_tag(s, i, "X".spec_bytes()).unwrap();
        let i2 = sp_space1(s, i1).unwrap();
        let (i3, _name) = sp_token(s, i2).unwrap();
        lemma_fields_bounded(s, i3, 4);
        let (i4, f) = sp_fields(s, i3, 4).unwrap();
        let i5 = sp_space1(s, i4).unwrap();
        let (i6, _orient) = sp_pin_orientation(s, i5).unwrap();
        lemma_fields_bounded(s, i6, 4);
        let (_i7, g) = sp_fields(s, i6, 4).unwrap();
        assert(-1_000_000_000 <= f[0] <= 1_000_000_000);
        assert(-1_000_000_000 <= f[1] <= 1_000_000_000);
        assert(-1_000_000_000 <= f[2] <= 1_000_000_000);
        assert(-1_000_000_000 <= f[3] <= 1_000_000_000);
        assert(-1_000_000_000 <= g[0] <= 1_000_000_000);
        assert(-1_000_000_000 <= g[1] <= 1_000_000_000);
    }
}

proof fn lemma_text_record_wf(s: Seq<u8>, i: int)
    ensures
        sp_text_record(s, i) matches Some((_, e)) ==> elem_wf(e),
{
    if sp_text_record(s, i) is Some {
        let i1 = sp_tag(s, i, "T".spec_bytes()).unwrap();
        lemma_fields_bounded(s, i1, 7);
        let (_i2, _f) = sp_fields(s, i1, 7).unwrap();
    }
}

proof fn lemma_record_wf(s: Seq<u8>, i: int)
    ensures
        sp_draw_record(s, i) matches Some((_, e)) ==> elem_wf(e),
{
    lemma_rect_record_wf(s, i);
    lemma_circle_record_wf(s, i);
    lemma_arc_record_wf(s, i);
    lemma_poly_record_wf(s, i);
    lemma_pin_record_wf(s, i);
    lemma_text_record_wf(s, i);
}

proof fn lemma_draw_list_wf(s: Seq<u8>, i: int)
    requires
        0 <= i <= s.len(),
    ensures
        sp_draw_list(s, i) matches Some((_, es)) ==> elems_wf(es),
    decreases s.len() - i,
{
    if sp_tag(s, i, "ENDDRAW".spec_bytes()) is None {
        match sp_draw_record(s, i) {
            Some((j, e)) => {
                if i < j <= s.len() {
                    lemma_record_wf(s, i);
                    lemma_draw_list_wf(s, j);
                    match sp_draw_list(s, j) {
                        Some((_, rest)) => {
                            let whole = seq![e] + rest;
                            assert(whole[0] == e);
                            assert(forall|m: int|
                                1 <= m < whole.len() ==> whole[m] == rest[m - 1]);
                        },
                        None => {},
                    }
                }
            },
            None => {},
        }
    }
}

proof fn lemma_lib_components_wf(s: Seq<u8>, i: int)
    requires
        0 <= i <= s.len(),
    ensures
        sp_lib_components(s, i) matches Some(cs) ==> all_components_wf(cs),
    decreases s.len() - i,
{
    match find_from(s, i, "DEF ".spec_bytes()) {
        None => {},
        Some(d) => {
            if i <= d <= s.len() {
                match sp_lib_component(s, d) {
                    Some((j, c)) => {
                        if d < j <= s.len() {
                            let i1 = sp_tag(s, d, "DEF".spec_bytes()).unwrap();
                            let i2 = sp_space1(s, i1).unwrap();
                            let (i3, _name) = sp_token(s, i2).unwrap();
                            let i4 = sp_till_consume(s, i3, "DRAW".spec_bytes()).unwrap();
                            let i5 = sp_line_ending(s, i4).unwrap();
                            assert(0 <= i5 <= s.len());
                            lemma_draw_list_wf(s, i5);
                            lemma_lib_components_wf(s, j);
                            match sp_lib_components(s, j) {
                                Some(rest) => {
                                    let whole = seq![c] + rest;
                                    assert(whole[0] == c);
                                    assert(forall|m: int|
                                        1 <= m < whole.len() ==> whole[m] == rest[m - 1]);
                                },
                                None => {},
                            }
                        }
                    },
                    None => {},
                }
            }
        },
    }
}

/// Every component definition a successful library parse yields has only
/// bounded elements, so box arithmetic on it is exact.
pub proof fn lemma_parsed_library_wf(s: Seq<u8>)
    ensures
        sp_lib_file(s) matches Some(cs) ==> all_components_wf(cs),
{
    if sp_lib_file(s) is Some {
        let i1 = sp_tag(s, 0, "EESchema-LIBRARY".spec_bytes()).unwrap();
        let i2 = sp_till_eol(s, i1).unwrap();
        let i3 = sp_line_ending(s, i2).unwrap();
        assert(0 <= i3 <= s.len());
        lemma_lib_components_wf(s, i3);
    }
}

} // verus!
