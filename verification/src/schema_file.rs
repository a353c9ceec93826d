//! An early, reduced reading of a component block: only the `L` name line
//! and the `P` position line are decoded, and the block is accepted as soon
//! as the `$EndComp` sentinel is found. As everywhere, the stored position
//! negates the raw file Y coordinate: the cross-cutting screen-space
//! convention holds for this reduced reading too.

use vstd::prelude::*;
use vstd::string::StringSliceAdditionalSpecFns;

use crate::geometry::Point;
use crate::parsing::common::{
    sp_tag, sp_space1, sp_line_ending, sp_till_eol, sp_point, sp_token, find_from, p_lit,
    p_space1, p_line_ending, p_till_eol, p_point, p_token, p_find,
};

verus! {

/// A component instance as this reduced reading sees it: the library name,
/// the reference, and the position (file X, negated file Y).
#[derive(Debug, Clone, PartialEq)]
pub struct ComponentInstance {
    pub name: String,
    pub reference: String,
    pub position: Point,
}

pub ghost struct ComponentInstanceV {
    pub name: Seq<char>,
    pub reference: Seq<char>,
    pub position: Point,
}

impl View for ComponentInstance {
    type V = ComponentInstanceV;

    open spec fn view(&self) -> ComponentInstanceV {
        ComponentInstanceV {
            name: self.name@,
            reference: self.reference@,
            position: self.position,
        }
    }
}

/// The reduced component-block grammar: `$Comp`, the `L <name> <reference>`
/// line, the discarded `U` line, the `P <x> <y>` line (stored as (x, -y)),
/// then anything up to a `$EndComp` sentinel, which must be present but is
/// not consumed.
pub open spec fn sp_simple_component(s: Seq<u8>, i: int) -> Option<(int, ComponentInstanceV)> {
    match sp_tag(s, i, "$Comp".spec_bytes()) {
        Some(i1) => match sp_line_ending(s, i1) {
            Some(i2) => match sp_tag(s, i2, "L".spec_bytes()) {
                Some(i3) => match sp_space1(s, i3) {
                    Some(i4) => match sp_token(s, i4) {
                        Some((i5, name)) => match sp_space1(s, i5) {
                            Some(i6) => match sp_token(s, i6) {
                                Some((i7, reference)) => match sp_line_ending(s, i7) {
                                    Some(i8) => sp_simple_component_tail(s, i8, name, reference),
                                    None => None,
                                },
                                None => None,
                            },
                            None => None,
                        },
                        None => None,
                    },
                    None => None,
                },
                None => None,
            },
            None => None,
        },
        None => None,
    }
}

pub open spec fn sp_simple_component_tail(
    s: Seq<u8>,
    i: int,
    name: Seq<char>,
    reference: Seq<char>,
) -> Option<(int, ComponentInstanceV)> {
    match sp_tag(s, i, "U".spec_bytes()) {
        Some(i1) => match sp_till_eol(s, i1) {
            Some(i2) => match sp_line_ending(s, i2) {
                Some(i3) => match sp_tag(s, i3, "P".spec_bytes()) {
                    Some(i4) => match sp_space1(s, i4) {
                        Some(i5) => match sp_point(s, i5) {
                            Some((i6, (x, y))) => match sp_line_ending(s, i6) {
                                Some(i7) => match find_from(s, i7, "$EndComp".spec_bytes()) {
                                    Some(i8) => Some(
                                        (
                                            i8,
                                            ComponentInstanceV {
                                                name: name,
                                                reference: reference,
                                                position: Point {
                                                    x: x as isize,
                                                    y: (-y) as isize,
                                                },
                                            },
                                        ),
                                    ),
                                    None => None,
                                },
                                None => None,
                            },
                            None => None,
                        },
                        None => None,
                    },
                    None => None,
                },
                None => None,
            },
            None => None,
        },
        None => None,
    }
}

/// The reduced component-block parser.
pub fn component_instance(s: &[u8], i: usize) -> (r: Option<(usize, ComponentInstance)>)
    requires
        i <= s@.len(),
    ensures
        match r {
            Some((j, c)) => sp_simple_component(s@, i as int) matches Some((sj, sc)) && sj
                == j as int && sc == c@ && i <= j <= s@.len(),
            None => sp_simple_component(s@, i as int) is None,
        },
{
    let i1: usize = match p_lit(s, i, "$Comp") {
        Some(v) => v,
        None => {
            return None;
        },
    };
    let i2: usize = match p_line_ending(s, i1) {
        Some(v) => v,
        None => {
            return None;
        },
    };
    let i3: usize = match p_lit(s, i2, "L") {
        Some(v) => v,
        None => {
            return None;
        },
    };
    let i4: usize = match p_space1(s, i3) {
        Some(v) => v,
        None => {
            return None;
        },
    };
    let (i5, name): (usize, String) = match p_token(s, i4) {
        Some(v) => v,
        None => {
            return None;
        },
    };
    let i6: usize = match p_space1(s, i5) {
        Some(v) => v,
        None => {
            return None;
        },
    };
    let (i7, reference): (usize, String) = match p_token(s, i6) {
        Some(v) => v,
        None => {
            return None;
        },
    };
    let i8: usize = match p_line_ending(s, i7) {
        Some(v) => v,
        None => {
            return None;
        },
    };
    let i9: usize = match p_lit(s, i8, "U") {
        Some(v) => v,
        None => {
            return None;
        },
    };
    let i10: usize = match p_till_eol(s, i9) {
        Some(v) => v,
        None => {
            return None;
        },
    };
    let i11: usize = match p_line_ending(s, i10) {
        Some(v) => v,
        None => {
            return None;
        },
    };
    let i12: usize = match p_lit(s, i11, "P") {
        Some(v) => v,
        None => {
            return None;
        },
    };
    let i13: usize = match p_space1(s, i12) {
        Some(v) => v,
        None => {
            return None;
        },
    };
    let (i14, (x, y)): (usize, (i64, i64)) = match p_point(s, i13) {
        Some(v) => v,
        None => {
            return None;
        },
    };
    let i15: usize = match p_line_ending(s, i14) {
        Some(v) => v,
        None => {
            return None;
        },
    };
    let i16: usize = match p_find(s, i15, "$EndComp") {
        Some(v) => v,
        None => {
            return None;
        },
    };
    Some(
        (
            i16,
            ComponentInstance {
                name: name,
                reference: reference,
                position: Point { x: x as isize, y: (-y) as isize },
            },
        ),
    )
}

impl ComponentInstance {
    /// Decode one reduced component block from the start of `input`.
    pub fn parse(input: &[u8]) -> (r: Option<ComponentInstance>)
        ensures
            match r {
                Some(c) => sp_simple_component(input@, 0) matches Some((_, sc)) && sc == c@,
                None => sp_simple_component(input@, 0) is None,
            },
    {
        match component_instance(input, 0) {
            Some((_, c)) => Some(c),
            None => None,
        }
    }
}

} // verus!
