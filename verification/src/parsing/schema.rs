//! The schematic-file grammar: a version header, a description block closed
//! by `$EndDescr`, one or more entries (component instances, wire segments,
//! labels, junctions, notes, no-connection marks), and the `$EndSCHEMATC`
//! sentinel. Any mismatch anywhere aborts the parse of the whole file.
//!
//! Every parsed Y coordinate is negated relative to the raw file value
//! before being stored: file coordinates have Y growing upward, the stored
//! model has Y growing downward. This holds uniformly for component
//! positions, wire endpoints, label positions, junction positions and
//! no-connection positions.

use vstd::prelude::*;
use vstd::string::StringSliceAdditionalSpecFns;

use crate::geometry::{Point2, Matrix4};
use crate::identity::Identity;
use crate::component::{ComponentInstance, ComponentInstanceV, Field, FieldV, instance_wf};
use crate::parsing::common::{
    find_from, digit_run_end, sp_tag, sp_space1, sp_line_ending, sp_digits1, sp_till_eol, sp_till_consume, sp_uint, sp_int,
    sp_point, sp_token, sp_quoted, sp_rest_of_line, sp_orientation, sp_justify, sp_italic,
    sp_bold, space_run_end, ms_run_end, p_lit, p_space1, p_line_ending, p_digits1, p_till_eol,
    p_till_consume, p_uint, p_int, p_point, p_token, p_quoted, p_rest_of_line, p_orientation,
    p_justify, p_italic, p_bold, p_space_run, p_ms_run, p_digit_run,
};

verus! {

/// A straight segment of a wire, bus, or dotted (notes) line.
#[derive(Debug, Clone, Copy, PartialEq, Eq, Structural)]
pub struct WireSegment {
    pub uuid: Identity,
    pub kind: WireType,
    pub start: Point2,
    pub end: Point2,
}

#[derive(Debug, Clone, Copy, PartialEq, Eq, Structural)]
pub enum WireType {
    Wire,
    Bus,
    Dotted,
}

/// A text label anchored at a position.
#[derive(Debug, Clone, PartialEq)]
pub struct Label {
    pub text: String,
    pub position: Point2,
}

pub ghost struct LabelV {
    pub text: Seq<char>,
    pub position: Point2,
}

impl View for Label {
    type V = LabelV;

    open spec fn view(&self) -> LabelV {
        LabelV { text: self.text@, position: self.position }
    }
}

/// A free-text note. Its content is parsed but discarded (stored empty);
/// this is a known limitation kept for compatibility.
#[derive(Debug, Clone, PartialEq)]
pub struct Note {
    pub text: String,
}

pub ghost struct NoteV {
    pub text: Seq<char>,
}

impl View for Note {
    type V = NoteV;

    open spec fn view(&self) -> NoteV {
        NoteV { text: self.text@ }
    }
}

/// A junction dot joining crossing wires.
#[derive(Debug, Clone, Copy, PartialEq, Eq, Structural)]
pub struct Junction {
    pub position: Point2,
}

/// A no-connection mark on a pin.
#[derive(Debug, Clone, Copy, PartialEq, Eq, Structural)]
pub struct NoConnection {
    pub position: Point2,
}

/// One entry of a schematic file, in file order.
#[derive(Debug, Clone, PartialEq)]
pub enum SchemaEntry {
    ComponentInstance(ComponentInstance),
    Wire(WireSegment),
    Label(Label),
    Junction(Junction),
    Note(Note),
    NoConnection(NoConnection),
}

pub ghost enum SchemaEntryV {
    ComponentInstance(ComponentInstanceV),
    Wire(WireSegment),
    Label(LabelV),
    Junction(Junction),
    Note(NoteV),
    NoConnection(NoConnection),
}

impl View for SchemaEntry {
    type V = SchemaEntryV;

    open spec fn view(&self) -> SchemaEntryV {
        match self {
            SchemaEntry::ComponentInstance(c) => SchemaEntryV::ComponentInstance(c@),
            SchemaEntry::Wire(w) => SchemaEntryV::Wire(*w),
            SchemaEntry::Label(l) => SchemaEntryV::Label(l@),
            SchemaEntry::Junction(j) => SchemaEntryV::Junction(*j),
            SchemaEntry::Note(n) => SchemaEntryV::Note(n@),
            SchemaEntry::NoConnection(n) => SchemaEntryV::NoConnection(*n),
        }
    }
}

/// The decoded content of a schematic file.
#[derive(Debug)]
pub struct SchemaFile {
    pub components: Vec<ComponentInstance>,
    pub wires: Vec<WireSegment>,
    pub labels: Vec<Label>,
    pub junctions: Vec<Junction>,
}

pub ghost struct SchemaFileV {
    pub components: Seq<ComponentInstanceV>,
    pub wires: Seq<WireSegment>,
    pub labels: Seq<LabelV>,
    pub junctions: Seq<Junction>,
}

impl View for SchemaFile {
    type V = SchemaFileV;

    open spec fn view(&self) -> SchemaFileV {
        SchemaFileV {
            components: comps_view(self.components@),
            wires: self.wires@,
            labels: labels_view(self.labels@),
            junctions: self.junctions@,
        }
    }
}

/// A field line: `F <n> "<text>" <orient> <x> <y> <size> <flags> <hj> <vj><i><b>`.
/// The field's position keeps the raw file coordinates.
pub open spec fn sp_field(s: Seq<u8>, i: int) -> Option<(int, FieldV)> {
    match sp_tag(s, i, "F".spec_bytes()) {
        Some(i1) => match sp_space1(s, i1) {
            Some(i2) => match sp_int(s, i2) {
                Some((i3, n)) => match sp_space1(s, i3) {
                    Some(i4) => match sp_quoted(s, i4) {
                        Some((i5, text)) => match sp_space1(s, i5) {
                            Some(i6) => match sp_orientation(s, i6) {
                                Some((i7, orient)) => match sp_space1(s, i7) {
                                    Some(i8) => match sp_point(s, i8) {
                                        Some((i9, (x, y))) => match sp_space1(s, i9) {
                                            Some(i10) => match sp_uint(s, i10) {
                                                Some((i11, dim)) => sp_field_tail(
                                                    s, i11, n, text, orient, x, y, dim,
                                                ),
                                                None => None,
                                            },
                                            None => None,
                                        },
                                        None => None,
                                    },
                                    None => None,
                                },
                                None => None,
                            },
                            None => None,
                        },
                        None => None,
                    },
                    None => None,
                },
                None => None,
            },
            None => None,
        },
        None => None,
    }
}

/// The visibility flags and justification block of a field line, then the
/// rest of the line. The flags are zero or more digit runs, read and
/// discarded.
pub open spec fn sp_field_tail(
    s: Seq<u8>,
    i: int,
    n: int,
    text: Seq<char>,
    orient: crate::geometry::TextOrientation,
    x: int,
    y: int,
    dim: int,
) -> Option<(int, FieldV)> {
    match sp_space1(s, i) {
        Some(i1) => {
            let i2 = digit_run_end(s, i1);
            match sp_space1(s, i2) {
                Some(i3) => match sp_justify(s, i3) {
                    Some((i4, hj)) => match sp_space1(s, i4) {
                        Some(i5) => match sp_justify(s, i5) {
                            Some((i6, vj)) => match sp_italic(s, i6) {
                                Some((i7, it)) => match sp_bold(s, i7) {
                                    Some((i8, bo)) => match sp_till_eol(s, i8) {
                                        Some(i9) => match sp_line_ending(s, i9) {
                                            Some(i10) => Some(
                                                (
                                                    i10,
                                                    FieldV {
                                                        n: n,
                                                        text: text,
                                                        position: Point2 {
                                                            x: x as i64,
                                                            y: y as i64,
                                                        },
                                                        dimension: dim,
                                                        orientation: orient,
                                                        visible: false,
                                                        hjustify: hj,
                                                        vjustify: vj,
                                                        italic: it,
                                                        bold: bo,
                                                        name: None,
                                                    },
                                                ),
                                            ),
                                            None => None,
                                        },
                                        None => None,
                                    },
                                    None => None,
                                },
                                None => None,
                            },
                            None => None,
                        },
                        None => None,
                    },
                    None => None,
                },
                None => None,
            }
        },
        None => None,
    }
}

/// Zero or more field lines; stops at the first line that is not a field.
pub open spec fn sp_field_list(s: Seq<u8>, i: int) -> (int, Seq<FieldV>)
    decreases s.len() - i when 0 <= i <= s.len()
{
    match sp_field(s, i) {
        Some((j, f)) => if i < j <= s.len() {
            let (k, rest) = sp_field_list(s, j);
            (k, seq![f] + rest)
        } else {
            (i, Seq::empty())
        },
        None => (i, Seq::empty()),
    }
}

/// The rotation line: a tab, then four whitespace-separated signed numbers
/// `a b c d`, the file's 2x2 orientation rows `(a, b)` and `(c, d)`. Each
/// row's second entry is negated (the Y-axis flip) and the pair is then
/// transposed, so the stored block is `[[a, c], [-b, -d]]`.
pub open spec fn sp_rotation(s: Seq<u8>, i: int) -> Option<(int, Matrix4)> {
    if 0 <= i && i < s.len() && s[i] == 9 {
        let i0 = ms_run_end(s, i + 1);
        match sp_int(s, i0) {
            Some((i1, a)) => {
                let i1b = ms_run_end(s, i1);
                match sp_int(s, i1b) {
                    Some((i2, b)) => {
                        let i2b = ms_run_end(s, i2);
                        match sp_int(s, i2b) {
                            Some((i3, c)) => {
                                let i3b = ms_run_end(s, i3);
                                match sp_int(s, i3b) {
                                    Some((i4, d)) => Some(
                                        (
                                            ms_run_end(s, i4),
                                            Matrix4 {
                                                m00: a as i64,
                                                m01: c as i64,
                                                m02: 0,
                                                m03: 0,
                                                m10: (-b) as i64,
                                                m11: (-d) as i64,
                                                m12: 0,
                                                m13: 0,
                                                m20: 0,
                                                m21: 0,
                                                m22: 1,
                                                m23: 0,
                                                m30: 0,
                                                m31: 0,
                                                m32: 0,
                                                m33: 1,
                                            },
                                        ),
                                    ),
                                    None => None,
                                }
                            },
                            None => None,
                        }
                    },
                    None => None,
                }
            },
            None => None,
        }
    } else {
        None
    }
}

/// A component instance block, `$Comp` through `$EndComp`. The stored
/// position is the file position with Y negated; the identity is nil until
/// the aggregate assigns a real one.
pub open spec fn sp_component_instance(s: Seq<u8>, i: int) -> Option<(int, ComponentInstanceV)> {
    match sp_tag(s, i, "$Comp".spec_bytes()) {
        Some(i1) => match sp_line_ending(s, i1) {
            Some(i2) => match sp_tag(s, i2, "L".spec_bytes()) {
                Some(i3) => match sp_space1(s, i3) {
                    Some(i4) => match sp_token(s, i4) {
                        Some((i5, name)) => match sp_space1(s, i5) {
                            Some(i6) => match sp_token(s, i6) {
                                Some((i7, reference)) => match sp_line_ending(s, i7) {
                                    Some(i8) => sp_component_body(s, i8, name, reference),
                                    None => None,
                                },
                                None => None,
                            },
                            None => None,
                        },
                        None => None,
                    },
                    None => None,
                },
                None => None,
            },
            None => None,
        },
        None => None,
    }
}

/// The remainder of a component block after the `L` line: the discarded `U`
/// line, the `P` position line, the field lines, one more discarded line,
/// the rotation line, and the `$EndComp` sentinel.
pub open spec fn sp_component_body(
    s: Seq<u8>,
    i: int,
    name: Seq<char>,
    reference: Seq<char>,
) -> Option<(int, ComponentInstanceV)> {
    match sp_tag(s, i, "U".spec_bytes()) {
        Some(i1) => match sp_till_eol(s, i1) {
            Some(i2) => match sp_line_ending(s, i2) {
                Some(i3) => match sp_tag(s, i3, "P".spec_bytes()) {
                    Some(i4) => match sp_space1(s, i4) {
                        Some(i5) => match sp_point(s, i5) {
                            Some((i6, (x, y))) => match sp_line_ending(s, i6) {
                                Some(i7) => {
                                    let (i8, _fields) = sp_field_list(s, i7);
                                    match sp_till_eol(s, i8) {
                                        Some(i9) => match sp_line_ending(s, i9) {
                                            Some(i10) => match sp_rotation(s, i10) {
                                                Some((i11, rot)) => match sp_till_consume(
                                                    s,
                                                    i11,
                                                    "$EndComp".spec_bytes(),
                                                ) {
                                                    Some(i12) => match sp_line_ending(s, i12) {
                                                        Some(i13) => Some(
                                                            (
                                                                i13,
                                                                ComponentInstanceV {
                                                                    uuid: Identity::spec_nil(),
                                                                    name: name,
                                                                    reference: reference,
                                                                    position: Point2 {
                                                                        x: x as i64,
                                                                        y: (-y) as i64,
                                                                    },
                                                                    rotation: rot,
                                                                },
                                                            ),
                                                        ),
                                                        None => None,
                                                    },
                                                    None => None,
                                                },
                                                None => None,
                                            },
                                            None => None,
                                        },
                                        None => None,
                                    }
                                },
                                None => None,
                            },
                            None => None,
                        },
                        None => None,
                    },
                    None => None,
                },
                None => None,
            },
            None => None,
        },
        None => None,
    }
}

/// The tail of a wire entry after its selecting tag (`Wire`, `Bus` or
/// `Notes`): the literal `Line`, a line ending, then the two endpoints. Both
/// endpoints are stored with Y negated. A `Notes` segment tolerates trailing
/// spaces before its line ending.
pub open spec fn sp_wire_tail(
    s: Seq<u8>,
    i: int,
    kind: WireType,
    trailing_space: bool,
) -> Option<(int, WireSegment)> {
    match sp_space1(s, i) {
        Some(i1) => match sp_tag(s, i1, "Line".spec_bytes()) {
            Some(i2) => match sp_line_ending(s, i2) {
                Some(i3) => {
                    let i4 = space_run_end(s, i3);
                    match sp_point(s, i4) {
                        Some((i5, (x1, y1))) => match sp_space1(s, i5) {
                            Some(i6) => match sp_point(s, i6) {
                                Some((i7, (x2, y2))) => {
                                    let i8 = if trailing_space {
                                        space_run_end(s, i7)
                                    } else {
                                        i7
                                    };
                                    match sp_line_ending(s, i8) {
                                        Some(i9) => Some(
                                            (
                                                i9,
                                                WireSegment {
                                                    uuid: Identity::spec_nil(),
                                                    kind: kind,
                                                    start: Point2 {
                                                        x: x1 as i64,
                                                        y: (-y1) as i64,
                                                    },
                                                    end: Point2 {
                                                        x: x2 as i64,
                                                        y: (-y2) as i64,
                                                    },
                                                },
                                            ),
                                        ),
                                        None => None,
                                    }
                                },
                                None => None,
                            },
                            None => None,
                        },
                        None => None,
                    }
                },
                None => None,
            },
            None => None,
        },
        None => None,
    }
}

/// A wire entry: the leading `Wire` tag, then one of `Wire Line` (a wire),
/// `Bus Line` (a bus) or `Notes Line` (a dotted line), tried in this order.
pub open spec fn sp_wire_instance(s: Seq<u8>, i: int) -> Option<(int, WireSegment)> {
    match sp_tag(s, i, "Wire".spec_bytes()) {
        Some(i1) => match sp_space1(s, i1) {
            Some(i2) => match sp_tag(s, i2, "Wire".spec_bytes()) {
                Some(i3) => sp_wire_tail(s, i3, WireType::Wire, false),
                None => match sp_tag(s, i2, "Bus".spec_bytes()) {
                    Some(i3) => sp_wire_tail(s, i3, WireType::Bus, false),
                    None => match sp_tag(s, i2, "Notes".spec_bytes()) {
                        Some(i3) => sp_wire_tail(s, i3, WireType::Dotted, true),
                        None => None,
                    },
                },
            },
            None => None,
        },
        None => None,
    }
}

/// A label entry: `Text Label <x> <y> <orient> <size> ~ <n>`, then the label
/// text alone on the following line. The position is stored with Y negated.
pub open spec fn sp_label(s: Seq<u8>, i: int) -> Option<(int, LabelV)> {
    match sp_tag(s, i, "Text".spec_bytes()) {
        Some(i1) => match sp_space1(s, i1) {
            Some(i2) => match sp_tag(s, i2, "Label".spec_bytes()) {
                Some(i3) => match sp_space1(s, i3) {
                    Some(i4) => match sp_point(s, i4) {
                        Some((i5, (x, y))) => sp_label_tail(s, i5, x, y),
                        None => None,
                    },
                    None => None,
                },
                None => None,
            },
            None => None,
        },
        None => None,
    }
}

pub open spec fn sp_label_tail(s: Seq<u8>, i: int, x: int, y: int) -> Option<(int, LabelV)> {
    match sp_space1(s, i) {
        Some(i1) => match sp_digits1(s, i1) {
            Some(i2) => match sp_space1(s, i2) {
                Some(i3) => match sp_token(s, i3) {
                    Some((i4, _dim)) => match sp_space1(s, i4) {
                        Some(i5) => match sp_tag(s, i5, "~".spec_bytes()) {
                            Some(i6) => match sp_space1(s, i6) {
                                Some(i7) => match sp_token(s, i7) {
                                    Some((i8, _thickness)) => match sp_line_ending(s, i8) {
                                        Some(i9) => match sp_rest_of_line(s, i9) {
                                            Some((i10, text)) => Some(
                                                (
                                                    i10,
                                                    LabelV {
                                                        text: text,
                                                        position: Point2 {
                                                            x: x as i64,
                                                            y: (-y) as i64,
                                                        },
                                                    },
                                                ),
                                            ),
                                            None => None,
                                        },
                                        None => None,
                                    },
                                    None => None,
                                },
                                None => None,
                            },
                            None => None,
                        },
                        None => None,
                    },
                    None => None,
                },
                None => None,
            },
            None => None,
        },
        None => None,
    }
}

/// A note entry: `Text Notes ...` and one content line. The content is
/// discarded; the note is stored with empty text.
pub open spec fn sp_note(s: Seq<u8>, i: int) -> Option<(int, NoteV)> {
    match sp_tag(s, i, "Text".spec_bytes()) {
        Some(i1) => match sp_space1(s, i1) {
            Some(i2) => match sp_tag(s, i2, "Notes".spec_bytes()) {
                Some(i3) => match sp_till_eol(s, i3) {
                    Some(i4) => match sp_line_ending(s, i4) {
                        Some(i5) => match sp_till_eol(s, i5) {
                            Some(i6) => match sp_line_ending(s, i6) {
                                Some(i7) => Some((i7, NoteV { text: Seq::empty() })),
                                None => None,
                            },
                            None => None,
                        },
                        None => None,
                    },
                    None => None,
                },
                None => None,
            },
            None => None,
        },
        None => None,
    }
}

/// A junction entry: `Connection ~ <x> <y>`, position stored with Y negated.
pub open spec fn sp_junction(s: Seq<u8>, i: int) -> Option<(int, Junction)> {
    match sp_tag(s, i, "Connection".spec_bytes()) {
        Some(i1) => match sp_space1(s, i1) {
            Some(i2) => match sp_tag(s, i2, "~".spec_bytes()) {
                Some(i3) => match sp_space1(s, i3) {
                    Some(i4) => match sp_point(s, i4) {
                        Some((i5, (x, y))) => match sp_line_ending(s, i5) {
                            Some(i6) => Some(
                                (i6, Junction { position: Point2 { x: x as i64, y: (-y) as i64 } }),
                            ),
                            None => None,
                        },
                        None => None,
                    },
                    None => None,
                },
                None => None,
            },
            None => None,
        },
        None => None,
    }
}

/// A no-connection entry: `NoConn ~ <x> <y>`, position stored with Y negated.
pub open spec fn sp_no_conn(s: Seq<u8>, i: int) -> Option<(int, NoConnection)> {
    match sp_tag(s, i, "NoConn".spec_bytes()) {
        Some(i1) => match sp_space1(s, i1) {
            Some(i2) => match sp_tag(s, i2, "~".spec_bytes()) {
                Some(i3) => match sp_space1(s, i3) {
                    Some(i4) => match sp_point(s, i4) {
                        Some((i5, (x, y))) => match sp_line_ending(s, i5) {
                            Some(i6) => Some(
                                (
                                    i6,
                                    NoConnection {
                                        position: Point2 { x: x as i64, y: (-y) as i64 },
                                    },
                                ),
                            ),
                            None => None,
                        },
                        None => None,
                    },
                    None => None,
                },
                None => None,
            },
            None => None,
        },
        None => None,
    }
}

/// One schematic entry. The alternatives are tried in a fixed order and the
/// first full match wins.
pub open spec fn sp_entry(s: Seq<u8>, i: int) -> Option<(int, SchemaEntryV)> {
    match sp_component_instance(s, i) {
        Some((j, c)) => Some((j, SchemaEntryV::ComponentInstance(c))),
        None => match sp_wire_instance(s, i) {
            Some((j, w)) => Some((j, SchemaEntryV::Wire(w))),
            None => match sp_label(s, i) {
                Some((j, l)) => Some((j, SchemaEntryV::Label(l))),
                None => match sp_junction(s, i) {
                    Some((j, jn)) => Some((j, SchemaEntryV::Junction(jn))),
                    None => match sp_note(s, i) {
                        Some((j, n)) => Some((j, SchemaEntryV::Note(n))),
                        None => match sp_no_conn(s, i) {
                            Some((j, nc)) => Some((j, SchemaEntryV::NoConnection(nc))),
                            None => None,
                        },
                    },
                },
            },
        },
    }
}

/// As many entries as match, in order; stops before the first position where
/// no entry matches.
pub open spec fn sp_entry_list(s: Seq<u8>, i: int) -> (int, Seq<SchemaEntryV>)
    decreases s.len() - i when 0 <= i <= s.len()
{
    match sp_entry(s, i) {
        Some((j, e)) => if i < j <= s.len() {
            let (k, rest) = sp_entry_list(s, j);
            (k, seq![e] + rest)
        } else {
            (i, Seq::empty())
        },
        None => (i, Seq::empty()),
    }
}

/// A whole schematic file: the version header, everything through
/// `$EndDescr`, one or more entries, and the closing `$EndSCHEMATC`
/// sentinel. Yields the entries in file order; trailing bytes after the
/// sentinel line are ignored.
pub open spec fn sp_schema_file(s: Seq<u8>) -> Option<Seq<SchemaEntryV>> {
    match sp_tag(s, 0, "EESchema Schematic File Version".spec_bytes()) {
        Some(i1) => match sp_space1(s, i1) {
            Some(i2) => match sp_digits1(s, i2) {
                Some(i3) => match sp_line_ending(s, i3) {
                    Some(i4) => match sp_till_consume(s, i4, "$EndDescr".spec_bytes()) {
                        Some(i5) => match sp_line_ending(s, i5) {
                            Some(i6) => {
                                let (i7, es) = sp_entry_list(s, i6);
                                if es.len() >= 1 {
                                    match sp_tag(s, i7, "$EndSCHEMATC".spec_bytes()) {
                                        Some(i8) => match sp_line_ending(s, i8) {
                                            Some(_) => Some(es),
                                            None => None,
                                        },
                                        None => None,
                                    }
                                } else {
                                    None
                                }
                            },
                            None => None,
                        },
                        None => None,
                    },
                    None => None,
                },
                None => None,
            },
            None => None,
        },
        None => None,
    }
}

pub fn p_field(s: &[u8], i: usize) -> (r: Option<(usize, Field)>)
    requires
        i <= s@.len(),
    ensures
        match r {
            Some((j, f)) => sp_field(s@, i as int) matches Some((sj, sf)) && sj == j as int && sf
                == f@ && i < j <= s@.len(),
            None => sp_field(s@, i as int) is None,
        },
{
    let i1: usize = match p_lit(s, i, "F") {
        Some(v) => v,
        None => {
            return None;
        },
    };
    let i2: usize = match p_space1(s, i1) {
        Some(v) => v,
        None => {
            return None;
        },
    };
    let (i3, n): (usize, i64) = match p_int(s, i2) {
        Some(v) => v,
        None => {
            return None;
        },
    };
    let i4: usize = match p_space1(s, i3) {
        Some(v) => v,
        None => {
            return None;
        },
    };
    let (i5, text): (usize, String) = match p_quoted(s, i4) {
        Some(v) => v,
        None => {
            return None;
        },
    };
    let i6: usize = match p_space1(s, i5) {
        Some(v) => v,
        None => {
            return None;
        },
    };
    let (i7, orient): (usize, crate::geometry::TextOrientation) = match p_orientation(s, i6) {
        Some(v) => v,
        None => {
            return None;
        },
    };
    let i8: usize = match p_space1(s, i7) {
        Some(v) => v,
        None => {
            return None;
        },
    };
    let (i9, (x, y)): (usize, (i64, i64)) = match p_point(s, i8) {
        Some(v) => v,
        None => {
            return None;
        },
    };
    let i10: usize = match p_space1(s, i9) {
        Some(v) => v,
        None => {
            return None;
        },
    };
    let (i11, dim): (usize, i64) = match p_uint(s, i10) {
        Some(v) => v,
        None => {
            return None;
        },
    };
    let i12: usize = match p_space1(s, i11) {
        Some(v) => v,
        None => {
            return None;
        },
    };
    let i13: usize = p_digit_run(s, i12);
    let i14: usize = match p_space1(s, i13) {
        Some(v) => v,
        None => {
            return None;
        },
    };
    let (i15, hj): (usize, crate::geometry::Justify) = match p_justify(s, i14) {
        Some(v) => v,
        None => {
            return None;
        },
    };
    let i16: usize = match p_space1(s, i15) {
        Some(v) => v,
        None => {
            return None;
        },
    };
    let (i17, vj): (usize, crate::geometry::Justify) = match p_justify(s, i16) {
        Some(v) => v,
        None => {
            return None;
        },
    };
    let (i18, it): (usize, bool) = match p_italic(s, i17) {
        Some(v) => v,
        None => {
            return None;
        },
    };
    let (i19, bo): (usize, bool) = match p_bold(s, i18) {
        Some(v) => v,
        None => {
            return None;
        },
    };
    let i20: usize = match p_till_eol(s, i19) {
        Some(v) => v,
        None => {
            return None;
        },
    };
    let i21: usize = match p_line_ending(s, i20) {
        Some(v) => v,
        None => {
            return None;
        },
    };
    Some(
        (
            i21,
            Field {
                n: n,
                text: text,
                position: Point2 { x, y },
                dimension: dim as u64,
                orientation: orient,
                visible: false,
                hjustify: hj,
                vjustify: vj,
                italic: it,
                bold: bo,
                name: None,
            },
        ),
    )
}

/// Skip the field lines of a component block; the parsed fields are
/// captured by the grammar but discarded.
pub fn p_field_list(s: &[u8], i: usize) -> (r: usize)
    requires
        i <= s@.len(),
    ensures
        r as int == sp_field_list(s@, i as int).0,
        i <= r <= s@.len(),
{
    let mut pos: usize = i;
    loop
        invariant
            i <= pos <= s@.len(),
            sp_field_list(s@, i as int).0 == sp_field_list(s@, pos as int).0,
        decreases s@.len() - pos,
    {
        match p_field(s, pos) {
            Some((j, _f)) => {
                pos = j;
            },
            None => {
                return pos;
            },
        }
    }
}

pub fn p_rotation(s: &[u8], i: usize) -> (r: Option<(usize, Matrix4)>)
    requires
        i <= s@.len(),
    ensures
        match r {
            Some((j, m)) => sp_rotation(s@, i as int) == Some((j as int, m)) && i <= j <= s@.len(),
            None => sp_rotation(s@, i as int) is None,
        },
{
    if !(i < s.len() && s[i] == 9) {
        return None;
    }
    let i0: usize = p_ms_run(s, i + 1);
    let (i1, a): (usize, i64) = match p_int(s, i0) {
        Some(v) => v,
        None => {
            return None;
        },
    };
    let i1b: usize = p_ms_run(s, i1);
    let (i2, b): (usize, i64) = match p_int(s, i1b) {
        Some(v) => v,
        None => {
            return None;
        },
    };
    let i2b: usize = p_ms_run(s, i2);
    let (i3, c): (usize, i64) = match p_int(s, i2b) {
        Some(v) => v,
        None => {
            return None;
        },
    };
    let i3b: usize = p_ms_run(s, i3);
    let (i4, d): (usize, i64) = match p_int(s, i3b) {
        Some(v) => v,
        None => {
            return None;
        },
    };
    let i5: usize = p_ms_run(s, i4);
    Some(
        (
            i5,
            Matrix4 {
                m00: a,
                m01: c,
                m02: 0,
                m03: 0,
                m10: -b,
                m11: -d,
                m12: 0,
                m13: 0,
                m20: 0,
                m21: 0,
                m22: 1,
                m23: 0,
                m30: 0,
                m31: 0,
                m32: 0,
                m33: 1,
            },
        ),
    )
}

pub fn p_component_instance(s: &[u8], i: usize) -> (r: Option<(usize, ComponentInstance)>)
    requires
        i <= s@.len(),
    ensures
        match r {
            Some((j, c)) => sp_component_instance(s@, i as int) matches Some((sj, sc)) && sj
                == j as int && sc == c@ && i < j <= s@.len(),
            None => sp_component_instance(s@, i as int) is None,
        },
{
    let i1: usize = match p_lit(s, i, "$Comp") {
        Some(v) => v,
        None => {
            return None;
        },
    };
    let i2: usize = match p_line_ending(s, i1) {
        Some(v) => v,
        None => {
            return None;
        },
    };
    let i3: usize = match p_lit(s, i2, "L") {
        Some(v) => v,
        None => {
            return None;
        },
    };
    let i4: usize = match p_space1(s, i3) {
        Some(v) => v,
        None => {
            return None;
        },
    };
    let (i5, name): (usize, String) = match p_token(s, i4) {
        Some(v) => v,
        None => {
            return None;
        },
    };
    let i6: usize = match p_space1(s, i5) {
        Some(v) => v,
        None => {
            return None;
        },
    };
    let (i7, reference): (usize, String) = match p_token(s, i6) {
        Some(v) => v,
        None => {
            return None;
        },
    };
    let i8: usize = match p_line_ending(s, i7) {
        Some(v) => v,
        None => {
            return None;
        },
    };
    let i9: usize = match p_lit(s, i8, "U") {
        Some(v) => v,
        None => {
            return None;
        },
    };
    let i10: usize = match p_till_eol(s, i9) {
        Some(v) => v,
        None => {
            return None;
        },
    };
    let i11: usize = match p_line_ending(s, i10) {
        Some(v) => v,
        None => {
            return None;
        },
    };
    let i12: usize = match p_lit(s, i11, "P") {
        Some(v) => v,
        None => {
            return None;
        },
    };
    let i13: usize = match p_space1(s, i12) {
        Some(v) => v,
        None => {
            return None;
        },
    };
    let (i14, (x, y)): (usize, (i64, i64)) = match p_point(s, i13) {
        Some(v) => v,
        None => {
            return None;
        },
    };
    let i15: usize = match p_line_ending(s, i14) {
        Some(v) => v,
        None => {
            return None;
        },
    };
    let i16: usize = p_field_list(s, i15);
    let i17: usize = match p_till_eol(s, i16) {
        Some(v) => v,
        None => {
            return None;
        },
    };
    let i18: usize = match p_line_ending(s, i17) {
        Some(v) => v,
        None => {
            return None;
        },
    };
    let (i19, rot): (usize, Matrix4) = match p_rotation(s, i18) {
        Some(v) => v,
        None => {
            return None;
        },
    };
    let i20: usize = match p_till_consume(s, i19, "$EndComp") {
        Some(v) => v,
        None => {
            return None;
        },
    };
    let i21: usize = match p_line_ending(s, i20) {
        Some(v) => v,
        None => {
            return None;
        },
    };
    Some(
        (
            i21,
            ComponentInstance {
                uuid: Identity::nil(),
                name: name,
                reference: reference,
                position: Point2 { x: x, y: -y },
                rotation: rot,
            },
        ),
    )
}

fn p_wire_tail(s: &[u8], i: usize, kind: WireType, trailing_space: bool) -> (r: Option<
    (usize, WireSegment),
>)
    requires
        i <= s@.len(),
    ensures
        match r {
            Some((j, w)) => sp_wire_tail(s@, i as int, kind, trailing_space) == Some(
                (j as int, w),
            ) && i < j <= s@.len(),
            None => sp_wire_tail(s@, i as int, kind, trailing_space) is None,
        },
{
    let i1: usize = match p_space1(s, i) {
        Some(v) => v,
        None => {
            return None;
        },
    };
    let i2: usize = match p_lit(s, i1, "Line") {
        Some(v) => v,
        None => {
            return None;
        },
    };
    let i3: usize = match p_line_ending(s, i2) {
        Some(v) => v,
        None => {
            return None;
        },
    };
    let i4: usize = p_space_run(s, i3);
    let (i5, (x1, y1)): (usize, (i64, i64)) = match p_point(s, i4) {
        Some(v) => v,
        None => {
            return None;
        },
    };
    let i6: usize = match p_space1(s, i5) {
        Some(v) => v,
        None => {
            return None;
        },
    };
    let (i7, (x2, y2)): (usize, (i64, i64)) = match p_point(s, i6) {
        Some(v) => v,
        None => {
            return None;
        },
    };
    let i8: usize = if trailing_space {
        p_space_run(s, i7)
    } else {
        i7
    };
    let i9: usize = match p_line_ending(s, i8) {
        Some(v) => v,
        None => {
            return None;
        },
    };
    Some(
        (
            i9,
            WireSegment {
                uuid: Identity::nil(),
                kind: kind,
                start: Point2 { x: x1, y: -y1 },
                end: Point2 { x: x2, y: -y2 },
            },
        ),
    )
}

pub fn p_wire_instance(s: &[u8], i: usize) -> (r: Option<(usize, WireSegment)>)
    requires
        i <= s@.len(),
    ensures
        match r {
            Some((j, w)) => sp_wire_instance(s@, i as int) == Some((j as int, w)) && i < j
                <= s@.len(),
            None => sp_wire_instance(s@, i as int) is None,
        },
{
    let i1: usize = match p_lit(s, i, "Wire") {
        Some(v) => v,
        None => {
            return None;
        },
    };
    let i2: usize = match p_space1(s, i1) {
        Some(v) => v,
        None => {
            return None;
        },
    };
    match p_lit(s, i2, "Wire") {
        Some(i3) => {
            return p_wire_tail(s, i3, WireType::Wire, false);
        },
        None => {},
    }
    match p_lit(s, i2, "Bus") {
        Some(i3) => {
            return p_wire_tail(s, i3, WireType::Bus, false);
        },
        None => {},
    }
    match p_lit(s, i2, "Notes") {
        Some(i3) => {
            return p_wire_tail(s, i3, WireType::Dotted, true);
        },
        None => {},
    }
    None
}

pub fn p_label(s: &[u8], i: usize) -> (r: Option<(usize, Label)>)
    requires
        i <= s@.len(),
    ensures
        match r {
            Some((j, l)) => sp_label(s@, i as int) matches Some((sj, sl)) && sj == j as int && sl
                == l@ && i < j <= s@.len(),
            None => sp_label(s@, i as int) is None,
        },
{
    let i1: usize = match p_lit(s, i, "Text") {
        Some(v) => v,
        None => {
            return None;
        },
    };
    let i2: usize = match p_space1(s, i1) {
        Some(v) => v,
        None => {
            return None;
        },
    };
    let i3: usize = match p_lit(s, i2, "Label") {
        Some(v) => v,
        None => {
            return None;
        },
    };
    let i4: usize = match p_space1(s, i3) {
        Some(v) => v,
        None => {
            return None;
        },
    };
    let (i5, (x, y)): (usize, (i64, i64)) = match p_point(s, i4) {
        Some(v) => v,
        None => {
            return None;
        },
    };
    let i6: usize = match p_space1(s, i5) {
        Some(v) => v,
        None => {
            return None;
        },
    };
    let i7: usize = match p_digits1(s, i6) {
        Some(v) => v,
        None => {
            return None;
        },
    };
    let i8: usize = match p_space1(s, i7) {
        Some(v) => v,
        None => {
            return None;
        },
    };
    let (i9, _dim): (usize, String) = match p_token(s, i8) {
        Some(v) => v,
        None => {
            return None;
        },
    };
    let i10: usize = match p_space1(s, i9) {
        Some(v) => v,
        None => {
            return None;
        },
    };
    let i11: usize = match p_lit(s, i10, "~") {
        Some(v) => v,
        None => {
            return None;
        },
    };
    let i12: usize = match p_space1(s, i11) {
        Some(v) => v,
        None => {
            return None;
        },
    };
    let (i13, _thickness): (usize, String) = match p_token(s, i12) {
        Some(v) => v,
        None => {
            return None;
        },
    };
    let i14: usize = match p_line_ending(s, i13) {
        Some(v) => v,
        None => {
            return None;
        },
    };
    let (i15, text): (usize, String) = match p_rest_of_line(s, i14) {
        Some(v) => v,
        None => {
            return None;
        },
    };
    Some((i15, Label { text: text, position: Point2 { x: x, y: -y } }))
}

pub fn p_note(s: &[u8], i: usize) -> (r: Option<(usize, Note)>)
    requires
        i <= s@.len(),
    ensures
        match r {
            Some((j, n)) => sp_note(s@, i as int) matches Some((sj, sn)) && sj == j as int && sn
                == n@ && i < j <= s@.len(),
            None => sp_note(s@, i as int) is None,
        },
{
    let i1: usize = match p_lit(s, i, "Text") {
        Some(v) => v,
        None => {
            return None;
        },
    };
    let i2: usize = match p_space1(s, i1) {
        Some(v) => v,
        None => {
            return None;
        },
    };
    let i3: usize = match p_lit(s, i2, "Notes") {
        Some(v) => v,
        None => {
            return None;
        },
    };
    let i4: usize = match p_till_eol(s, i3) {
        Some(v) => v,
        None => {
            return None;
        },
    };
    let i5: usize = match p_line_ending(s, i4) {
        Some(v) => v,
        None => {
            return None;
        },
    };
    let i6: usize = match p_till_eol(s, i5) {
        Some(v) => v,
        None => {
            return None;
        },
    };
    let i7: usize = match p_line_ending(s, i6) {
        Some(v) => v,
        None => {
            return None;
        },
    };
    let text: String = String::new();
    Some((i7, Note { text: text }))
}

pub fn p_junction(s: &[u8], i: usize) -> (r: Option<(usize, Junction)>)
    requires
        i <= s@.len(),
    ensures
        match r {
            Some((j, jn)) => sp_junction(s@, i as int) == Some((j as int, jn)) && i < j
                <= s@.len(),
            None => sp_junction(s@, i as int) is None,
        },
{
    let i1: usize = match p_lit(s, i, "Connection") {
        Some(v) => v,
        None => {
            return None;
        },
    };
    let i2: usize = match p_space1(s, i1) {
        Some(v) => v,
        None => {
            return None;
        },
    };
    let i3: usize = match p_lit(s, i2, "~") {
        Some(v) => v,
        None => {
            return None;
        },
    };
    let i4: usize = match p_space1(s, i3) {
        Some(v) => v,
        None => {
            return None;
        },
    };
    let (i5, (x, y)): (usize, (i64, i64)) = match p_point(s, i4) {
        Some(v) => v,
        None => {
            return None;
        },
    };
    let i6: usize = match p_line_ending(s, i5) {
        Some(v) => v,
        None => {
            return None;
        },
    };
    Some((i6, Junction { position: Point2 { x: x, y: -y } }))
}

pub fn p_no_conn(s: &[u8], i: usize) -> (r: Option<(usize, NoConnection)>)
    requires
        i <= s@.len(),
    ensures
        match r {
            Some((j, nc)) => sp_no_conn(s@, i as int) == Some((j as int, nc)) && i < j
                <= s@.len(),
            None => sp_no_conn(s@, i as int) is None,
        },
{
    let i1: usize = match p_lit(s, i, "NoConn") {
        Some(v) => v,
        None => {
            return None;
        },
    };
    let i2: usize = match p_space1(s, i1) {
        Some(v) => v,
        None => {
            return None;
        },
    };
    let i3: usize = match p_lit(s, i2, "~") {
        Some(v) => v,
        None => {
            return None;
        },
    };
    let i4: usize = match p_space1(s, i3) {
        Some(v) => v,
        None => {
            return None;
        },
    };
    let (i5, (x, y)): (usize, (i64, i64)) = match p_point(s, i4) {
        Some(v) => v,
        None => {
            return None;
        },
    };
    let i6: usize = match p_line_ending(s, i5) {
        Some(v) => v,
        None => {
            return None;
        },
    };
    Some((i6, NoConnection { position: Point2 { x: x, y: -y } }))
}

pub fn p_entry(s: &[u8], i: usize) -> (r: Option<(usize, SchemaEntry)>)
    requires
        i <= s@.len(),
    ensures
        match r {
            Some((j, e)) => sp_entry(s@, i as int) matches Some((sj, se)) && sj == j as int && se
                == e@ && i < j <= s@.len(),
            None => sp_entry(s@, i as int) is None,
        },
{
    match p_component_instance(s, i) {
        Some((j, c)) => {
            return Some((j, SchemaEntry::ComponentInstance(c)));
        },
        None => {},
    }
    match p_wire_instance(s, i) {
        Some((j, w)) => {
            return Some((j, SchemaEntry::Wire(w)));
        },
        None => {},
    }
    match p_label(s, i) {
        Some((j, l)) => {
            return Some((j, SchemaEntry::Label(l)));
        },
        None => {},
    }
    match p_junction(s, i) {
        Some((j, jn)) => {
            return Some((j, SchemaEntry::Junction(jn)));
        },
        None => {},
    }
    match p_note(s, i) {
        Some((j, n)) => {
            return Some((j, SchemaEntry::Note(n)));
        },
        None => {},
    }
    match p_no_conn(s, i) {
        Some((j, nc)) => {
            return Some((j, SchemaEntry::NoConnection(nc)));
        },
        None => {},
    }
    None
}

/// The view of a parsed entry vector.
pub open spec fn entries_view(v: Seq<SchemaEntry>) -> Seq<SchemaEntryV> {
    Seq::new(v.len(), |i: int| v[i]@)
}

pub fn p_entry_list(s: &[u8], i: usize) -> (r: (usize, Vec<SchemaEntry>))
    requires
        i <= s@.len(),
    ensures
        ({
            let (k, es) = sp_entry_list(s@, i as int);
            r.0 as int == k && entries_view(r.1@) == es && i <= r.0 <= s@.len()
        }),
{
    let mut pos: usize = i;
    let mut out: Vec<SchemaEntry> = Vec::new();
    proof {
        assert(entries_view(out@) =~= Seq::<SchemaEntryV>::empty());
    }
    loop
        invariant
            i <= pos <= s@.len(),
            ({
                let (k, rest) = sp_entry_list(s@, pos as int);
                sp_entry_list(s@, i as int) == (k, entries_view(out@) + rest)
            }),
        decreases s@.len() - pos,
    {
        match p_entry(s, pos) {
            Some((j, e)) => {
                proof {
                    let (k2, rest2) = sp_entry_list(s@, j as int);
                    assert(entries_view(out@.push(e)) =~= entries_view(out@).push(e@));
                    assert(entries_view(out@) + (seq![e@] + rest2) =~= entries_view(out@.push(e))
                        + rest2);
                }
                out.push(e);
                pos = j;
            },
            None => {
                proof {
                    let (k, rest) = sp_entry_list(s@, pos as int);
                    assert(rest =~= Seq::<SchemaEntryV>::empty());
                    assert(entries_view(out@) + rest =~= entries_view(out@));
                }
                return (pos, out);
            },
        }
    }
}

impl SchemaFile {
    /// Decode a whole schematic file. Returns the decoded entries, sorted
    /// into their collections in file order, exactly when the input matches
    /// the grammar; returns nothing on any mismatch.
    pub fn parse(input: &[u8]) -> (r: Option<SchemaFile>)
        ensures
            match r {
                Some(f) => sp_schema_file(input@) matches Some(es) && f@.components
                    == components_of(es) && f@.wires == wires_of(es) && f@.labels == labels_of(es)
                    && f@.junctions == junctions_of(es),
                None => sp_schema_file(input@) is None,
            },
    {
        let i1: usize = match p_lit(input, 0, "EESchema Schematic File Version") {
            Some(v) => v,
            None => {
                return None;
            },
        };
        let i2: usize = match p_space1(input, i1) {
            Some(v) => v,
            None => {
                return None;
            },
        };
        let i3: usize = match p_digits1(input, i2) {
            Some(v) => v,
            None => {
                return None;
            },
        };
        let i4: usize = match p_line_ending(input, i3) {
            Some(v) => v,
            None => {
                return None;
            },
        };
        let i5: usize = match p_till_consume(input, i4, "$EndDescr") {
            Some(v) => v,
            None => {
                return None;
            },
        };
        let i6: usize = match p_line_ending(input, i5) {
            Some(v) => v,
            None => {
                return None;
            },
        };
        let (i7, entries): (usize, Vec<SchemaEntry>) = p_entry_list(input, i6);
        if entries.len() == 0 {
            return None;
        }
        let i8: usize = match p_lit(input, i7, "$EndSCHEMATC") {
            Some(v) => v,
            None => {
                return None;
            },
        };
        match p_line_ending(input, i8) {
            Some(_) => {},
            None => {
                return None;
            },
        }
        let ghost es: Seq<SchemaEntryV> = entries_view(entries@);
        let mut rem: Vec<SchemaEntry> = entries;
        let mut components: Vec<ComponentInstance> = Vec::new();
        let mut wires: Vec<WireSegment> = Vec::new();
        let mut labels: Vec<Label> = Vec::new();
        let mut junctions: Vec<Junction> = Vec::new();
        proof {
            assert(entries_view(rem@) =~= es);
            assert(comps_view(components@) + components_of(es) =~= components_of(es));
            assert(wires@ + wires_of(es) =~= wires_of(es));
            assert(labels_view(labels@) + labels_of(es) =~= labels_of(es));
            assert(junctions@ + junctions_of(es) =~= junctions_of(es));
        }
        while rem.len() > 0
            invariant
                comps_view(components@) + components_of(entries_view(rem@)) == components_of(es),
                wires@ + wires_of(entries_view(rem@)) == wires_of(es),
                labels_view(labels@) + labels_of(entries_view(rem@)) == labels_of(es),
                junctions@ + junctions_of(entries_view(rem@)) == junctions_of(es),
            decreases rem@.len(),
        {
            let ghost old_rem: Seq<SchemaEntry> = rem@;
            let e: SchemaEntry = rem.remove(0);
            proof {
                let lv = entries_view(old_rem);
                assert(lv.len() > 0);
                assert(lv.first() == e@);
                assert(lv.drop_first() =~= entries_view(rem@));
            }
            match e {
                SchemaEntry::ComponentInstance(c) => {
                    let ghost before = comps_view(components@);
                    components.push(c);
                    proof {
                        assert(comps_view(components@) =~= before.push(c@));
                        assert(before + (seq![c@] + components_of(entries_view(rem@)))
                            =~= before.push(c@) + components_of(entries_view(rem@)));
                    }
                },
                SchemaEntry::Wire(w) => {
                    let ghost before = wires@;
                    wires.push(w);
                    proof {
                        assert(before + (seq![w] + wires_of(entries_view(rem@))) =~= before.push(w)
                            + wires_of(entries_view(rem@)));
                    }
                },
                SchemaEntry::Label(l) => {
                    let ghost before = labels_view(labels@);
                    labels.push(l);
                    proof {
                        assert(labels_view(labels@) =~= before.push(l@));
                        assert(before + (seq![l@] + labels_of(entries_view(rem@)))
                            =~= before.push(l@) + labels_of(entries_view(rem@)));
                    }
                },
                SchemaEntry::Junction(j) => {
                    let ghost before = junctions@;
                    junctions.push(j);
                    proof {
                        assert(before + (seq![j] + junctions_of(entries_view(rem@)))
                            =~= before.push(j) + junctions_of(entries_view(rem@)));
                    }
                },
                SchemaEntry::Note(_n) => {},
                SchemaEntry::NoConnection(_nc) => {},
            }
        }
        proof {
            assert(entries_view(rem@) =~= Seq::<SchemaEntryV>::empty());
            assert(comps_view(components@) + components_of(entries_view(rem@)) =~= comps_view(
                components@,
            ));
            assert(wires@ + wires_of(entries_view(rem@)) =~= wires@);
            assert(labels_view(labels@) + labels_of(entries_view(rem@)) =~= labels_view(labels@));
            assert(junctions@ + junctions_of(entries_view(rem@)) =~= junctions@);
        }
        Some(SchemaFile { components, wires, labels, junctions })
    }
}


proof fn lemma_tag_occurs(s: Seq<u8>, j: int, i: int, t: Seq<u8>)
    requires
        0 <= j <= i,
        sp_tag(s, i, t) is Some,
    ensures
        find_from(s, j, t) is Some,
    decreases i - j,
{
    assert(i + t.len() <= s.len());
    if j < i {
        if j + t.len() > s.len() {
            assert(false);
        } else if t.len() == 0 {
        } else if crate::parsing::common::pat_at(s, j, t) {
        } else {
            lemma_tag_occurs(s, j + 1, i, t);
        }
    }
}

/// A schematic file in which the `$EndSCHEMATC` sentinel occurs nowhere
/// fails to parse as a whole and produces nothing, even if every entry
/// before the truncation point is individually well-formed.
pub proof fn lemma_missing_end_sentinel(s: Seq<u8>)
    requires
        find_from(s, 0, "$EndSCHEMATC".spec_bytes()) is None,
    ensures
        sp_schema_file(s) is None,
{
    if sp_schema_file(s) is Some {
        let t0 = sp_tag(s, 0, "EESchema Schematic File Version".spec_bytes());
        let i1 = t0.unwrap();
        let i2 = sp_space1(s, i1).unwrap();
        let i3 = sp_digits1(s, i2).unwrap();
        let i4 = sp_line_ending(s, i3).unwrap();
        let i5 = sp_till_consume(s, i4, "$EndDescr".spec_bytes()).unwrap();
        let i6 = sp_line_ending(s, i5).unwrap();
        let (i7, es) = sp_entry_list(s, i6);
        assert(sp_tag(s, i7, "$EndSCHEMATC".spec_bytes()) is Some);
        assert(0 <= i7);
        lemma_tag_occurs(s, 0, i7, "$EndSCHEMATC".spec_bytes());
        assert(false);
    }
}


/// The cross-cutting coordinate convention, stated for junction entries:
/// the raw file point (x, y) that follows the `Connection ~` tags is stored
/// as (x, -y).
pub proof fn lemma_junction_y_negated(s: Seq<u8>, i: int)
    ensures
        sp_junction(s, i) matches Some((_, jn)) ==> ({
            let i1 = sp_tag(s, i, "Connection".spec_bytes()).unwrap();
            let i2 = sp_space1(s, i1).unwrap();
            let i3 = sp_tag(s, i2, "~".spec_bytes()).unwrap();
            let i4 = sp_space1(s, i3).unwrap();
            sp_point(s, i4) matches Some((_, xy)) && jn.position.x == xy.0 && jn.position.y
                == -xy.1
        }),
{
}

/// The coordinate convention for no-connection entries: the raw point
/// (x, y) after the `NoConn ~` tags is stored as (x, -y).
pub proof fn lemma_no_conn_y_negated(s: Seq<u8>, i: int)
    ensures
        sp_no_conn(s, i) matches Some((_, nc)) ==> ({
            let i1 = sp_tag(s, i, "NoConn".spec_bytes()).unwrap();
            let i2 = sp_space1(s, i1).unwrap();
            let i3 = sp_tag(s, i2, "~".spec_bytes()).unwrap();
            let i4 = sp_space1(s, i3).unwrap();
            sp_point(s, i4) matches Some((_, xy)) && nc.position.x == xy.0 && nc.position.y
                == -xy.1
        }),
{
}

/// The coordinate convention for label entries: the raw point (x, y) after
/// the `Text Label` tags is stored as (x, -y).
pub proof fn lemma_label_y_negated(s: Seq<u8>, i: int)
    ensures
        sp_label(s, i) matches Some((_, l)) ==> ({
            let i1 = sp_tag(s, i, "Text".spec_bytes()).unwrap();
            let i2 = sp_space1(s, i1).unwrap();
            let i3 = sp_tag(s, i2, "Label".spec_bytes()).unwrap();
            let i4 = sp_space1(s, i3).unwrap();
            sp_point(s, i4) matches Some((_, xy)) && l.position.x == xy.0 && l.position.y
                == -xy.1
        }),
{
}

/// The coordinate convention for component instances: the raw point (x, y)
/// of the `P` line is stored as (x, -y).
pub proof fn lemma_component_y_negated(s: Seq<u8>, i: int)
    ensures
        sp_component_instance(s, i) matches Some((_, c)) ==> ({
            let i1 = sp_tag(s, i, "$Comp".spec_bytes()).unwrap();
            let i2 = sp_line_ending(s, i1).unwrap();
            let i3 = sp_tag(s, i2, "L".spec_bytes()).unwrap();
            let i4 = sp_space1(s, i3).unwrap();
            let (i5, _name) = sp_token(s, i4).unwrap();
            let i6 = sp_space1(s, i5).unwrap();
            let (i7, _reference) = sp_token(s, i6).unwrap();
            let i8 = sp_line_ending(s, i7).unwrap();
            let i9 = sp_tag(s, i8, "U".spec_bytes()).unwrap();
            let i10 = sp_till_eol(s, i9).unwrap();
            let i11 = sp_line_ending(s, i10).unwrap();
            let i12 = sp_tag(s, i11, "P".spec_bytes()).unwrap();
            let i13 = sp_space1(s, i12).unwrap();
            sp_point(s, i13) matches Some((_, xy)) && c.position.x == xy.0 && c.position.y
                == -xy.1
        }),
{
}

/// The selecting tag of a wire entry fixes its kind, and both endpoints are
/// stored with Y negated: `Wire Line` gives a wire, `Bus Line` a bus,
/// `Notes Line` a dotted line, tried in that order.
pub proof fn lemma_wire_kind_and_y_negated(s: Seq<u8>, i: int)
    ensures
        sp_wire_instance(s, i) matches Some((_, w)) ==> ({
            let i1 = sp_tag(s, i, "Wire".spec_bytes()).unwrap();
            let i2 = sp_space1(s, i1).unwrap();
            &&& (sp_tag(s, i2, "Wire".spec_bytes()) is Some ==> w.kind == WireType::Wire)
            &&& (sp_tag(s, i2, "Wire".spec_bytes()) is None && sp_tag(
                s,
                i2,
                "Bus".spec_bytes(),
            ) is Some ==> w.kind == WireType::Bus)
            &&& (sp_tag(s, i2, "Wire".spec_bytes()) is None && sp_tag(
                s,
                i2,
                "Bus".spec_bytes(),
            ) is None && sp_tag(s, i2, "Notes".spec_bytes()) is Some ==> w.kind
                == WireType::Dotted)
        }),
{
}

/// The coordinate convention for wire endpoints: the raw start and end
/// points of the segment body are stored with Y negated.
pub proof fn lemma_wire_tail_y_negated(
    s: Seq<u8>,
    i: int,
    kind: WireType,
    trailing_space: bool,
)
    ensures
        sp_wire_tail(s, i, kind, trailing_space) matches Some((_, w)) ==> ({
            let i1 = sp_space1(s, i).unwrap();
            let i2 = sp_tag(s, i1, "Line".spec_bytes()).unwrap();
            let i3 = sp_line_ending(s, i2).unwrap();
            let i4 = space_run_end(s, i3);
            let (i5, a) = sp_point(s, i4).unwrap();
            let i6 = sp_space1(s, i5).unwrap();
            sp_point(s, i6) matches Some((_, b)) && w.kind == kind && w.start.x == a.0
                && w.start.y == -a.1 && w.end.x == b.0 && w.end.y == -b.1
        }),
{
}


/// Every instance in the sequence is bounded.
pub open spec fn all_instances_wf(cs: Seq<ComponentInstanceV>) -> bool {
    forall|k: int| 0 <= k < cs.len() ==> instance_wf(#[trigger] cs[k])
}

proof fn lemma_component_instance_bounded(s: Seq<u8>, i: int)
    ensures
        sp_component_instance(s, i) matches Some((_, c)) ==> instance_wf(c),
{
}

proof fn lemma_entry_list_instances_wf(s: Seq<u8>, i: int)
    requires
        0 <= i <= s.len(),
    ensures
        all_instances_wf(components_of(sp_entry_list(s, i).1)),
    decreases s.len() - i,
{
    match sp_entry(s, i) {
        Some((j, e)) => {
            if i < j <= s.len() {
                lemma_entry_list_instances_wf(s, j);
                let (_, rest) = sp_entry_list(s, j);
                let whole = seq![e] + rest;
                assert(whole.first() == e);
                assert(whole.drop_first() =~= rest);
                match e {
                    SchemaEntryV::ComponentInstance(c) => {
                        lemma_component_instance_bounded(s, i);
                        let cs = components_of(whole);
                        assert(cs =~= seq![c] + components_of(rest));
                        assert(forall|k: int|
                            0 <= k < cs.len() ==> instance_wf(#[trigger] cs[k])) by {
                            assert(cs[0] == c);
                            assert(forall|k: int|
                                1 <= k < cs.len() ==> cs[k] == components_of(rest)[k - 1]);
                        }
                    },
                    _ => {
                        assert(components_of(whole) =~= components_of(rest));
                    },
                }
            }
        },
        None => {},
    }
}

/// Every component instance a successful whole-file parse yields is bounded:
/// its position and rotation entries are within the magnitude the number
/// grammar accepts, so the aggregate can store it.
pub proof fn lemma_parsed_schema_wf(s: Seq<u8>)
    ensures
        sp_schema_file(s) matches Some(es) ==> all_instances_wf(components_of(es)),
{
    if sp_schema_file(s) is Some {
        let i1 = sp_tag(s, 0, "EESchema Schematic File Version".spec_bytes()).unwrap();
        let i2 = sp_space1(s, i1).unwrap();
        let i3 = sp_digits1(s, i2).unwrap();
        let i4 = sp_line_ending(s, i3).unwrap();
        let i5 = sp_till_consume(s, i4, "$EndDescr".spec_bytes()).unwrap();
        let i6 = sp_line_ending(s, i5).unwrap();
        lemma_positions_in_range(s);
        assert(0 <= i6 <= s.len());
        lemma_entry_list_instances_wf(s, i6);
    }
}

/// Offsets a successful header parse yields stay within the input.
proof fn lemma_positions_in_range(s: Seq<u8>)
    ensures
        sp_schema_file(s) is Some ==> ({
            let i1 = sp_tag(s, 0, "EESchema Schematic File Version".spec_bytes()).unwrap();
            let i2 = sp_space1(s, i1).unwrap();
            let i3 = sp_digits1(s, i2).unwrap();
            let i4 = sp_line_ending(s, i3).unwrap();
            let i5 = sp_till_consume(s, i4, "$EndDescr".spec_bytes()).unwrap();
            let i6 = sp_line_ending(s, i5).unwrap();
            0 <= i6 <= s.len()
        }),
{
}

/// The component instances among the entries, in order.
pub open spec fn components_of(es: Seq<SchemaEntryV>) -> Seq<ComponentInstanceV>
    decreases es.len(),
{
    if es.len() == 0 {
        Seq::empty()
    } else {
        let rest = components_of(es.drop_first());
        match es.first() {
            SchemaEntryV::ComponentInstance(c) => seq![c] + rest,
            _ => rest,
        }
    }
}

/// The wire segments among the entries, in order.
pub open spec fn wires_of(es: Seq<SchemaEntryV>) -> Seq<WireSegment>
    decreases es.len(),
{
    if es.len() == 0 {
        Seq::empty()
    } else {
        let rest = wires_of(es.drop_first());
        match es.first() {
            SchemaEntryV::Wire(w) => seq![w] + rest,
            _ => rest,
        }
    }
}

/// The labels among the entries, in order.
pub open spec fn labels_of(es: Seq<SchemaEntryV>) -> Seq<LabelV>
    decreases es.len(),
{
    if es.len() == 0 {
        Seq::empty()
    } else {
        let rest = labels_of(es.drop_first());
        match es.first() {
            SchemaEntryV::Label(l) => seq![l] + rest,
            _ => rest,
        }
    }
}

/// The junctions among the entries, in order.
pub open spec fn junctions_of(es: Seq<SchemaEntryV>) -> Seq<Junction>
    decreases es.len(),
{
    if es.len() == 0 {
        Seq::empty()
    } else {
        let rest = junctions_of(es.drop_first());
        match es.first() {
            SchemaEntryV::Junction(j) => seq![j] + rest,
            _ => rest,
        }
    }
}

/// The view of a component-instance vector.
pub open spec fn comps_view(v: Seq<ComponentInstance>) -> Seq<ComponentInstanceV> {
    Seq::new(v.len(), |i: int| v[i]@)
}

/// The view of a label vector.
pub open spec fn labels_view(v: Seq<Label>) -> Seq<LabelV> {
    Seq::new(v.len(), |i: int| v[i]@)
}

} // verus!
