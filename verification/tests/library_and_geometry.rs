use copper::component::Component;
use copper::geometry::{
    GraphicElement, Justify, PinOrientation, Point, Point2, TextOrientation, Vector2, AABB,
};
use copper::parsing::library::parse_components;
use copper::component_libraries::ComponentLibraries;

const SAMPLE_LIBRARY: &'static str = r#"EESchema-LIBRARY Version 2.3
#encoding utf-8
DEF AMS1117 U 0 40 Y Y 1 F N
F0 "U" 0 100 50 H V C CNN
DRAW
S -200 -150 200 150 0 1 10 f
C 0 0 70 0 1 10 N
A -50 0 50 -900 900 0 1 10 N -50 -50 -50 50
P 3 0 1 0 -50 50 50 50 -50 -50 N
X GND 1 0 -250 100 U 50 50 1 1 W
X VIN 2 -300 0 100 R 50 50 1 1 W NI
T 0 -150 100 60 0 0 1 Label~Text
ENDDRAW
ENDDEF
"#;

fn parse_sample() -> Vec<Component> {
    parse_components(SAMPLE_LIBRARY.as_bytes()).unwrap()
}

#[test]
fn library_parse_component_block() {
    let comps = parse_sample();
    assert_eq!(comps.len(), 1);
    assert_eq!(comps[0].name, "AMS1117");
    assert_eq!(comps[0].elements.len(), 7);
}

#[test]
fn library_parse_rectangle_negates_y() {
    let comps = parse_sample();
    match &comps[0].elements[0] {
        GraphicElement::Rectangle { start, end, unit, convert } => {
            assert_eq!(*start, Point { x: -200, y: 150 });
            assert_eq!(*end, Point { x: 200, y: -150 });
            assert_eq!(*unit, 0);
            assert_eq!(*convert, 1);
        },
        other => panic!("expected a rectangle, got {:?}", other),
    }
}

#[test]
fn library_parse_circle_and_arc() {
    let comps = parse_sample();
    match &comps[0].elements[1] {
        GraphicElement::Circle { center, radius, thickness, filled, .. } => {
            assert_eq!(*center, Point { x: 0, y: 0 });
            assert_eq!(*radius, 70);
            assert_eq!(*thickness, 10);
            assert!(!*filled);
        },
        other => panic!("expected a circle, got {:?}", other),
    }
    match &comps[0].elements[2] {
        GraphicElement::CircleArc { start_angle, end_angle, start_coord, end_coord, .. } => {
            assert_eq!(*start_angle, -900);
            assert_eq!(*end_angle, 900);
            assert_eq!(*start_coord, Point { x: -50, y: 50 });
            assert_eq!(*end_coord, Point { x: -50, y: -50 });
        },
        other => panic!("expected an arc, got {:?}", other),
    }
}

#[test]
fn library_parse_polygon_points() {
    let comps = parse_sample();
    match &comps[0].elements[3] {
        GraphicElement::Polygon { points, thickness, .. } => {
            assert_eq!(points.len(), 3);
            assert_eq!(points[0], Point { x: -50, y: -50 });
            assert_eq!(points[1], Point { x: 50, y: -50 });
            assert_eq!(points[2], Point { x: -50, y: 50 });
            assert_eq!(*thickness, 0);
        },
        other => panic!("expected a polygon, got {:?}", other),
    }
}

#[test]
fn library_parse_pins() {
    let comps = parse_sample();
    match &comps[0].elements[4] {
        GraphicElement::Pin {
            orientation,
            name,
            number,
            position,
            length,
            number_size,
            name_size,
            invisible,
        } => {
            assert_eq!(*orientation, PinOrientation::Up);
            assert_eq!(name.as_deref(), Some("GND"));
            assert_eq!(*number, 1);
            assert_eq!(*position, Point { x: 0, y: 250 });
            assert_eq!(*length, 100);
            assert_eq!(*number_size, 50);
            assert_eq!(*name_size, 50);
            assert!(!*invisible);
        },
        other => panic!("expected a pin, got {:?}", other),
    }
    match &comps[0].elements[5] {
        GraphicElement::Pin { orientation, invisible, position, .. } => {
            assert_eq!(*orientation, PinOrientation::Right);
            assert_eq!(*position, Point { x: -300, y: 0 });
            assert!(*invisible);
        },
        other => panic!("expected a pin, got {:?}", other),
    }
}

#[test]
fn library_parse_text_field() {
    let comps = parse_sample();
    match &comps[0].elements[6] {
        GraphicElement::TextField { content, orientation, position, .. } => {
            assert_eq!(content, "Label~Text");
            assert_eq!(*orientation, TextOrientation::Horizontal);
            assert_eq!(*position, Point { x: -150, y: -100 });
        },
        other => panic!("expected a text field, got {:?}", other),
    }
}

#[test]
fn library_parse_malformed_record_fails() {
    let text = "EESchema-LIBRARY Version 2.3\nDEF BAD U 0 40 Y Y 1 F N\nDRAW\nS -200 -150 200\nENDDRAW\nENDDEF\n";
    assert!(parse_components(text.as_bytes()).is_none());
}

#[test]
fn component_bounding_box_folds_elements() {
    let component = Component {
        name: String::from("R"),
        elements: vec![
            GraphicElement::Rectangle {
                start: Point { x: -100, y: -100 },
                end: Point { x: 200, y: 150 },
                unit: 0,
                convert: 1,
            },
            GraphicElement::Circle {
                center: Point { x: 250, y: 0 },
                radius: 60,
                unit: 0,
                convert: 1,
                thickness: 6,
                filled: false,
            },
        ],
    };
    let bb = component.get_boundingbox();
    assert_eq!(bb, AABB::new(Point2::new(-100, -100), Point2::new(310, 150)));
}

#[test]
fn pin_orientation_unit_vectors() {
    assert_eq!(PinOrientation::Up.unit_vec(), Vector2::new(0, -1));
    assert_eq!(PinOrientation::Down.unit_vec(), Vector2::new(0, 1));
    assert_eq!(PinOrientation::Right.unit_vec(), Vector2::new(1, 0));
    assert_eq!(PinOrientation::Left.unit_vec(), Vector2::new(-1, 0));
}

#[test]
fn pin_orientation_text_layout_tables() {
    assert_eq!(PinOrientation::Up.text_orientation(), TextOrientation::Vertical);
    assert_eq!(PinOrientation::Down.text_orientation(), TextOrientation::Vertical);
    assert_eq!(PinOrientation::Right.text_orientation(), TextOrientation::Horizontal);
    assert_eq!(PinOrientation::Left.text_orientation(), TextOrientation::Horizontal);

    assert_eq!(PinOrientation::Up.number_justify(), Justify::Right);
    assert_eq!(PinOrientation::Down.number_justify(), Justify::Left);
    assert_eq!(PinOrientation::Right.number_justify(), Justify::Right);
    assert_eq!(PinOrientation::Left.number_justify(), Justify::Left);

    assert_eq!(PinOrientation::Up.name_justify(), Justify::Left);
    assert_eq!(PinOrientation::Down.name_justify(), Justify::Right);
    assert_eq!(PinOrientation::Right.name_justify(), Justify::Left);
    assert_eq!(PinOrientation::Left.name_justify(), Justify::Right);
}

#[test]
fn merge_is_commutative_and_associative_on_samples() {
    let a = AABB::new(Point2::new(-5, 0), Point2::new(10, 4));
    let b = AABB::new(Point2::new(-2, -9), Point2::new(3, 20));
    let c = AABB::new(Point2::new(7, 7), Point2::new(8, 8));

    let mut ab = a;
    ab.merge(&b);
    let mut ba = b;
    ba.merge(&a);
    assert_eq!(ab, ba);

    let mut ab_c = ab;
    ab_c.merge(&c);
    let mut bc = b;
    bc.merge(&c);
    let mut a_bc = a;
    a_bc.merge(&bc);
    assert_eq!(ab_c, a_bc);
}

#[test]
fn translate_moves_both_corners() {
    let b = AABB::new(Point2::new(-5, 0), Point2::new(10, 4));
    let t = b.translate(Vector2::new(100, -7));
    assert_eq!(t, AABB::new(Point2::new(95, -7), Point2::new(110, -3)));
}

#[test]
fn libraries_load_from_bytes() {
    let mut libraries = ComponentLibraries::new();
    assert!(libraries.load_library(String::from("device"), SAMPLE_LIBRARY.as_bytes()));
    assert!(!libraries.load_library(String::from("junk"), b"not a library"));

    assert_eq!(libraries.get_libraries(), vec![String::from("device")]);
    let found = libraries
        .get_component_by_name(&String::from("AMS1117"))
        .unwrap();
    assert_eq!(found.elements.len(), 7);
    assert!(libraries
        .get_component_by_name_and_lib(&String::from("AMS1117"), &String::from("device"))
        .is_some());
    assert!(libraries
        .get_components_from_lib(&String::from("missing"))
        .is_none());
}
