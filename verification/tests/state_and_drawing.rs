use copper::component::{Component, ComponentInstance};
use copper::component_libraries::ComponentLibraries;
use copper::event::{BusListener, EventBus, EventMessage};
use copper::geometry::{GraphicElement, Matrix4, Point, Point2, Vector2, AABB};
use copper::identity::Identity;
use copper::parsing::schema::{WireSegment, WireType};
use copper::schema::{Schema, SchemaError};
use copper::schema_drawer::{Drawable, SchemaDrawer};

fn identity_matrix() -> Matrix4 {
    Matrix4 {
        m00: 1, m01: 0, m02: 0, m03: 0,
        m10: 0, m11: 1, m12: 0, m13: 0,
        m20: 0, m21: 0, m22: 1, m23: 0,
        m30: 0, m31: 0, m32: 0, m33: 1,
    }
}

fn sample_instance(name: &str) -> ComponentInstance {
    ComponentInstance {
        uuid: Identity::nil(),
        name: String::from(name),
        reference: String::from("U1"),
        position: Point2::new(0, 0),
        rotation: identity_matrix(),
    }
}

fn sample_wire(x: i64) -> WireSegment {
    WireSegment {
        uuid: Identity::nil(),
        kind: WireType::Wire,
        start: Point2::new(x, 0),
        end: Point2::new(x, 100),
    }
}

fn rect_component(name: &str) -> Component {
    Component {
        name: String::from(name),
        elements: vec![GraphicElement::Rectangle {
            start: Point { x: -100, y: -100 },
            end: Point { x: 200, y: 150 },
            unit: 0,
            convert: 1,
        }],
    }
}

#[test]
fn add_component_assigns_fresh_identity() {
    let mut schema = Schema::new(EventBus::new());
    let id1 = schema.add_component(sample_instance("GND")).unwrap();
    let id2 = schema.add_component(sample_instance("GND")).unwrap();

    assert!(!id1.is_nil());
    assert!(!id2.is_nil());
    assert_ne!(id1, id2);
    assert_eq!(schema.components_len(), 2);
    assert_eq!(schema.component_at(0).uuid, id1);
}

#[test]
fn rotate_component_four_times_restores_rotation() {
    let mut schema = Schema::new(EventBus::new());
    let id = schema.add_component(sample_instance("GND")).unwrap();
    let before = schema.get_component_instance(&id).unwrap().rotation;

    for _ in 0..4 {
        schema.rotate_component(&id);
    }

    let after = schema.get_component_instance(&id).unwrap().rotation;
    assert_eq!(before, after);
}

#[test]
fn rotate_component_composes_with_prior_rotation() {
    let mut schema = Schema::new(EventBus::new());
    let id = schema.add_component(sample_instance("GND")).unwrap();

    schema.rotate_component(&id);
    let once = schema.get_component_instance(&id).unwrap().rotation;
    // identity * quarter turn: first column becomes the old second column,
    // second column the negated old first column.
    assert_eq!(once.m00, 0);
    assert_eq!(once.m01, -1);
    assert_eq!(once.m10, 1);
    assert_eq!(once.m11, 0);

    schema.rotate_component(&id);
    let twice = schema.get_component_instance(&id).unwrap().rotation;
    // The second turn composes with the first, giving a half turn, instead
    // of replacing it.
    assert_eq!(twice.m00, -1);
    assert_eq!(twice.m01, 0);
    assert_eq!(twice.m10, 0);
    assert_eq!(twice.m11, -1);
}

#[test]
fn move_component_sets_absolute_position() {
    let mut schema = Schema::new(EventBus::new());
    let id = schema.add_component(sample_instance("GND")).unwrap();

    schema.move_component(&id, Vector2::new(70, -30));
    schema.move_component(&id, Vector2::new(5, 9));

    // The move is origin + translation, not a relative shift.
    let inst = schema.get_component_instance(&id).unwrap();
    assert_eq!(inst.position, Point2::new(5, 9));
}

#[test]
fn update_wire_replaces_by_identity() {
    let mut schema = Schema::new(EventBus::new());
    schema.add_wire(sample_wire(10));
    let id = schema.wire_at(0).uuid;

    let replacement = WireSegment {
        uuid: id,
        kind: WireType::Bus,
        start: Point2::new(1, 2),
        end: Point2::new(3, 4),
    };
    assert!(schema.update_wire(replacement).is_ok());
    assert_eq!(schema.wires_len(), 1);

    let stored = schema.get_wire_instance(id).unwrap();
    assert_eq!(stored.kind, WireType::Bus);
    assert_eq!(stored.start, Point2::new(1, 2));
}

#[test]
fn update_wire_unknown_identity_is_not_found() {
    let mut schema = Schema::new(EventBus::new());
    let stray = WireSegment {
        uuid: Identity { hi: 7, lo: 9 },
        kind: WireType::Wire,
        start: Point2::new(0, 0),
        end: Point2::new(1, 1),
    };
    assert_eq!(schema.update_wire(stray), Err(SchemaError::NotFound));
    assert_eq!(schema.wires_len(), 0);
}

#[test]
fn queries_with_unknown_identity_are_not_found() {
    let schema = Schema::new(EventBus::new());
    let id = Identity { hi: 1, lo: 2 };
    assert!(schema.get_component_instance(&id).is_err());
    assert!(schema.get_wire_instance(id).is_err());
}

#[test]
fn bounding_box_of_empty_schema_is_degenerate_origin() {
    let schema = Schema::new(EventBus::new());
    let libraries = ComponentLibraries::new();

    let bb = schema.get_bounding_box(&libraries);
    assert_eq!(bb, AABB::new(Point2::new(0, 0), Point2::new(0, 0)));
}

#[test]
fn bounding_box_of_single_instance_is_its_own_box() {
    let mut libraries = ComponentLibraries::new();
    libraries.add_library(String::from("device"), vec![rect_component("R")]);

    let mut schema = Schema::new(EventBus::new());
    let id = schema.add_component(sample_instance("R")).unwrap();

    let bb = schema.get_bounding_box(&libraries);
    let component = libraries.get_component_by_name(&String::from("R")).unwrap();
    let own = schema
        .get_component_instance(&id)
        .unwrap()
        .get_boundingbox(component);
    assert_eq!(bb, own);
    assert_eq!(bb, AABB::new(Point2::new(-100, -100), Point2::new(200, 150)));
}

#[test]
fn bounding_box_of_single_off_origin_instance_is_its_own_box() {
    let mut libraries = ComponentLibraries::new();
    libraries.add_library(String::from("device"), vec![rect_component("R")]);

    let mut schema = Schema::new(EventBus::new());
    let mut inst = sample_instance("R");
    inst.position = Point2::new(500, 500);
    schema.add_component(inst).unwrap();

    // The instance's box lies wholly away from the origin; the reported box
    // is exactly its own, with no origin pulled in.
    let bb = schema.get_bounding_box(&libraries);
    assert_eq!(bb, AABB::new(Point2::new(400, 400), Point2::new(700, 650)));
}

#[test]
fn bounding_box_skips_unknown_library_names() {
    let mut libraries = ComponentLibraries::new();
    libraries.add_library(String::from("device"), vec![rect_component("R")]);

    let mut schema = Schema::new(EventBus::new());
    assert!(schema.add_component(sample_instance("MISSING")).is_some());

    let bb = schema.get_bounding_box(&libraries);
    assert_eq!(bb, AABB::new(Point2::new(0, 0), Point2::new(0, 0)));
}

#[test]
fn drawer_add_then_update_keeps_one_entry() {
    let mut drawer = SchemaDrawer::new(ComponentLibraries::new());
    let id = Identity { hi: 11, lo: 22 };
    let w1 = WireSegment {
        uuid: id,
        kind: WireType::Wire,
        start: Point2::new(0, 0),
        end: Point2::new(10, 0),
    };
    let w2 = WireSegment {
        uuid: id,
        kind: WireType::Wire,
        start: Point2::new(5, 5),
        end: Point2::new(6, 6),
    };

    drawer.add_wire(w1);
    drawer.update_wire(w2);

    assert_eq!(drawer.len(), 1);
    match drawer.get_drawable(&id).unwrap() {
        Drawable::Wire(dw) => {
            assert_eq!(dw.start, Point2::new(5, 5));
            assert_eq!(dw.end, Point2::new(6, 6));
        },
        _ => panic!("expected a wire representation"),
    }
}

#[test]
fn drawer_remove_absent_is_noop() {
    let mut drawer = SchemaDrawer::new(ComponentLibraries::new());
    let id = Identity { hi: 1, lo: 1 };
    let present = WireSegment {
        uuid: id,
        kind: WireType::Wire,
        start: Point2::new(0, 0),
        end: Point2::new(1, 1),
    };
    drawer.add_wire(present);
    assert_eq!(drawer.len(), 1);

    let absent = WireSegment {
        uuid: Identity { hi: 9, lo: 9 },
        kind: WireType::Wire,
        start: Point2::new(0, 0),
        end: Point2::new(1, 1),
    };
    drawer.remove_wire(absent);

    assert_eq!(drawer.len(), 1);
    assert!(drawer.get_drawable(&id).is_some());
}

#[test]
fn bus_delivers_mutations_to_drawer() {
    let mut libraries = ComponentLibraries::new();
    libraries.add_library(String::from("device"), vec![rect_component("R")]);

    let mut bus = EventBus::new();
    bus.add_listener(BusListener::Drawer(SchemaDrawer::new(libraries)));

    let mut schema = Schema::new(bus);
    let comp_id = schema.add_component(sample_instance("R")).unwrap();
    schema.add_wire(sample_wire(40));
    let wire_id = schema.wire_at(0).uuid;
    schema.rotate_component(&comp_id);

    let BusListener::Drawer(drawer) = schema.event_bus().listener_at(0);
    assert_eq!(drawer.len(), 2);
    assert!(drawer.get_drawable(&comp_id).is_some());
    assert!(drawer.get_drawable(&wire_id).is_some());
    match drawer.get_drawable(&comp_id).unwrap() {
        Drawable::Component(dc) => {
            assert_eq!(dc.name, "R");
            // The cached transform reflects the rotation that followed the
            // insertion.
            assert_eq!(dc.transform.m00, 0);
            assert_eq!(dc.transform.m10, 1);
        },
        _ => panic!("expected a component representation"),
    }
}

#[test]
fn drawer_send_reaches_listeners_in_order() {
    let mut bus = EventBus::new();
    bus.add_listener(BusListener::Drawer(SchemaDrawer::new(ComponentLibraries::new())));
    bus.add_listener(BusListener::Drawer(SchemaDrawer::new(ComponentLibraries::new())));
    assert_eq!(bus.len(), 2);

    let w = sample_wire(1);
    let stamped = WireSegment { uuid: Identity { hi: 3, lo: 4 }, ..w };
    bus.send(&EventMessage::AddWire(stamped));

    for i in 0..2 {
        let BusListener::Drawer(drawer) = bus.listener_at(i);
        assert_eq!(drawer.len(), 1);
    }
}

#[test]
fn schema_load_populates_from_bytes() {
    let text = "EESchema Schematic File Version 3\n$Descr A4 100 100\n$EndDescr\n$Comp\nL R R1\nU 1 1 558C20D6\nP 300 400\n\t1    300 400\n\t1    0    0    -1\n$EndComp\nWire Wire Line\n	100 200 300 400\n$EndSCHEMATC\n";
    let mut schema = Schema::new(EventBus::new());

    assert!(schema.load(text.as_bytes()));
    assert_eq!(schema.components_len(), 1);
    assert_eq!(schema.wires_len(), 1);
    assert_eq!(schema.component_at(0).name, "R");
    assert_eq!(schema.component_at(0).position, Point2::new(300, -400));
    assert!(!schema.component_at(0).uuid.is_nil());

    assert!(!schema.load(b"not a schematic"));
    assert_eq!(schema.components_len(), 1);
}
