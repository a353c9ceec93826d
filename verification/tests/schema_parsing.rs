use copper::geometry::Point2;
use copper::parsing::schema::{
    p_component_instance, p_wire_instance, p_label, p_junction, p_no_conn, SchemaFile, WireType,
};
use copper::component::ComponentInstance;

const SAMPLE_COMPONENT: &'static str = r##"$Comp
L GND #PWR?
U 1 1 558C20D6
P 4950 2600
F 0 "#PWR?" H 4950 2350 50  0001 C CNN
F 1 "GND" H 4950 2450 50  0000 C CNN
F 2 "" H 4950 2600 60  0000 C CNN
F 3 "" H 4950 2600 60  0000 C CNN
	1    4950 2600
	1    0    0    -1
$EndComp
"##;

const SAMPLE_WIRE: &'static str = r#"Wire Wire Line
3300 1800 3900 1800
"#;

const SAMPLE_SCHEMA_FILE: &'static str = r#"EESchema Schematic File Version 3
LIBS:PSU-rescue
LIBS:bourns
LIBS:buydisplay
LIBS:cirrus
LIBS:cui
LIBS:fairchild
LIBS:linear_tech
LIBS:micrel
LIBS:onsemi
LIBS:wurth
LIBS:antennas
LIBS:PSU-cache
EELAYER 26 0
EELAYER END
$Descr A3 16535 11693
encoding utf-8
Sheet 1 1
Title "PSU"
Date "2017-10-05"
Rev "V2"
Comp "Noah Huesser / yatekii@yatekii.ch"
Comment1 ""
Comment2 ""
Comment3 ""
Comment4 ""
$EndDescr
Text Notes 8050 10900 0    276  Italic 55
Mesh Node\nr3 autumn 2017\nby yatekii
Wire Wire Line
	7150 3950 7300 3950
Connection ~ 7150 4150
Connection ~ 7750 4350
Wire Wire Line
	10450 4650 10450 4700
Wire Wire Line
	3500 9450 1700 9450
$EndSCHEMATC
"#;

const SAMPLE_LABEL: &'static str = r#"Text Label 15250 1100 2    60   ~ 0
LED1
"#;

fn parse_cmp() -> ComponentInstance {
    let (_, cmp) = p_component_instance(SAMPLE_COMPONENT.as_bytes(), 0).unwrap();
    cmp
}

#[test]
fn schema_parse_component_name() {
    let cmp = parse_cmp();

    assert_eq!(cmp.name, "GND");
}

#[test]
fn schema_parse_reference() {
    let cmp = parse_cmp();

    assert_eq!(cmp.reference, "#PWR?");
}

#[test]
fn schema_parse_position() {
    let cmp = parse_cmp();

    assert_eq!(cmp.position, Point2::new(4950, -2600));
}

#[test]
fn parse_wire() {
    let (_, wire) = p_wire_instance(SAMPLE_WIRE.as_bytes(), 0).unwrap();

    assert_eq!(wire.kind, WireType::Wire);
    assert_eq!(wire.start, Point2::new(3300, -1800));
    assert_eq!(wire.end, Point2::new(3900, -1800));
}

#[test]
fn parse_file() {
    let file = SchemaFile::parse(SAMPLE_SCHEMA_FILE.as_bytes()).unwrap();

    assert_eq!(file.components.len(), 0);
}

#[test]
fn parse_label() {
    let (_, label) = p_label(SAMPLE_LABEL.as_bytes(), 0).unwrap();

    assert_eq!(label.text, "LED1");
    assert_eq!(label.position, Point2::new(15250, -1100));
}

#[test]
fn parse_file_counts() {
    let file = SchemaFile::parse(SAMPLE_SCHEMA_FILE.as_bytes()).unwrap();

    assert_eq!(file.wires.len(), 3);
    assert_eq!(file.junctions.len(), 2);
    assert_eq!(file.labels.len(), 0);
}

#[test]
fn parse_junction_negates_y() {
    let (_, junction) = p_junction(b"Connection ~ 7150 4150\n", 0).unwrap();

    assert_eq!(junction.position, Point2::new(7150, -4150));
}

#[test]
fn parse_no_conn_negates_y() {
    let (_, nc) = p_no_conn(b"NoConn ~ 4800 1350\n", 0).unwrap();

    assert_eq!(nc.position, Point2::new(4800, -1350));
}

#[test]
fn parse_bus_and_notes_lines() {
    let (_, bus) = p_wire_instance(b"Wire Bus Line\n	500 600 700 800\n", 0).unwrap();
    assert_eq!(bus.kind, WireType::Bus);
    assert_eq!(bus.start, Point2::new(500, -600));
    assert_eq!(bus.end, Point2::new(700, -800));

    let (_, dotted) = p_wire_instance(b"Wire Notes Line\n	10 20 30 40 \n", 0).unwrap();
    assert_eq!(dotted.kind, WireType::Dotted);
    assert_eq!(dotted.start, Point2::new(10, -20));
    assert_eq!(dotted.end, Point2::new(30, -40));
}

#[test]
fn parse_component_rotation_matrix() {
    let block = "$Comp\nL GND #PWR01\nU 1 1 558C20D6\nP 100 200\n\t1    100 200\n\t0    1    -1   0\n$EndComp\n";
    let (_, cmp) = p_component_instance(block.as_bytes(), 0).unwrap();
    // The file rows (a, b, c, d) = (0, 1, -1, 0) are stored as the block
    // [[a, c], [-b, -d]] = [[0, -1], [-1, 0]].
    assert_eq!(cmp.rotation.m00, 0);
    assert_eq!(cmp.rotation.m01, -1);
    assert_eq!(cmp.rotation.m10, -1);
    assert_eq!(cmp.rotation.m11, 0);
    assert_eq!(cmp.rotation.m22, 1);
    assert_eq!(cmp.rotation.m33, 1);
}

#[test]
fn parse_file_missing_end_sentinel_fails() {
    // Every entry before the truncation point is well-formed, but the
    // $EndSCHEMATC sentinel is missing, so the parse produces nothing.
    let text = "EESchema Schematic File Version 3\n$Descr A4 100 100\n$EndDescr\nWire Wire Line\n	100 200 300 400\nConnection ~ 500 600\n";
    assert!(SchemaFile::parse(text.as_bytes()).is_none());
}

#[test]
fn parse_file_rejects_oversize_number() {
    // A coordinate beyond the accepted magnitude aborts the parse like any
    // other malformed number.
    let junction = b"Connection ~ 99999999999 0\n";
    assert!(p_junction(junction, 0).is_none());
}

#[test]
fn parse_synthetic_file_entry_counts() {
    let mut text = String::from("EESchema Schematic File Version 3\n$Descr A3 1 1\n$EndDescr\n");
    for i in 0..160 {
        text.push_str(&format!(
            "$Comp\nL GND #PWR{}\nU 1 1 558C20D6\nP {} 2600\nF 0 \"#PWR?\" H 4950 2350 50  0001 C CNN\n\t1    {} 2600\n\t1    0    0    -1\n$EndComp\n",
            i,
            100 + i,
            100 + i,
        ));
    }
    for i in 0..79 {
        text.push_str(&format!("Text Label 15250 {} 2    60   ~ 0\nLED{}\n", 1000 + i, i));
    }
    text.push_str("$EndSCHEMATC\n");

    let parsed = SchemaFile::parse(text.as_bytes()).unwrap();

    assert_eq!(160, parsed.components.len());

    assert_eq!(79, parsed.labels.len());
}
