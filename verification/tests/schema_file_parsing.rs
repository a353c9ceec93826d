use copper::geometry::Point;
use copper::schema_file::{component_instance, ComponentInstance};

const SAMPLE_COMPONENT: &'static str = r##"$Comp
L GND #PWR?
U 1 1 558C20D6
P 4950 2600
F 0 "#PWR?" H 4950 2350 50  0001 C CNN
F 1 "GND" H 4950 2450 50  0000 C CNN
F 2 "" H 4950 2600 60  0000 C CNN
F 3 "" H 4950 2600 60  0000 C CNN
	1    4950 2600
	1    0    0    -1
$EndComp"##;

fn parse_cmp() -> ComponentInstance {
    let (_, cmp) = component_instance(SAMPLE_COMPONENT.as_bytes(), 0).unwrap();

    cmp
}

#[test]
fn mod_parse_component_name() {
    let cmp = parse_cmp();

    assert_eq!(cmp.name, "GND");
}

#[test]
fn mod_parse_reference() {
    let cmp = parse_cmp();

    assert_eq!(cmp.reference, "#PWR?");
}

#[test]
fn mod_parse_position() {
    let cmp = parse_cmp();

    assert_eq!(cmp.position, Point { x: 4950, y: -2600 });
}

#[test]
fn mod_parse_whole_input() {
    let cmp = ComponentInstance::parse(SAMPLE_COMPONENT.as_bytes()).unwrap();

    assert_eq!(cmp.name, "GND");
    assert_eq!(cmp.reference, "#PWR?");
}

#[test]
fn mod_parse_missing_sentinel_fails() {
    let truncated = "$Comp\nL GND #PWR?\nU 1 1 558C20D6\nP 4950 2600\n";
    assert!(ComponentInstance::parse(truncated.as_bytes()).is_none());
}
