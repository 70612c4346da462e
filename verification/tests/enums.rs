use catalyze::ast::container::ContainerKey;
use catalyze::ast::enums::WellKnownEnum;
use catalyze::ast::hydrate::Hydrate;
use catalyze::ast::location::{Detail, Enum, EnumValue, Span};
use catalyze::ast::node::{FileKey, NodeKey, PackageKey};
use catalyze::ast::reserved::ReservedRange;
use catalyze::ast::FullyQualifiedName;
use catalyze::descriptor::{EnumDescriptorProto, EnumOptions, EnumValueDescriptorProto, EnumValueOptions};

fn detail(path: &[i32]) -> Detail {
    Detail {
        path: path.to_vec(),
        span: Span { start_line: 0, start_column: 0, end_line: 0, end_column: 9 },
        comments: None,
    }
}

fn value(name: &str, number: i32) -> EnumValueDescriptorProto {
    EnumValueDescriptorProto {
        name: Some(name.to_string()),
        number: Some(number),
        options: Some(EnumValueOptions { deprecated: None, uninterpreted_option: Vec::new() }),
    }
}

fn color() -> (EnumDescriptorProto, Enum) {
    let d = EnumDescriptorProto {
        name: Some("Color".to_string()),
        value: vec![value("RED", 0), value("GREEN", 1)],
        options: Some(EnumOptions { allow_alias: None, deprecated: Some(true), uninterpreted_option: Vec::new() }),
        reserved_range: vec![ReservedRange { start: Some(3), end: Some(4) }],
        reserved_name: Vec::new(),
    };
    let l = Enum {
        detail: detail(&[5, 0]),
        values: vec![EnumValue { detail: detail(&[5, 0, 2, 0]) }, EnumValue { detail: detail(&[5, 0, 2, 1]) }],
    };
    (d, l)
}

#[test]
fn hydrate_enum_values_names_each_value_within_the_enum() {
    let mut h = Hydrate::new();
    let fqn = FullyQualifiedName::from(".acme.Color".to_string());
    let key = h.enums.lock().get_or_insert_key(fqn.duplicate());
    let (d, l) = color();
    let (values, nodes) = h.hydrate_enum_values(d.value, l.values, key, fqn, FileKey(1), None);
    assert_eq!(values.len(), 2);
    assert_eq!(values[0].1.as_str(), ".acme.Color.RED");
    assert_eq!(values[1].2, "GREEN");
    assert_eq!(nodes[1].1, NodeKey::EnumValue(values[1].0));
    let table = h.enum_values.lock();
    let green = table.get(values[1].0);
    assert_eq!(green.number(), 1);
    assert_eq!(green.enum_key, key);
    assert_eq!(green.span.end_column, 9);
}

#[test]
fn hydrate_enum_fills_enum_and_values() {
    let mut h = Hydrate::new();
    let (d, l) = color();
    let fqn = FullyQualifiedName::from(".acme.Color".to_string());
    let ((key, f, name), nodes) =
        h.hydrate_enum(d, fqn, l, ContainerKey::File(FileKey(1)), FileKey(1), Some(PackageKey(9)));
    assert_eq!(f.as_str(), ".acme.Color");
    assert_eq!(name, "Color");
    assert_eq!(nodes.len(), 3);
    assert_eq!(nodes[0].1, NodeKey::Enum(key));
    assert_eq!(nodes[2].0.as_str(), ".acme.Color.GREEN");
    let table = h.enums.lock();
    let e = table.get(key);
    assert!(e.deprecated);
    assert_eq!(e.values.as_slice().len(), 2);
    assert_eq!(e.values.by_name("GREEN"), Some(nodes_green_key(&nodes)));
    assert_eq!(e.reserved.ranges[0].start(), 3);
    assert_eq!(e.well_known, None);
    assert_eq!(e.node_path, vec![5, 0]);
}

#[test]
fn enums_of_the_well_known_package_are_recognised() {
    let mut h = Hydrate::new();
    let (_, _) = h.hydrate_package(Some("google.protobuf".to_string()));
    let well_known = h.well_known_package;
    let d = EnumDescriptorProto {
        name: Some("NullValue".to_string()),
        value: Vec::new(),
        options: None,
        reserved_range: Vec::new(),
        reserved_name: Vec::new(),
    };
    let l = Enum { detail: detail(&[5, 0]), values: Vec::new() };
    let fqn = FullyQualifiedName::from(".google.protobuf.NullValue".to_string());
    let ((key, _, _), _) =
        h.hydrate_enum(d, fqn, l, ContainerKey::File(FileKey(0)), FileKey(0), Some(well_known));
    assert_eq!(h.enums.lock().get(key).well_known, Some(WellKnownEnum::NullValue));
    assert!(h.is_well_known(Some(well_known)));
    assert!(!h.is_well_known(None));
}

#[test]
fn hydrate_enums_lists_each_enum_twice_then_its_values() {
    let mut h = Hydrate::new();
    let (a, la) = color();
    let b = EnumDescriptorProto {
        name: Some("Size".to_string()),
        value: vec![value("SMALL", 0)],
        options: None,
        reserved_range: Vec::new(),
        reserved_name: Vec::new(),
    };
    let lb = Enum { detail: detail(&[5, 1]), values: vec![EnumValue { detail: detail(&[5, 1, 2, 0]) }] };
    let container = FullyQualifiedName::from(".acme".to_string());
    let (enums, nodes) =
        h.hydrate_enums(vec![a, b], vec![la, lb], ContainerKey::File(FileKey(2)), container, FileKey(2), None);
    assert_eq!(enums.len(), 2);
    assert_eq!(enums[1].1.as_str(), ".acme.Size");
    assert_eq!(nodes.len(), 2 * 2 + 3);
    assert_eq!(nodes[0], nodes[1]);
    assert_eq!(nodes[4].0.as_str(), ".acme.Size");
    assert_eq!(nodes[6].0.as_str(), ".acme.Size.SMALL");
}

#[test]
fn hydrate_enums_keeps_the_last_value_of_a_name() {
    let mut h = Hydrate::new();
    let (a, la) = color();
    let (mut b, lb) = color();
    b.value = vec![value("RED", 7), value("GREEN", 8)];
    let container = FullyQualifiedName::from(".acme".to_string());
    let (enums, nodes) =
        h.hydrate_enums(vec![a, b], vec![la, lb], ContainerKey::File(FileKey(2)), container, FileKey(2), None);
    assert_eq!(enums[0].0, enums[1].0);
    assert_eq!(nodes.len(), 2 * 2 + 4);
    assert_eq!(nodes[2].0.as_str(), ".acme.Color.RED");
    assert_eq!(nodes[2], nodes[6]);
    let red_key = match nodes[6].1 {
        NodeKey::EnumValue(k) => k,
        _ => panic!("not a value node"),
    };
    let table = h.enum_values.lock();
    assert_eq!(table.get(red_key).number(), 7);
    assert_eq!(table.get(red_key).enum_key, enums[1].0);
}

#[test]
fn hydrate_enums_leaves_other_names_alone() {
    let mut h = Hydrate::new();
    let (a, la) = color();
    let fqn = FullyQualifiedName::from(".acme.Color".to_string());
    let (_, color_nodes) = h.hydrate_enum(a, fqn, la, ContainerKey::File(FileKey(1)), FileKey(1), None);
    let red_key = match color_nodes[1].1 {
        NodeKey::EnumValue(k) => k,
        _ => panic!("not a value node"),
    };
    let b = EnumDescriptorProto {
        name: Some("Size".to_string()),
        value: vec![value("SMALL", 4)],
        options: None,
        reserved_range: Vec::new(),
        reserved_name: Vec::new(),
    };
    let lb = Enum { detail: detail(&[5, 1]), values: vec![EnumValue { detail: detail(&[5, 1, 2, 0]) }] };
    let container = FullyQualifiedName::from(".acme".to_string());
    let (enums, nodes) = h.hydrate_enums(vec![b], vec![lb], ContainerKey::File(FileKey(1)), container, FileKey(1), None);
    assert_eq!(nodes.len(), 3);
    assert_eq!(enums[0].2, "Size");
    let table = h.enum_values.lock();
    assert_eq!(table.get(red_key).number(), 0);
    assert_eq!(table.get(red_key).fqn.as_str(), ".acme.Color.RED");
}

#[test]
fn hydrate_enum_leaves_package_file_and_referrers_as_they_were() {
    let mut h = Hydrate::new();
    let (d, l) = color();
    let fqn = FullyQualifiedName::from(".acme.Color".to_string());
    let ((key, _, _), _) =
        h.hydrate_enum(d, fqn, l, ContainerKey::File(FileKey(3)), FileKey(3), Some(PackageKey(4)));
    let table = h.enums.lock();
    let e = table.get(key);
    assert_eq!(e.package, None);
    assert_eq!(e.file, FileKey(0));
    assert!(e.referenced_by.is_empty());
    assert_eq!(e.key, key);
    assert_eq!(e.fqn.as_str(), ".acme.Color");
}

#[test]
fn hydrate_enum_values_leave_the_value_path_as_it_was() {
    let mut h = Hydrate::new();
    let fqn = FullyQualifiedName::from(".acme.Color".to_string());
    let key = h.enums.lock().get_or_insert_key(fqn.duplicate());
    let (d, l) = color();
    let (values, _) = h.hydrate_enum_values(d.value, l.values, key, fqn, FileKey(1), None);
    let table = h.enum_values.lock();
    let red = table.get(values[0].0);
    assert!(red.node_path.is_empty());
    assert_eq!(red.key, values[0].0);
    assert_eq!(red.fqn.as_str(), ".acme.Color.RED");
}

fn nodes_green_key(nodes: &[(FullyQualifiedName, NodeKey)]) -> catalyze::ast::node::EnumValueKey {
    match nodes[2].1 {
        NodeKey::EnumValue(k) => k,
        _ => panic!("not a value node"),
    }
}
