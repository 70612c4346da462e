use catalyze::ast::access::{Name, NodePath, Reserved as _};
use catalyze::ast::container::{self, Container, ContainerKey};
use catalyze::ast::enum_value;
use catalyze::ast::enums::{self, WellKnownEnum};
use catalyze::ast::location::{Detail, Span};
use catalyze::ast::message::{self, ExtensionRange};
use catalyze::ast::node::{EnumKey, EnumValueKey, FieldKey, FileKey, MessageKey, NodeKey, PackageKey};
use catalyze::ast::reserved::ReservedRange;
use catalyze::ast::FullyQualifiedName;
use catalyze::descriptor::{self, EnumOptions, EnumValueOptions, MessageOptions};

fn fqn(s: &str) -> FullyQualifiedName {
    FullyQualifiedName::from(s.to_string())
}

fn detail(path: &[i32]) -> Detail {
    Detail {
        path: path.to_vec(),
        span: Span { start_line: 1, start_column: 2, end_line: 3, end_column: 4 },
        comments: None,
    }
}

#[test]
fn enum_hydrate_fills_the_node() {
    let mut e = enums::Inner::from_fqn(fqn(".acme.Color"));
    let (key, f, name) = e.hydrate(enums::Hydrate {
        name: "Color".to_string(),
        values: vec![(EnumValueKey(1), fqn(".acme.Color.RED"), "RED".to_string())],
        location: detail(&[5, 0]),
        options: Some(EnumOptions { allow_alias: Some(true), deprecated: None, uninterpreted_option: Vec::new() }),
        reserved_names: vec!["OLD".to_string()],
        reserved_ranges: vec![ReservedRange { start: Some(5), end: Some(9) }],
        container: ContainerKey::File(FileKey(2)),
        well_known: Some(WellKnownEnum::Syntax),
    });
    assert_eq!(key, EnumKey(0));
    assert_eq!(f.as_str(), ".acme.Color");
    assert_eq!(name, "Color");
    assert_eq!(Name::name(&e), "Color");
    assert_eq!(e.node_path(), &[5, 0][..]);
    assert!(e.allow_alias);
    assert!(!e.deprecated);
    assert_eq!(e.values.by_name("RED"), Some(EnumValueKey(1)));
    assert_eq!(e.reserved_names(), &["OLD".to_string()][..]);
    assert_eq!(e.reserved_ranges()[0].end(), 9);
    assert_eq!(e.well_known, Some(WellKnownEnum::Syntax));
}

#[test]
fn enum_hydrate_without_options() {
    let mut e = enums::Inner::from_fqn(fqn(".E"));
    e.hydrate(enums::Hydrate {
        name: "E".to_string(),
        values: Vec::new(),
        location: detail(&[5, 1]),
        options: None,
        reserved_names: Vec::new(),
        reserved_ranges: Vec::new(),
        container: ContainerKey::Message(MessageKey(3)),
        well_known: None,
    });
    assert!(!e.allow_alias && !e.deprecated);
    assert!(e.uninterpreted_options.is_empty());
    assert_eq!(e.container, ContainerKey::Message(MessageKey(3)));
}

#[test]
fn enum_value_hydrate_keeps_its_path() {
    let mut v = enum_value::Inner::from_fqn(fqn(".E.A"));
    let (_, _, name) = v.hydrate(enum_value::Hydrate {
        name: "A".to_string(),
        number: 4,
        location: detail(&[5, 1, 2, 0]),
        options: Some(EnumValueOptions { deprecated: Some(true), uninterpreted_option: Vec::new() }),
        enum_key: EnumKey(1),
        file: FileKey(2),
        package: Some(PackageKey(3)),
    });
    assert_eq!(name, "A");
    assert_eq!(v.number(), 4);
    assert!(v.deprecated);
    assert_eq!(v.span, Span { start_line: 1, start_column: 2, end_line: 3, end_column: 4 });
    assert!(v.node_path.is_empty());
    assert_eq!(v.enum_key, EnumKey(1));
}

#[test]
fn message_hydrate_fills_the_node() {
    let mut m = message::Inner::from_fqn(fqn(".acme.Msg"));
    let (key, f, name) = m.hydrate(message::Hydrate {
        name: "Msg".to_string(),
        container: ContainerKey::File(FileKey(1)),
        package: Some(PackageKey(2)),
        well_known: None,
        location: detail(&[4, 0]),
        options: Some(MessageOptions {
            message_set_wire_format: None,
            no_standard_descriptor_accessor: None,
            deprecated: Some(true),
            map_entry: Some(true),
            uninterpreted_option: Vec::new(),
        }),
        reserved_ranges: vec![ReservedRange { start: Some(1), end: None }],
        reserved_names: Vec::new(),
        extension_range: vec![descriptor::ExtensionRange { start: Some(100), end: Some(200), options: None }],
        messages: Vec::new(),
        enums: Vec::new(),
        fields: vec![(FieldKey(7), fqn(".acme.Msg.id"), "id".to_string())],
        oneofs: Vec::new(),
        extensions: Vec::new(),
        extension_blocks: Vec::new(),
    });
    assert_eq!(key, MessageKey(0));
    assert_eq!(f.as_str(), ".acme.Msg");
    assert_eq!(name, "Msg");
    assert!(m.deprecated && m.map_entry);
    assert!(!m.message_set_wire_format);
    assert_eq!(m.fields.by_name("id"), Some(FieldKey(7)));
    assert_eq!(m.extension_ranges.len(), 1);
    let r: &ExtensionRange = &m.extension_ranges[0];
    assert_eq!((r.start(), r.end()), (100, 200));
    assert_eq!(m.reserved().ranges[0].start(), 1);
    assert_eq!(m.node_path, vec![4, 0]);
}

#[test]
fn containers_and_node_keys() {
    let c = container::from_key(ContainerKey::Message(MessageKey(5)));
    assert!(c.is_message());
    assert_eq!(c.as_message(), Some(MessageKey(5)));
    assert_eq!(c.as_file(), None);
    assert_eq!(c.try_into_file(), Err(Container::Message(MessageKey(5))));
    assert_eq!(ContainerKey::default(), ContainerKey::File(FileKey(0)));
    assert_eq!(NodeKey::from_message(MessageKey(5)), NodeKey::Message(MessageKey(5)));
}
