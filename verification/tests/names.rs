use catalyze::ast::enums::WellKnownEnum;
use catalyze::ast::file::{parse_syntax, OptimizeMode, Syntax};
use catalyze::ast::message::WellKnownMessage;
use catalyze::ast::FullyQualifiedName;
use catalyze::ast::WellKnownType;
use catalyze::error::Error;

#[test]
fn fqn_joins_container_and_value() {
    let container = FullyQualifiedName::from(".google.protobuf".to_string());
    let fqn = FullyQualifiedName::new("Any", Some(container));
    assert_eq!(fqn.as_str(), ".google.protobuf.Any");
}

#[test]
fn fqn_empty_value_names_the_container() {
    let container = FullyQualifiedName::from(".pkg.Msg".to_string());
    assert_eq!(FullyQualifiedName::new("", Some(container)).as_str(), ".pkg.Msg");
    assert_eq!(FullyQualifiedName::new("", None).as_str(), "");
    assert!(FullyQualifiedName::new("", None).is_empty());
}

#[test]
fn fqn_without_container_is_the_value() {
    assert_eq!(FullyQualifiedName::new("foo.proto", None).as_str(), "foo.proto");
    let empty = FullyQualifiedName::default();
    assert_eq!(FullyQualifiedName::new("x", Some(empty)).as_str(), "x");
}

#[test]
fn fqn_push_appends_a_segment() {
    let mut fqn = FullyQualifiedName::from(".a".to_string());
    fqn.push("b");
    assert_eq!(fqn.as_str(), ".a.b");
    fqn.push("");
    assert_eq!(fqn.as_str(), ".a.b");
    let mut empty = FullyQualifiedName::default();
    empty.push("c");
    assert_eq!(empty.as_str(), "c");
}

#[test]
fn fqn_push_is_new_with_container() {
    let mut pushed = FullyQualifiedName::from(".x.y".to_string());
    pushed.push("Z");
    let made = FullyQualifiedName::new("Z", Some(FullyQualifiedName::from(".x.y".to_string())));
    assert_eq!(pushed.as_str(), made.as_str());
}

#[test]
fn fqn_for_package_adds_a_leading_dot() {
    assert_eq!(FullyQualifiedName::for_package("foo.bar").as_str(), ".foo.bar");
    assert_eq!(FullyQualifiedName::for_package(".foo").as_str(), ".foo");
    assert_eq!(FullyQualifiedName::for_package("").as_str(), "");
    let once = FullyQualifiedName::for_package("a.b");
    let twice = FullyQualifiedName::for_package(once.as_str());
    assert_eq!(once.as_str(), twice.as_str());
}

#[test]
fn fqn_duplicate_keeps_the_name() {
    let fqn = FullyQualifiedName::from(".a.b".to_string());
    assert_eq!(fqn.duplicate().as_str(), ".a.b");
}

#[test]
fn syntax_parse_accepts_exact_names() {
    assert_eq!(Syntax::parse("proto2"), Ok(Syntax::Proto2));
    assert_eq!(Syntax::parse("proto3"), Ok(Syntax::Proto3));
}

#[test]
fn syntax_parse_rejects_other_names() {
    assert_eq!(
        Syntax::parse("proto4"),
        Err(Error::UnsupportedSyntax { value: "proto4".to_string() })
    );
    assert_eq!(
        Syntax::parse("PROTO3"),
        Err(Error::UnsupportedSyntax { value: "PROTO3".to_string() })
    );
    assert_eq!(Syntax::parse(""), Err(Error::UnsupportedSyntax { value: String::new() }));
}

#[test]
fn parse_syntax_agrees_with_syntax_parse() {
    for s in ["proto2", "proto3", "", "Proto2", "editions"] {
        assert_eq!(parse_syntax(s), Syntax::parse(s));
    }
}

#[test]
fn syntax_names_round_trip() {
    for s in [Syntax::Proto2, Syntax::Proto3] {
        assert_eq!(Syntax::parse(s.as_str()), Ok(s));
    }
    assert_eq!(Syntax::Proto2.as_str(), "proto2");
    assert_eq!(Syntax::Proto3.as_str(), "proto3");
}

#[test]
fn syntax_from_str_ignores_case_and_defaults_empty() {
    assert_eq!("PROTO3".parse::<Syntax>(), Ok(Syntax::Proto3));
    assert_eq!("Proto2".parse::<Syntax>(), Ok(Syntax::Proto2));
    assert_eq!("".parse::<Syntax>(), Ok(Syntax::Proto2));
    assert_eq!("proto5".parse::<Syntax>(), Err(()));
    assert_eq!(Syntax::read("pRoTo3"), Ok(Syntax::Proto3));
}

#[test]
fn syntax_flags() {
    assert!(Syntax::Proto2.is_proto2());
    assert!(!Syntax::Proto2.is_proto3());
    assert!(Syntax::Proto3.is_proto3());
    assert!(Syntax::Proto2.supports_required_prefix());
    assert!(!Syntax::Proto3.supports_required_prefix());
    assert_eq!(Syntax::default(), Syntax::Proto2);
}

#[test]
fn optimize_mode_from_code() {
    assert_eq!(OptimizeMode::from_code(1), OptimizeMode::Speed);
    assert_eq!(OptimizeMode::from_code(2), OptimizeMode::CodeSize);
    assert_eq!(OptimizeMode::from_code(3), OptimizeMode::LiteRuntime);
    assert_eq!(OptimizeMode::from_code(0), OptimizeMode::Unknown(0));
    assert_eq!(OptimizeMode::from_code(42), OptimizeMode::Unknown(42));
    assert!(OptimizeMode::from_code(1).is_speed());
    assert!(OptimizeMode::from_code(2).is_code_size());
    assert!(OptimizeMode::from_code(3).is_lite_runtime());
    assert!(OptimizeMode::from_code(9).is_unknown());
    assert!(!OptimizeMode::Speed.is_unknown());
}

const MESSAGES: [(WellKnownMessage, &str); 27] = [
    (WellKnownMessage::Any, "Any"),
    (WellKnownMessage::Api, "Api"),
    (WellKnownMessage::BoolValue, "BoolValue"),
    (WellKnownMessage::BytesValue, "BytesValue"),
    (WellKnownMessage::DoubleValue, "DoubleValue"),
    (WellKnownMessage::Duration, "Duration"),
    (WellKnownMessage::Empty, "Empty"),
    (WellKnownMessage::Enum, "Enum"),
    (WellKnownMessage::EnumValue, "EnumValue"),
    (WellKnownMessage::Field, "Field"),
    (WellKnownMessage::FieldKind, "FieldKind"),
    (WellKnownMessage::FieldMask, "FieldMask"),
    (WellKnownMessage::FloatValue, "FloatValue"),
    (WellKnownMessage::Int32Value, "Int32Value"),
    (WellKnownMessage::Int64Value, "Int64Value"),
    (WellKnownMessage::ListValue, "ListValue"),
    (WellKnownMessage::Method, "Method"),
    (WellKnownMessage::Mixin, "Mixin"),
    (WellKnownMessage::Option, "Option"),
    (WellKnownMessage::SourceContext, "SourceContext"),
    (WellKnownMessage::StringValue, "StringValue"),
    (WellKnownMessage::Struct, "Struct"),
    (WellKnownMessage::Timestamp, "Timestamp"),
    (WellKnownMessage::Type, "Type"),
    (WellKnownMessage::UInt32Value, "UInt32Value"),
    (WellKnownMessage::UInt64Value, "UInt64Value"),
    (WellKnownMessage::Value, "Value"),
];

#[test]
fn well_known_message_names() {
    for (m, name) in MESSAGES {
        assert_eq!(m.as_str(), name);
        assert_eq!(WellKnownMessage::from_name(name), Ok(m));
        assert_eq!(name.parse::<WellKnownMessage>(), Ok(m));
    }
}

#[test]
fn well_known_message_unknown_names() {
    assert_eq!(WellKnownMessage::from_name("Uint32Value"), Err(()));
    assert_eq!(WellKnownMessage::from_name("any"), Err(()));
    assert_eq!(WellKnownMessage::from_name(""), Err(()));
    assert_eq!("Timestamps".parse::<WellKnownMessage>(), Err(()));
}

#[test]
fn well_known_enum_names() {
    let all = [
        (WellKnownEnum::FieldCardinality, "FieldCardinality"),
        (WellKnownEnum::FieldKind, "FieldKind"),
        (WellKnownEnum::NullValue, "NullValue"),
        (WellKnownEnum::Syntax, "Syntax"),
    ];
    for (e, name) in all {
        assert_eq!(e.as_str(), name);
        assert_eq!(WellKnownEnum::from_name(name), Ok(e));
        assert_eq!(name.parse::<WellKnownEnum>(), Ok(e));
    }
    assert_eq!(WellKnownEnum::from_name("Cardinality"), Err(()));
}

#[test]
fn well_known_type_names_and_package() {
    assert_eq!(WellKnownType::PACKAGE, "google.protobuf");
    assert_eq!(WellKnownType::Enum(WellKnownEnum::NullValue).as_str(), "NullValue");
    assert_eq!(WellKnownType::Message(WellKnownMessage::Timestamp).as_str(), "Timestamp");
}

#[test]
fn names_as_owned_strings() {
    assert_eq!(Syntax::Proto3.to_string(), "proto3");
    assert_eq!(WellKnownEnum::NullValue.to_string(), "NullValue");
    assert_eq!(WellKnownMessage::Timestamp.to_string(), "Timestamp");
    assert_eq!(WellKnownType::Message(WellKnownMessage::Any).to_string(), "Any");
    assert_eq!(FullyQualifiedName::from(".a.B".to_string()).to_string(), ".a.B");
}

#[test]
fn fqn_from_str_slices_and_views() {
    let a = FullyQualifiedName::from(".a.B");
    let b = FullyQualifiedName::from(String::from(".a.B").into_boxed_str());
    assert_eq!(a.as_str(), ".a.B");
    assert_eq!(a, b);
    let r: &str = a.as_ref();
    assert_eq!(r, ".a.B");
    assert_eq!(&*a, ".a.B");
    assert!(a.starts_with(".a"));
    assert_eq!(a.to_string(), a.as_str());
}
