use catalyze::ast::field::{CType, JsType, MapKey, MapType, Scalar, TypeInner, Value, ValueInner};
use catalyze::ast::message::ExtensionRange;
use catalyze::ast::node::{EnumKey, MessageKey};
use catalyze::ast::reserved::{Reserved, ReservedRange};
use catalyze::ast::uninterpreted::{NamePart, NameParts, UninterpretedOption, UninterpretedValue};
use catalyze::descriptor;
use catalyze::error::Error;

fn part(name: &str, ext: bool) -> NamePart {
    NamePart::from_descriptor(descriptor::NamePart {
        name_part: Some(name.to_string()),
        is_extension: Some(ext),
    })
}

fn option() -> descriptor::UninterpretedOption {
    descriptor::UninterpretedOption {
        name: vec![descriptor::NamePart { name_part: Some("opt".to_string()), is_extension: None }],
        identifier_value: None,
        positive_int_value: None,
        negative_int_value: None,
        double_value_bits: None,
        string_value: None,
        aggregate_value: None,
    }
}

#[test]
fn name_part_of_an_extension_is_parenthesised() {
    let p = part("bar.baz", true);
    assert_eq!(p.value(), "bar.baz");
    assert_eq!(p.as_str(), "bar.baz");
    assert!(p.is_extension());
    assert_eq!(p.formatted_value(), "(bar.baz)");
    assert_eq!(p.to_string(), "(bar.baz)");
    let q = part("foo", false);
    assert_eq!(q.formatted_value(), "foo");
    assert_eq!(q.to_string(), "foo");
}

#[test]
fn name_part_defaults() {
    let p = NamePart::from_descriptor(descriptor::NamePart { name_part: None, is_extension: None });
    assert_eq!(p.value(), "");
    assert!(!p.is_extension());
    assert_eq!(p.formatted_value(), "");
}

#[test]
fn name_parts_formatted_joins_with_dots() {
    let parts = NameParts::new(vec![part("foo", false), part("bar.baz", true), part("qux", false)]);
    assert_eq!(parts.formatted(), "foo.(bar.baz).qux");
    assert_eq!(parts.to_string(), "foo.(bar.baz).qux");
    assert_eq!(parts.len(), 3);
    assert!(!parts.is_empty());
    assert!(parts.contains("bar.baz"));
    assert!(!parts.contains("(bar.baz)"));
    assert_eq!(parts.get(1).unwrap().value(), "bar.baz");
    assert!(parts.get(3).is_none());
    assert_eq!(parts.iter().count(), 3);
}

#[test]
fn name_parts_edge_cases() {
    let none = NameParts::new(Vec::new());
    assert_eq!(none.formatted(), "");
    assert!(none.is_empty());
    let one = NameParts::new(vec![part("x", true)]);
    assert_eq!(one.formatted(), "(x)");
}

#[test]
fn uninterpreted_value_priority() {
    let mut o = option();
    o.aggregate_value = Some("{a: 1}".to_string());
    o.string_value = Some(b"s".to_vec());
    o.negative_int_value = Some(-3);
    o.positive_int_value = Some(7);
    o.identifier_value = Some("ident".to_string());
    assert_eq!(
        UninterpretedOption::from_descriptor(o.clone()).value,
        UninterpretedValue::Identifier("ident".to_string())
    );
    o.identifier_value = None;
    assert_eq!(UninterpretedOption::from_descriptor(o.clone()).value, UninterpretedValue::PositiveInt(7));
    o.positive_int_value = None;
    assert_eq!(UninterpretedOption::from_descriptor(o.clone()).value, UninterpretedValue::NegativeInt(-3));
    o.negative_int_value = None;
    o.double_value_bits = Some(1.5f64.to_bits());
    assert_eq!(
        UninterpretedOption::from_descriptor(o.clone()).value,
        UninterpretedValue::Double(1.5f64.to_bits())
    );
    o.double_value_bits = None;
    assert_eq!(UninterpretedOption::from_descriptor(o.clone()).value, UninterpretedValue::String(b"s".to_vec()));
    o.string_value = None;
    assert_eq!(
        UninterpretedOption::from_descriptor(o.clone()).value,
        UninterpretedValue::Aggregate("{a: 1}".to_string())
    );
    o.aggregate_value = None;
    let u = UninterpretedOption::from_descriptor(o);
    assert_eq!(u.value(), &UninterpretedValue::PositiveInt(0));
    assert_eq!(u.name().len(), 1);
    assert_eq!(u.name()[0].value(), "opt");
}

#[test]
fn uninterpreted_value_accessors() {
    let v = UninterpretedValue::NegativeInt(-1);
    assert!(v.is_negative_int());
    assert!(!v.is_positive_int());
    assert_eq!(v.as_negative_int(), Some(&-1));
    assert_eq!(v.as_identifier(), None);
    assert_eq!(v.clone().try_into_negative_int(), Ok(-1));
    assert_eq!(v.clone().try_into_double(), Err(v));
    let s = UninterpretedValue::String(vec![1, 2]);
    assert!(s.is_string());
    assert_eq!(s.as_string(), Some(&vec![1, 2]));
}

#[test]
fn uninterpreted_options_keep_order() {
    let mut a = option();
    a.identifier_value = Some("a".to_string());
    let mut b = option();
    b.positive_int_value = Some(2);
    let out = UninterpretedOption::from_descriptors(vec![a, b]);
    assert_eq!(out.len(), 2);
    assert_eq!(out[0].value, UninterpretedValue::Identifier("a".to_string()));
    assert_eq!(out[1].value, UninterpretedValue::PositiveInt(2));
}

#[test]
fn extension_range_from_descriptor() {
    let r = ExtensionRange::from_descriptor(descriptor::ExtensionRange {
        start: Some(100),
        end: None,
        options: Some(vec![option()]),
    });
    assert_eq!(r.start(), 100);
    assert_eq!(r.end(), 0);
    assert_eq!(r.uninterpreted_options().len(), 1);
    let bare = ExtensionRange::from_descriptor(descriptor::ExtensionRange {
        start: None,
        end: Some(5),
        options: None,
    });
    assert_eq!((bare.start(), bare.end()), (0, 5));
    assert!(bare.uninterpreted_options().is_empty());
}

#[test]
fn reserved_ranges_read_unset_bounds_as_zero() {
    let r = ReservedRange { start: Some(9), end: None };
    assert_eq!(r.start(), 9);
    assert_eq!(r.end(), 0);
    let res = Reserved::new(vec!["foo".to_string()], vec![r]);
    assert_eq!(res.names(), &["foo".to_string()][..]);
    assert_eq!(res.ranges().len(), 1);
}

#[test]
fn value_types_from_field_type_numbers() {
    assert_eq!(ValueInner::new(1, None, None), Ok(ValueInner::Scalar(Scalar::Double)));
    assert_eq!(ValueInner::new(9, None, None), Ok(ValueInner::Scalar(Scalar::String)));
    assert_eq!(ValueInner::new(12, None, None), Ok(ValueInner::Scalar(Scalar::Bytes)));
    assert_eq!(ValueInner::new(18, None, None), Ok(ValueInner::Scalar(Scalar::Sint64)));
    assert_eq!(ValueInner::new(14, Some(EnumKey(3)), None), Ok(ValueInner::Enum(EnumKey(3))));
    assert_eq!(ValueInner::new(11, None, Some(MessageKey(4))), Ok(ValueInner::Message(MessageKey(4))));
    assert_eq!(ValueInner::new(10, None, None), Err(Error::GroupNotSupported));
    assert_eq!(ValueInner::default(), ValueInner::Unknown(0));
}

#[test]
fn scalar_names() {
    let all = [
        (Scalar::Double, "double"),
        (Scalar::Float, "float"),
        (Scalar::Int64, "int64"),
        (Scalar::Uint64, "uint64"),
        (Scalar::Int32, "int32"),
        (Scalar::Fixed64, "fixed64"),
        (Scalar::Fixed32, "fixed32"),
        (Scalar::Bool, "bool"),
        (Scalar::String, "string"),
        (Scalar::Bytes, "bytes"),
        (Scalar::Uint32, "uint32"),
        (Scalar::Enum, "enum"),
        (Scalar::Sfixed32, "sfixed32"),
        (Scalar::Sfixed64, "sfixed64"),
        (Scalar::Sint32, "sint32"),
        (Scalar::Sint64, "sint64"),
    ];
    for (s, name) in all {
        assert_eq!(s.as_str(), name);
        assert_eq!(s.to_string(), name);
    }
}

#[test]
fn ctype_and_js_type_from_codes() {
    assert_eq!(CType::from_code(0), CType::String);
    assert_eq!(CType::from_code(1), CType::Cord);
    assert_eq!(CType::from_code(2), CType::StringPiece);
    assert_eq!(CType::from_code(5), CType::Unknown(5));
    assert_eq!(JsType::from_code(0), JsType::Normal);
    assert_eq!(JsType::from_code(1), JsType::String);
    assert_eq!(JsType::from_code(2), JsType::Number);
    assert_eq!(JsType::from_code(-1), JsType::Unknown(-1));
}

#[test]
fn value_accessors_and_groups() {
    assert!(Value::Unknown(10).is_group());
    assert!(!Value::Unknown(9).is_group());
    assert!(Value::Unknown(9).is_unknown());
    let v = Value::Enum(EnumKey(1));
    assert!(v.is_enum());
    assert_eq!(v.as_enum(), Some(EnumKey(1)));
    assert_eq!(v.as_message(), None);
    assert_eq!(v.try_into_scalar(), Err(v));
    assert_eq!(Value::Scalar(Scalar::Bool).try_into_scalar(), Ok(Scalar::Bool));
    assert_eq!(ValueInner::Message(MessageKey(2)).resolve(), Value::Message(MessageKey(2)));
    let t = TypeInner::MapOf(catalyze::ast::field::MapInner {
        key: MapKey::String,
        value: ValueInner::Scalar(Scalar::Int32),
    });
    assert_eq!(
        t.resolve(),
        catalyze::ast::field::Type::MapOf(MapType::new(MapKey::String, Value::Scalar(Scalar::Int32)))
    );
    assert_eq!(TypeInner::default(), TypeInner::Unknown(0));
}

#[test]
fn name_parts_iterate_by_reference_and_parts_read_as_str() {
    let parts = NameParts::new(vec![part("foo", false), part("bar.baz", true)]);
    let mut seen: Vec<&str> = Vec::new();
    for p in &parts {
        seen.push(p.as_ref());
    }
    assert_eq!(seen, vec!["foo", "bar.baz"]);
    let second: &str = parts.get(1).unwrap().as_ref();
    assert_eq!(second, parts.get(1).unwrap().as_str());
    assert_eq!((&parts).into_iter().count(), parts.len());
}
