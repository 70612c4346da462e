//! The parts of `protoc`'s descriptor messages that the model reads, as
//! plain values. Each optional field of the wire format is an `Option`,
//! unset where the descriptor leaves it out.
use crate::ast::reserved::ReservedRange;
use vstd::prelude::*;

verus! {

/// One segment of the name of an uninterpreted option.
#[derive(Clone, Debug, PartialEq, Default)]
pub struct NamePart {
    pub name_part: Option<String>,
    pub is_extension: Option<bool>,
}

/// An option that the parser did not recognise. A `double` value is held
/// by its IEEE 754 bits.
#[derive(Clone, Debug, PartialEq, Default)]
pub struct UninterpretedOption {
    pub name: Vec<NamePart>,
    pub identifier_value: Option<String>,
    pub positive_int_value: Option<u64>,
    pub negative_int_value: Option<i64>,
    pub double_value_bits: Option<u64>,
    pub string_value: Option<Vec<u8>>,
    pub aggregate_value: Option<String>,
}

/// A range of field numbers set aside for extensions, with the
/// uninterpreted options of its options message, where it has one.
#[derive(Clone, Debug, PartialEq, Default)]
pub struct ExtensionRange {
    pub start: Option<i32>,
    pub end: Option<i32>,
    pub options: Option<Vec<UninterpretedOption>>,
}

/// The options of a file. `optimize_for` holds the number of the mode.
#[derive(Clone, Debug, PartialEq, Default)]
pub struct FileOptions {
    pub java_package: Option<String>,
    pub java_outer_classname: Option<String>,
    pub java_multiple_files: Option<bool>,
    pub java_generate_equals_and_hash: Option<bool>,
    pub java_string_check_utf8: Option<bool>,
    pub optimize_for: Option<i32>,
    pub go_package: Option<String>,
    pub cc_generic_services: Option<bool>,
    pub java_generic_services: Option<bool>,
    pub py_generic_services: Option<bool>,
    pub php_generic_services: Option<bool>,
    pub deprecated: Option<bool>,
    pub cc_enable_arenas: Option<bool>,
    pub objc_class_prefix: Option<String>,
    pub csharp_namespace: Option<String>,
    pub swift_prefix: Option<String>,
    pub php_class_prefix: Option<String>,
    pub php_namespace: Option<String>,
    pub php_metadata_namespace: Option<String>,
    pub ruby_package: Option<String>,
    pub uninterpreted_option: Vec<UninterpretedOption>,
}

/// The options of a message.
#[derive(Clone, Debug, PartialEq, Default)]
pub struct MessageOptions {
    pub message_set_wire_format: Option<bool>,
    pub no_standard_descriptor_accessor: Option<bool>,
    pub deprecated: Option<bool>,
    pub map_entry: Option<bool>,
    pub uninterpreted_option: Vec<UninterpretedOption>,
}

/// The options of an enum.
#[derive(Clone, Debug, PartialEq, Default)]
pub struct EnumOptions {
    pub allow_alias: Option<bool>,
    pub deprecated: Option<bool>,
    pub uninterpreted_option: Vec<UninterpretedOption>,
}

/// The options of an enum value.
#[derive(Clone, Debug, PartialEq, Default)]
pub struct EnumValueOptions {
    pub deprecated: Option<bool>,
    pub uninterpreted_option: Vec<UninterpretedOption>,
}

/// A value of an enum.
#[derive(Clone, Debug, PartialEq, Default)]
pub struct EnumValueDescriptorProto {
    pub name: Option<String>,
    pub number: Option<i32>,
    pub options: Option<EnumValueOptions>,
}

/// An enum and its values.
#[derive(Clone, Debug, PartialEq, Default)]
pub struct EnumDescriptorProto {
    pub name: Option<String>,
    pub value: Vec<EnumValueDescriptorProto>,
    pub options: Option<EnumOptions>,
    pub reserved_range: Vec<ReservedRange>,
    pub reserved_name: Vec<String>,
}

} // verus!
