//! Messages: the well-known message types of `google.protobuf` and the
//! extension ranges a message declares.
use crate::ast::container::ContainerKey;
use crate::ast::file::{flag, Hydrated, KeySet};
use crate::ast::fqn::FullyQualifiedName;
use crate::ast::location::{Comments, Detail, Span};
use crate::ast::node::{
    EnumKey, ExtensionBlockKey, ExtensionKey, FieldKey, FileKey, MessageKey, NodeKey, OneofKey,
    PackageKey,
};
use crate::ast::reference::ReferenceInner;
use crate::ast::reserved::{Reserved, ReservedRange};
use crate::ast::uninterpreted::{option_from, UninterpretedOption};
use crate::descriptor;
use crate::descriptor::MessageOptions;
use crate::text::same_chars;
use vstd::prelude::*;

verus! {

/// The message types that `google.protobuf` defines.
#[derive(Clone, Copy, Debug, PartialEq, Eq, Structural)]
pub enum WellKnownMessage {
    /// Any contains an arbitrary serialized message along with a URL that
    /// describes the type of the serialized message.
    Any,
    /// Api is a light-weight descriptor for a protocol buffer service.
    Api,
    /// Wrapper message for bool.
    BoolValue,
    /// Wrapper message for bytes.
    BytesValue,
    /// Wrapper message for double.
    DoubleValue,
    /// A signed, fixed-length span of time at nanosecond resolution.
    Duration,
    /// A generic empty message.
    Empty,
    /// Enum type definition.
    Enum,
    /// Enum value definition.
    EnumValue,
    /// A single field of a message type.
    Field,
    /// Basic field types.
    FieldKind,
    /// A set of symbolic field paths.
    FieldMask,
    /// Wrapper message for float.
    FloatValue,
    /// Wrapper message for int32.
    Int32Value,
    /// Wrapper message for int64.
    Int64Value,
    /// A repeated field of dynamically typed values.
    ListValue,
    /// A method of an API interface.
    Method,
    /// An API that is included in another API.
    Mixin,
    /// A protocol buffer option.
    Option,
    /// Information about the source of a protobuf element.
    SourceContext,
    /// Wrapper message for string.
    StringValue,
    /// A structured data value of dynamically typed fields.
    Struct,
    /// A point in time independent of any time zone or calendar.
    Timestamp,
    /// A protocol buffer message type.
    Type,
    /// Wrapper message for uint32.
    UInt32Value,
    /// Wrapper message for uint64.
    UInt64Value,
    /// A dynamically typed value.
    Value,
}

/// The name of a well-known message type.
pub open spec fn message_name(m: WellKnownMessage) -> Seq<char> {
    match m {
        WellKnownMessage::Any => seq!['A', 'n', 'y'],
        WellKnownMessage::Api => seq!['A', 'p', 'i'],
        WellKnownMessage::BoolValue => seq!['B', 'o', 'o', 'l', 'V', 'a', 'l', 'u', 'e'],
        WellKnownMessage::BytesValue => seq!['B', 'y', 't', 'e', 's', 'V', 'a', 'l', 'u', 'e'],
        WellKnownMessage::DoubleValue => seq!['D', 'o', 'u', 'b', 'l', 'e', 'V', 'a', 'l', 'u', 'e'],
        WellKnownMessage::Duration => seq!['D', 'u', 'r', 'a', 't', 'i', 'o', 'n'],
        WellKnownMessage::Empty => seq!['E', 'm', 'p', 't', 'y'],
        WellKnownMessage::Enum => seq!['E', 'n', 'u', 'm'],
        WellKnownMessage::EnumValue => seq!['E', 'n', 'u', 'm', 'V', 'a', 'l', 'u', 'e'],
        WellKnownMessage::Field => seq!['F', 'i', 'e', 'l', 'd'],
        WellKnownMessage::FieldKind => seq!['F', 'i', 'e', 'l', 'd', 'K', 'i', 'n', 'd'],
        WellKnownMessage::FieldMask => seq!['F', 'i', 'e', 'l', 'd', 'M', 'a', 's', 'k'],
        WellKnownMessage::FloatValue => seq!['F', 'l', 'o', 'a', 't', 'V', 'a', 'l', 'u', 'e'],
        WellKnownMessage::Int32Value => seq!['I', 'n', 't', '3', '2', 'V', 'a', 'l', 'u', 'e'],
        WellKnownMessage::Int64Value => seq!['I', 'n', 't', '6', '4', 'V', 'a', 'l', 'u', 'e'],
        WellKnownMessage::ListValue => seq!['L', 'i', 's', 't', 'V', 'a', 'l', 'u', 'e'],
        WellKnownMessage::Method => seq!['M', 'e', 't', 'h', 'o', 'd'],
        WellKnownMessage::Mixin => seq!['M', 'i', 'x', 'i', 'n'],
        WellKnownMessage::Option => seq!['O', 'p', 't', 'i', 'o', 'n'],
        WellKnownMessage::SourceContext => seq!['S', 'o', 'u', 'r', 'c', 'e', 'C', 'o', 'n', 't', 'e', 'x', 't'],
        WellKnownMessage::StringValue => seq!['S', 't', 'r', 'i', 'n', 'g', 'V', 'a', 'l', 'u', 'e'],
        WellKnownMessage::Struct => seq!['S', 't', 'r', 'u', 'c', 't'],
        WellKnownMessage::Timestamp => seq!['T', 'i', 'm', 'e', 's', 't', 'a', 'm', 'p'],
        WellKnownMessage::Type => seq!['T', 'y', 'p', 'e'],
        WellKnownMessage::UInt32Value => seq!['U', 'I', 'n', 't', '3', '2', 'V', 'a', 'l', 'u', 'e'],
        WellKnownMessage::UInt64Value => seq!['U', 'I', 'n', 't', '6', '4', 'V', 'a', 'l', 'u', 'e'],
        WellKnownMessage::Value => seq!['V', 'a', 'l', 'u', 'e'],
    }
}

/// The well-known message type named `s`, if any.
pub open spec fn message_named(s: Seq<char>) -> Option<WellKnownMessage> {
    if s == message_name(WellKnownMessage::Any) {
        Some(WellKnownMessage::Any)
    } else if s == message_name(WellKnownMessage::Api) {
        Some(WellKnownMessage::Api)
    } else if s == message_name(WellKnownMessage::BoolValue) {
        Some(WellKnownMessage::BoolValue)
    } else if s == message_name(WellKnownMessage::BytesValue) {
        Some(WellKnownMessage::BytesValue)
    } else if s == message_name(WellKnownMessage::DoubleValue) {
        Some(WellKnownMessage::DoubleValue)
    } else if s == message_name(WellKnownMessage::Duration) {
        Some(WellKnownMessage::Duration)
    } else if s == message_name(WellKnownMessage::Empty) {
        Some(WellKnownMessage::Empty)
    } else if s == message_name(WellKnownMessage::Enum) {
        Some(WellKnownMessage::Enum)
    } else if s == message_name(WellKnownMessage::EnumValue) {
        Some(WellKnownMessage::EnumValue)
    } else if s == message_name(WellKnownMessage::Field) {
        Some(WellKnownMessage::Field)
    } else if s == message_name(WellKnownMessage::FieldKind) {
        Some(WellKnownMessage::FieldKind)
    } else if s == message_name(WellKnownMessage::FieldMask) {
        Some(WellKnownMessage::FieldMask)
    } else if s == message_name(WellKnownMessage::FloatValue) {
        Some(WellKnownMessage::FloatValue)
    } else if s == message_name(WellKnownMessage::Int32Value) {
        Some(WellKnownMessage::Int32Value)
    } else if s == message_name(WellKnownMessage::Int64Value) {
        Some(WellKnownMessage::Int64Value)
    } else if s == message_name(WellKnownMessage::ListValue) {
        Some(WellKnownMessage::ListValue)
    } else if s == message_name(WellKnownMessage::Method) {
        Some(WellKnownMessage::Method)
    } else if s == message_name(WellKnownMessage::Mixin) {
        Some(WellKnownMessage::Mixin)
    } else if s == message_name(WellKnownMessage::Option) {
        Some(WellKnownMessage::Option)
    } else if s == message_name(WellKnownMessage::SourceContext) {
        Some(WellKnownMessage::SourceContext)
    } else if s == message_name(WellKnownMessage::StringValue) {
        Some(WellKnownMessage::StringValue)
    } else if s == message_name(WellKnownMessage::Struct) {
        Some(WellKnownMessage::Struct)
    } else if s == message_name(WellKnownMessage::Timestamp) {
        Some(WellKnownMessage::Timestamp)
    } else if s == message_name(WellKnownMessage::Type) {
        Some(WellKnownMessage::Type)
    } else if s == message_name(WellKnownMessage::UInt32Value) {
        Some(WellKnownMessage::UInt32Value)
    } else if s == message_name(WellKnownMessage::UInt64Value) {
        Some(WellKnownMessage::UInt64Value)
    } else if s == message_name(WellKnownMessage::Value) {
        Some(WellKnownMessage::Value)
    } else {
        None
    }
}

impl WellKnownMessage {
    /// The name of the type, without its package.
    pub fn as_str(self) -> (r: &'static str)
        ensures
            r@ == message_name(self),
    {
        match self {
            WellKnownMessage::Any => {
                proof {
                    reveal_strlit("Any");
                }
                assert("Any"@ =~= seq!['A', 'n', 'y']);
                "Any"
            },
            WellKnownMessage::Api => {
                proof {
                    reveal_strlit("Api");
                }
                assert("Api"@ =~= seq!['A', 'p', 'i']);
                "Api"
            },
            WellKnownMessage::BoolValue => {
                proof {
                    reveal_strlit("BoolValue");
                }
                assert("BoolValue"@ =~= seq!['B', 'o', 'o', 'l', 'V', 'a', 'l', 'u', 'e']);
                "BoolValue"
            },
            WellKnownMessage::BytesValue => {
                proof {
                    reveal_strlit("BytesValue");
                }
                assert("BytesValue"@ =~= seq!['B', 'y', 't', 'e', 's', 'V', 'a', 'l', 'u', 'e']);
                "BytesValue"
            },
            WellKnownMessage::DoubleValue => {
                proof {
                    reveal_strlit("DoubleValue");
                }
                assert("DoubleValue"@ =~= seq!['D', 'o', 'u', 'b', 'l', 'e', 'V', 'a', 'l', 'u', 'e']);
                "DoubleValue"
            },
            WellKnownMessage::Duration => {
                proof {
                    reveal_strlit("Duration");
                }
                assert("Duration"@ =~= seq!['D', 'u', 'r', 'a', 't', 'i', 'o', 'n']);
                "Duration"
            },
            WellKnownMessage::Empty => {
                proof {
                    reveal_strlit("Empty");
                }
                assert("Empty"@ =~= seq!['E', 'm', 'p', 't', 'y']);
                "Empty"
            },
            WellKnownMessage::Enum => {
                proof {
                    reveal_strlit("Enum");
                }
                assert("Enum"@ =~= seq!['E', 'n', 'u', 'm']);
                "Enum"
            },
            WellKnownMessage::EnumValue => {
                proof {
                    reveal_strlit("EnumValue");
                }
                assert("EnumValue"@ =~= seq!['E', 'n', 'u', 'm', 'V', 'a', 'l', 'u', 'e']);
                "EnumValue"
            },
            WellKnownMessage::Field => {
                proof {
                    reveal_strlit("Field");
                }
                assert("Field"@ =~= seq!['F', 'i', 'e', 'l', 'd']);
                "Field"
            },
            WellKnownMessage::FieldKind => {
                proof {
                    reveal_strlit("FieldKind");
                }
                assert("FieldKind"@ =~= seq!['F', 'i', 'e', 'l', 'd', 'K', 'i', 'n', 'd']);
                "FieldKind"
            },
            WellKnownMessage::FieldMask => {
                proof {
                    reveal_strlit("FieldMask");
                }
                assert("FieldMask"@ =~= seq!['F', 'i', 'e', 'l', 'd', 'M', 'a', 's', 'k']);
                "FieldMask"
            },
            WellKnownMessage::FloatValue => {
                proof {
                    reveal_strlit("FloatValue");
                }
                assert("FloatValue"@ =~= seq!['F', 'l', 'o', 'a', 't', 'V', 'a', 'l', 'u', 'e']);
                "FloatValue"
            },
            WellKnownMessage::Int32Value => {
                proof {
                    reveal_strlit("Int32Value");
                }
                assert("Int32Value"@ =~= seq!['I', 'n', 't', '3', '2', 'V', 'a', 'l', 'u', 'e']);
                "Int32Value"
            },
            WellKnownMessage::Int64Value => {
                proof {
                    reveal_strlit("Int64Value");
                }
                assert("Int64Value"@ =~= seq!['I', 'n', 't', '6', '4', 'V', 'a', 'l', 'u', 'e']);
                "Int64Value"
            },
            WellKnownMessage::ListValue => {
                proof {
                    reveal_strlit("ListValue");
                }
                assert("ListValue"@ =~= seq!['L', 'i', 's', 't', 'V', 'a', 'l', 'u', 'e']);
                "ListValue"
            },
            WellKnownMessage::Method => {
                proof {
                    reveal_strlit("Method");
                }
                assert("Method"@ =~= seq!['M', 'e', 't', 'h', 'o', 'd']);
                "Method"
            },
            WellKnownMessage::Mixin => {
                proof {
                    reveal_strlit("Mixin");
                }
                assert("Mixin"@ =~= seq!['M', 'i', 'x', 'i', 'n']);
                "Mixin"
            },
            WellKnownMessage::Option => {
                proof {
                    reveal_strlit("Option");
                }
                assert("Option"@ =~= seq!['O', 'p', 't', 'i', 'o', 'n']);
                "Option"
            },
            WellKnownMessage::SourceContext => {
                proof {
                    reveal_strlit("SourceContext");
                }
                assert("SourceContext"@ =~= seq!['S', 'o', 'u', 'r', 'c', 'e', 'C', 'o', 'n', 't', 'e', 'x', 't']);
                "SourceContext"
            },
            WellKnownMessage::StringValue => {
                proof {
                    reveal_strlit("StringValue");
                }
                assert("StringValue"@ =~= seq!['S', 't', 'r', 'i', 'n', 'g', 'V', 'a', 'l', 'u', 'e']);
                "StringValue"
            },
            WellKnownMessage::Struct => {
                proof {
                    reveal_strlit("Struct");
                }
                assert("Struct"@ =~= seq!['S', 't', 'r', 'u', 'c', 't']);
                "Struct"
            },
            WellKnownMessage::Timestamp => {
                proof {
                    reveal_strlit("Timestamp");
                }
                assert("Timestamp"@ =~= seq!['T', 'i', 'm', 'e', 's', 't', 'a', 'm', 'p']);
                "Timestamp"
            },
            WellKnownMessage::Type => {
                proof {
                    reveal_strlit("Type");
                }
                assert("Type"@ =~= seq!['T', 'y', 'p', 'e']);
                "Type"
            },
            WellKnownMessage::UInt32Value => {
                proof {
                    reveal_strlit("UInt32Value");
                }
                assert("UInt32Value"@ =~= seq!['U', 'I', 'n', 't', '3', '2', 'V', 'a', 'l', 'u', 'e']);
                "UInt32Value"
            },
            WellKnownMessage::UInt64Value => {
                proof {
                    reveal_strlit("UInt64Value");
                }
                assert("UInt64Value"@ =~= seq!['U', 'I', 'n', 't', '6', '4', 'V', 'a', 'l', 'u', 'e']);
                "UInt64Value"
            },
            WellKnownMessage::Value => {
                proof {
                    reveal_strlit("Value");
                }
                assert("Value"@ =~= seq!['V', 'a', 'l', 'u', 'e']);
                "Value"
            },
        }
    }

    /// The name of the type.
    pub fn to_string(&self) -> (r: String)
        ensures
            r@ == message_name(*self),
    {
        String::from_str(self.as_str())
    }

    /// The type named `s`; fails on any other name.
    pub fn from_name(s: &str) -> (r: Result<WellKnownMessage, ()>)
        ensures
            match message_named(s@) {
                Some(m) => r == Ok::<WellKnownMessage, ()>(m),
                None => r == Err::<WellKnownMessage, ()>(()),
            },
    {
        if same_chars(s, WellKnownMessage::Any.as_str()) {
            return Ok(WellKnownMessage::Any);
        }
        if same_chars(s, WellKnownMessage::Api.as_str()) {
            return Ok(WellKnownMessage::Api);
        }
        if same_chars(s, WellKnownMessage::BoolValue.as_str()) {
            return Ok(WellKnownMessage::BoolValue);
        }
        if same_chars(s, WellKnownMessage::BytesValue.as_str()) {
            return Ok(WellKnownMessage::BytesValue);
        }
        if same_chars(s, WellKnownMessage::DoubleValue.as_str()) {
            return Ok(WellKnownMessage::DoubleValue);
        }
        if same_chars(s, WellKnownMessage::Duration.as_str()) {
            return Ok(WellKnownMessage::Duration);
        }
        if same_chars(s, WellKnownMessage::Empty.as_str()) {
            return Ok(WellKnownMessage::Empty);
        }
        if same_chars(s, WellKnownMessage::Enum.as_str()) {
            return Ok(WellKnownMessage::Enum);
        }
        if same_chars(s, WellKnownMessage::EnumValue.as_str()) {
            return Ok(WellKnownMessage::EnumValue);
        }
        if same_chars(s, WellKnownMessage::Field.as_str()) {
            return Ok(WellKnownMessage::Field);
        }
        if same_chars(s, WellKnownMessage::FieldKind.as_str()) {
            return Ok(WellKnownMessage::FieldKind);
        }
        if same_chars(s, WellKnownMessage::FieldMask.as_str()) {
            return Ok(WellKnownMessage::FieldMask);
        }
        if same_chars(s, WellKnownMessage::FloatValue.as_str()) {
            return Ok(WellKnownMessage::FloatValue);
        }
        if same_chars(s, WellKnownMessage::Int32Value.as_str()) {
            return Ok(WellKnownMessage::Int32Value);
        }
        if same_chars(s, WellKnownMessage::Int64Value.as_str()) {
            return Ok(WellKnownMessage::Int64Value);
        }
        if same_chars(s, WellKnownMessage::ListValue.as_str()) {
            return Ok(WellKnownMessage::ListValue);
        }
        if same_chars(s, WellKnownMessage::Method.as_str()) {
            return Ok(WellKnownMessage::Method);
        }
        if same_chars(s, WellKnownMessage::Mixin.as_str()) {
            return Ok(WellKnownMessage::Mixin);
        }
        if same_chars(s, WellKnownMessage::Option.as_str()) {
            return Ok(WellKnownMessage::Option);
        }
        if same_chars(s, WellKnownMessage::SourceContext.as_str()) {
            return Ok(WellKnownMessage::SourceContext);
        }
        if same_chars(s, WellKnownMessage::StringValue.as_str()) {
            return Ok(WellKnownMessage::StringValue);
        }
        if same_chars(s, WellKnownMessage::Struct.as_str()) {
            return Ok(WellKnownMessage::Struct);
        }
        if same_chars(s, WellKnownMessage::Timestamp.as_str()) {
            return Ok(WellKnownMessage::Timestamp);
        }
        if same_chars(s, WellKnownMessage::Type.as_str()) {
            return Ok(WellKnownMessage::Type);
        }
        if same_chars(s, WellKnownMessage::UInt32Value.as_str()) {
            return Ok(WellKnownMessage::UInt32Value);
        }
        if same_chars(s, WellKnownMessage::UInt64Value.as_str()) {
            return Ok(WellKnownMessage::UInt64Value);
        }
        if same_chars(s, WellKnownMessage::Value.as_str()) {
            return Ok(WellKnownMessage::Value);
        }
        Err(())
    }
}

impl std::str::FromStr for WellKnownMessage {
    type Err = ();

    fn from_str(s: &str) -> (r: Result<WellKnownMessage, ()>)
        ensures
            match message_named(s@) {
                Some(m) => r == Ok::<WellKnownMessage, ()>(m),
                None => r == Err::<WellKnownMessage, ()>(()),
            },
    {
        WellKnownMessage::from_name(s)
    }
}

/// Reading back the name of a well-known message type gives the type.
pub proof fn lemma_message_name_roundtrip(m: WellKnownMessage)
    ensures
        message_named(message_name(m)) == Some(m),
{
    match m {
        WellKnownMessage::Any => {},
        WellKnownMessage::Api => {
            assert(message_name(WellKnownMessage::Api)[1] != message_name(WellKnownMessage::Any)[1]);
        },
        WellKnownMessage::BoolValue => {},
        WellKnownMessage::BytesValue => {},
        WellKnownMessage::DoubleValue => {},
        WellKnownMessage::Duration => {},
        WellKnownMessage::Empty => {},
        WellKnownMessage::Enum => {},
        WellKnownMessage::EnumValue => {
            assert(message_name(WellKnownMessage::EnumValue)[0] != message_name(WellKnownMessage::BoolValue)[0]);
            assert(message_name(WellKnownMessage::EnumValue).len() != message_name(WellKnownMessage::Enum).len());
        },
        WellKnownMessage::Field => {
            assert(message_name(WellKnownMessage::Field)[0] != message_name(WellKnownMessage::Empty)[0]);
        },
        WellKnownMessage::FieldKind => {
            assert(message_name(WellKnownMessage::FieldKind)[0] != message_name(WellKnownMessage::BoolValue)[0]);
            assert(message_name(WellKnownMessage::FieldKind)[0] != message_name(WellKnownMessage::EnumValue)[0]);
            assert(message_name(WellKnownMessage::FieldKind).len() != message_name(WellKnownMessage::Field).len());
        },
        WellKnownMessage::FieldMask => {
            assert(message_name(WellKnownMessage::FieldMask)[0] != message_name(WellKnownMessage::BoolValue)[0]);
            assert(message_name(WellKnownMessage::FieldMask)[0] != message_name(WellKnownMessage::EnumValue)[0]);
            assert(message_name(WellKnownMessage::FieldMask)[5] != message_name(WellKnownMessage::FieldKind)[5]);
            assert(message_name(WellKnownMessage::FieldMask).len() != message_name(WellKnownMessage::Field).len());
        },
        WellKnownMessage::FloatValue => {
            assert(message_name(WellKnownMessage::FloatValue)[0] != message_name(WellKnownMessage::BytesValue)[0]);
        },
        WellKnownMessage::Int32Value => {
            assert(message_name(WellKnownMessage::Int32Value)[0] != message_name(WellKnownMessage::BytesValue)[0]);
            assert(message_name(WellKnownMessage::Int32Value)[0] != message_name(WellKnownMessage::FloatValue)[0]);
        },
        WellKnownMessage::Int64Value => {
            assert(message_name(WellKnownMessage::Int64Value)[0] != message_name(WellKnownMessage::BytesValue)[0]);
            assert(message_name(WellKnownMessage::Int64Value)[0] != message_name(WellKnownMessage::FloatValue)[0]);
            assert(message_name(WellKnownMessage::Int64Value)[3] != message_name(WellKnownMessage::Int32Value)[3]);
        },
        WellKnownMessage::ListValue => {
            assert(message_name(WellKnownMessage::ListValue)[0] != message_name(WellKnownMessage::BoolValue)[0]);
            assert(message_name(WellKnownMessage::ListValue)[0] != message_name(WellKnownMessage::EnumValue)[0]);
            assert(message_name(WellKnownMessage::ListValue)[0] != message_name(WellKnownMessage::FieldKind)[0]);
            assert(message_name(WellKnownMessage::ListValue)[0] != message_name(WellKnownMessage::FieldMask)[0]);
        },
        WellKnownMessage::Method => {},
        WellKnownMessage::Mixin => {
            assert(message_name(WellKnownMessage::Mixin)[0] != message_name(WellKnownMessage::Empty)[0]);
            assert(message_name(WellKnownMessage::Mixin)[0] != message_name(WellKnownMessage::Field)[0]);
        },
        WellKnownMessage::Option => {
            assert(message_name(WellKnownMessage::Option)[0] != message_name(WellKnownMessage::Method)[0]);
        },
        WellKnownMessage::SourceContext => {},
        WellKnownMessage::StringValue => {
            assert(message_name(WellKnownMessage::StringValue)[0] != message_name(WellKnownMessage::DoubleValue)[0]);
        },
        WellKnownMessage::Struct => {
            assert(message_name(WellKnownMessage::Struct)[0] != message_name(WellKnownMessage::Method)[0]);
            assert(message_name(WellKnownMessage::Struct)[0] != message_name(WellKnownMessage::Option)[0]);
        },
        WellKnownMessage::Timestamp => {
            assert(message_name(WellKnownMessage::Timestamp)[0] != message_name(WellKnownMessage::BoolValue)[0]);
            assert(message_name(WellKnownMessage::Timestamp)[0] != message_name(WellKnownMessage::EnumValue)[0]);
            assert(message_name(WellKnownMessage::Timestamp)[0] != message_name(WellKnownMessage::FieldKind)[0]);
            assert(message_name(WellKnownMessage::Timestamp)[0] != message_name(WellKnownMessage::FieldMask)[0]);
            assert(message_name(WellKnownMessage::Timestamp)[0] != message_name(WellKnownMessage::ListValue)[0]);
        },
        WellKnownMessage::Type => {
            assert(message_name(WellKnownMessage::Type)[0] != message_name(WellKnownMessage::Enum)[0]);
        },
        WellKnownMessage::UInt32Value => {
            assert(message_name(WellKnownMessage::UInt32Value)[0] != message_name(WellKnownMessage::DoubleValue)[0]);
            assert(message_name(WellKnownMessage::UInt32Value)[0] != message_name(WellKnownMessage::StringValue)[0]);
        },
        WellKnownMessage::UInt64Value => {
            assert(message_name(WellKnownMessage::UInt64Value)[0] != message_name(WellKnownMessage::DoubleValue)[0]);
            assert(message_name(WellKnownMessage::UInt64Value)[0] != message_name(WellKnownMessage::StringValue)[0]);
            assert(message_name(WellKnownMessage::UInt64Value)[4] != message_name(WellKnownMessage::UInt32Value)[4]);
        },
        WellKnownMessage::Value => {
            assert(message_name(WellKnownMessage::Value)[0] != message_name(WellKnownMessage::Empty)[0]);
            assert(message_name(WellKnownMessage::Value)[0] != message_name(WellKnownMessage::Field)[0]);
            assert(message_name(WellKnownMessage::Value)[0] != message_name(WellKnownMessage::Mixin)[0]);
        },
    }
}

/// A range of field numbers that a message sets aside for extensions.
#[derive(Clone, Debug, PartialEq)]
pub struct ExtensionRange {
    pub start: i32,
    pub end: i32,
    pub uninterpreted_options: Vec<UninterpretedOption>,
}

/// `r` is the range that the descriptor `d` describes: an unset bound is
/// 0, and a range without options has no uninterpreted options.
pub open spec fn range_from(r: ExtensionRange, d: descriptor::ExtensionRange) -> bool {
    &&& r.start == (match d.start {
        Some(v) => v,
        None => 0i32,
    })
    &&& r.end == (match d.end {
        Some(v) => v,
        None => 0i32,
    })
    &&& match d.options {
        Some(opts) => {
            &&& r.uninterpreted_options@.len() == opts@.len()
            &&& forall|k: int|
                0 <= k < opts@.len() ==> option_from(#[trigger] r.uninterpreted_options@[k], opts@[k])
        },
        None => r.uninterpreted_options@.len() == 0,
    }
}

impl ExtensionRange {
    /// The range that the descriptor `d` describes (see [`range_from`]).
    pub fn from_descriptor(d: descriptor::ExtensionRange) -> (r: ExtensionRange)
        ensures
            range_from(r, d),
    {
        let start = match d.start {
            Some(v) => v,
            None => 0,
        };
        let end = match d.end {
            Some(v) => v,
            None => 0,
        };
        let uninterpreted_options = match d.options {
            Some(opts) => UninterpretedOption::from_descriptors(opts),
            None => Vec::new(),
        };
        ExtensionRange { start, end, uninterpreted_options }
    }

    /// The ranges that the descriptors `ds` describe, in order.
    pub fn from_descriptors(ds: Vec<descriptor::ExtensionRange>) -> (r: Vec<ExtensionRange>)
        ensures
            r@.len() == ds@.len(),
            forall|k: int| 0 <= k < ds@.len() ==> range_from(#[trigger] r@[k], ds@[k]),
    {
        let ghost all = ds@;
        let mut out: Vec<ExtensionRange> = Vec::new();
        for d in it: ds.into_iter()
            invariant
                it.seq() == all,
                out@.len() == it.index(),
                forall|k: int| 0 <= k < it.index() ==> range_from(#[trigger] out@[k], all[k]),
        {
            out.push(ExtensionRange::from_descriptor(d));
        }
        out
    }

    pub fn start(&self) -> (r: i32)
        ensures
            r == self.start,
    {
        self.start
    }

    pub fn end(&self) -> (r: i32)
        ensures
            r == self.end,
    {
        self.end
    }

    pub fn uninterpreted_options(&self) -> (r: &[UninterpretedOption])
        ensures
            r@ == self.uninterpreted_options@,
    {
        self.uninterpreted_options.as_slice()
    }
}

/// What the hydration of a message reads.
#[derive(Debug)]
pub struct Hydrate {
    pub name: String,
    pub container: ContainerKey,
    pub package: Option<PackageKey>,
    pub well_known: Option<WellKnownMessage>,
    pub location: Detail,
    pub options: Option<MessageOptions>,
    pub reserved_ranges: Vec<ReservedRange>,
    pub reserved_names: Vec<String>,
    pub extension_range: Vec<descriptor::ExtensionRange>,
    pub messages: Vec<Hydrated<MessageKey>>,
    pub enums: Vec<Hydrated<EnumKey>>,
    pub fields: Vec<Hydrated<FieldKey>>,
    pub oneofs: Vec<Hydrated<OneofKey>>,
    pub extensions: Vec<Hydrated<ExtensionKey>>,
    pub extension_blocks: Vec<ExtensionBlockKey>,
}

/// The data of a message node.
#[derive(Clone, Debug)]
pub struct Inner {
    pub key: MessageKey,
    pub fqn: FullyQualifiedName,
    pub name: String,
    pub node_path: Vec<i32>,
    pub span: Span,
    pub comments: Option<Comments>,
    pub container: ContainerKey,
    pub package: Option<PackageKey>,
    pub file: FileKey,
    pub extensions: KeySet<ExtensionKey>,
    pub extension_blocks: Vec<ExtensionBlockKey>,
    pub fields: KeySet<FieldKey>,
    pub enums: KeySet<EnumKey>,
    pub messages: KeySet<MessageKey>,
    pub oneofs: KeySet<OneofKey>,
    pub real_oneofs: KeySet<OneofKey>,
    pub synthetic_oneofs: KeySet<OneofKey>,
    pub defined_extensions: KeySet<ExtensionKey>,
    pub applied_extensions: KeySet<ExtensionKey>,
    pub dependents: KeySet<FileKey>,
    pub referenced_by: Vec<ReferenceInner>,
    pub references: Vec<ReferenceInner>,
    pub extension_ranges: Vec<ExtensionRange>,
    pub reserved: Reserved,
    pub message_set_wire_format: bool,
    pub no_standard_descriptor_accessor: bool,
    pub deprecated: bool,
    pub map_entry: bool,
    pub uninterpreted_options: Vec<UninterpretedOption>,
}

/// `m` holds the options `o`: unset flags read as `false`.
pub open spec fn message_options_from(m: Inner, o: MessageOptions) -> bool {
    &&& m.message_set_wire_format == flag(o.message_set_wire_format)
    &&& m.no_standard_descriptor_accessor == flag(o.no_standard_descriptor_accessor)
    &&& m.deprecated == flag(o.deprecated)
    &&& m.map_entry == flag(o.map_entry)
    &&& m.uninterpreted_options@.len() == o.uninterpreted_option@.len()
    &&& forall|k: int|
        0 <= k < o.uninterpreted_option@.len() ==> option_from(
            #[trigger] m.uninterpreted_options@[k],
            o.uninterpreted_option@[k],
        )
}

/// `m` has none of the options set.
pub open spec fn message_options_unset(m: Inner) -> bool {
    &&& !m.message_set_wire_format
    &&& !m.no_standard_descriptor_accessor
    &&& !m.deprecated
    &&& !m.map_entry
    &&& m.uninterpreted_options@.len() == 0
}

impl Inner {
    /// A message node with the name `fqn` and nothing else set.
    pub fn from_fqn(fqn: FullyQualifiedName) -> (r: Inner)
        ensures
            r.key == MessageKey(0),
            r.fqn@ == fqn@,
            r.name@.len() == 0,
            r.node_path@.len() == 0,
            r.comments is None,
            r.package is None,
            r.fields@.len() == 0 && r.messages@.len() == 0 && r.enums@.len() == 0,
            r.extension_ranges@.len() == 0,
            message_options_unset(r),
    {
        Inner {
            key: MessageKey(0),
            fqn,
            name: String::new(),
            node_path: Vec::new(),
            span: Span { start_line: 0, start_column: 0, end_line: 0, end_column: 0 },
            comments: None,
            container: ContainerKey::File(FileKey(0)),
            package: None,
            file: FileKey(0),
            extensions: KeySet::new(),
            extension_blocks: Vec::new(),
            fields: KeySet::new(),
            enums: KeySet::new(),
            messages: KeySet::new(),
            oneofs: KeySet::new(),
            real_oneofs: KeySet::new(),
            synthetic_oneofs: KeySet::new(),
            defined_extensions: KeySet::new(),
            applied_extensions: KeySet::new(),
            dependents: KeySet::new(),
            referenced_by: Vec::new(),
            references: Vec::new(),
            extension_ranges: Vec::new(),
            reserved: Reserved::new(Vec::new(), Vec::new()),
            message_set_wire_format: false,
            no_standard_descriptor_accessor: false,
            deprecated: false,
            map_entry: false,
            uninterpreted_options: Vec::new(),
        }
    }

    /// Takes the path, span and comments of the message from `location`.
    pub fn hydrate_location(&mut self, location: Detail)
        ensures
            *final(self) == (Inner {
                comments: location.comments,
                span: location.span,
                node_path: location.path,
                ..*old(self)
            }),
    {
        self.comments = location.comments;
        self.span = location.span;
        self.node_path = location.path;
    }

    /// Sets the reserved names and ranges.
    pub fn set_reserved(&mut self, names: Vec<String>, ranges: Vec<ReservedRange>)
        ensures
            final(self).reserved.names@ == names@,
            final(self).reserved.ranges@ == ranges@,
            *final(self) == (Inner { reserved: final(self).reserved, ..*old(self) }),
    {
        self.reserved = Reserved::new(names, ranges);
    }

    /// Reads the options `opts` into the node.
    pub fn hydrate_options(&mut self, opts: MessageOptions)
        ensures
            message_options_from(*final(self), opts),
            *final(self) == (Inner {
                message_set_wire_format: final(self).message_set_wire_format,
                no_standard_descriptor_accessor: final(self).no_standard_descriptor_accessor,
                deprecated: final(self).deprecated,
                map_entry: final(self).map_entry,
                uninterpreted_options: final(self).uninterpreted_options,
                ..*old(self)
            }),
    {
        let MessageOptions {
            message_set_wire_format,
            no_standard_descriptor_accessor,
            deprecated,
            map_entry,
            uninterpreted_option,
        } = opts;
        self.message_set_wire_format = match message_set_wire_format {
            Some(b) => b,
            None => false,
        };
        self.no_standard_descriptor_accessor = match no_standard_descriptor_accessor {
            Some(b) => b,
            None => false,
        };
        self.deprecated = match deprecated {
            Some(b) => b,
            None => false,
        };
        self.map_entry = match map_entry {
            Some(b) => b,
            None => false,
        };
        self.uninterpreted_options = UninterpretedOption::from_descriptors(uninterpreted_option);
    }

    /// Fills the node from `hydrate`; gives its key, fully qualified name
    /// and name. The well-known type that `hydrate` names is not kept.
    pub fn hydrate(&mut self, hydrate: Hydrate) -> (r: Hydrated<MessageKey>)
        ensures
            r.0 == old(self).key,
            r.1@ == old(self).fqn@,
            r.2@ == hydrate.name@,
            final(self).key == old(self).key,
            final(self).fqn == old(self).fqn,
            final(self).name == hydrate.name,
            final(self).package == hydrate.package,
            final(self).container == hydrate.container,
            final(self).extension_ranges@.len() == hydrate.extension_range@.len(),
            forall|k: int|
                0 <= k < hydrate.extension_range@.len() ==> range_from(
                    #[trigger] final(self).extension_ranges@[k],
                    hydrate.extension_range@[k],
                ),
            final(self).fields.wf(),
            final(self).fields@ == hydrate.fields@.map_values(|x: Hydrated<FieldKey>| x.0),
            final(self).fields.names() == hydrate.fields@.map_values(|x: Hydrated<FieldKey>| x.2@),
            final(self).enums.wf(),
            final(self).enums@ == hydrate.enums@.map_values(|x: Hydrated<EnumKey>| x.0),
            final(self).enums.names() == hydrate.enums@.map_values(|x: Hydrated<EnumKey>| x.2@),
            final(self).messages.wf(),
            final(self).messages@ == hydrate.messages@.map_values(|x: Hydrated<MessageKey>| x.0),
            final(self).messages.names() == hydrate.messages@.map_values(|x: Hydrated<MessageKey>| x.2@),
            final(self).oneofs.wf(),
            final(self).oneofs@ == hydrate.oneofs@.map_values(|x: Hydrated<OneofKey>| x.0),
            final(self).oneofs.names() == hydrate.oneofs@.map_values(|x: Hydrated<OneofKey>| x.2@),
            final(self).extensions.wf(),
            final(self).extensions@ == hydrate.extensions@.map_values(|x: Hydrated<ExtensionKey>| x.0),
            final(self).extensions.names() == hydrate.extensions@.map_values(|x: Hydrated<ExtensionKey>| x.2@),
            final(self).extension_blocks == hydrate.extension_blocks,
            final(self).node_path == hydrate.location.path,
            final(self).span == hydrate.location.span,
            final(self).comments == hydrate.location.comments,
            final(self).reserved.names@ == hydrate.reserved_names@,
            final(self).reserved.ranges@ == hydrate.reserved_ranges@,
            match hydrate.options {
                Some(o) => message_options_from(*final(self), o),
                None => message_options_unset(*final(self)),
            },
            final(self).file == old(self).file,
            final(self).referenced_by == old(self).referenced_by,
            final(self).references == old(self).references,
            final(self).real_oneofs == old(self).real_oneofs,
            final(self).synthetic_oneofs == old(self).synthetic_oneofs,
            final(self).defined_extensions == old(self).defined_extensions,
            final(self).applied_extensions == old(self).applied_extensions,
            final(self).dependents == old(self).dependents,
    {
        let Hydrate {
            name,
            container,
            package,
            well_known: _,
            location,
            options,
            reserved_ranges,
            reserved_names,
            extension_range,
            messages,
            enums,
            fields,
            oneofs,
            extensions,
            extension_blocks,
        } = hydrate;
        self.name = name;
        self.package = package;
        self.container = container;
        self.extension_ranges = ExtensionRange::from_descriptors(extension_range);
        self.messages = KeySet::from_vec(messages);
        self.enums = KeySet::from_vec(enums);
        self.fields = KeySet::from_vec(fields);
        self.oneofs = KeySet::from_vec(oneofs);
        self.extensions = KeySet::from_vec(extensions);
        self.extension_blocks = extension_blocks;
        self.hydrate_location(location);
        let options = match options {
            Some(o) => o,
            None => MessageOptions {
                message_set_wire_format: None,
                no_standard_descriptor_accessor: None,
                deprecated: None,
                map_entry: None,
                uninterpreted_option: Vec::new(),
            },
        };
        self.hydrate_options(options);
        self.set_reserved(reserved_names, reserved_ranges);
        (self.key, self.fqn.duplicate(), self.name.clone())
    }

    pub fn set_key(&mut self, key: MessageKey)
        ensures
            *final(self) == (Inner { key, ..*old(self) }),
    {
        self.key = key;
    }

    pub fn name(&self) -> (r: &str)
        ensures
            r@ == self.name@,
    {
        self.name.as_str()
    }

    /// The node keys of the fields, enums, nested messages, oneofs and defined extensions of the message, in that order.
    pub fn keys(&self) -> (r: Vec<NodeKey>)
        ensures
            r@ == self.fields@.map_values(|k: FieldKey| NodeKey::Field(k)) + self.enums@.map_values(|k: EnumKey| NodeKey::Enum(k)) + self.messages@.map_values(|k: MessageKey| NodeKey::Message(k)) + self.oneofs@.map_values(|k: OneofKey| NodeKey::Oneof(k)) + self.defined_extensions@.map_values(|k: ExtensionKey| NodeKey::Extension(k)),
    {
        let mut out: Vec<NodeKey> = Vec::new();
        let xs = self.fields.as_slice();
        let mut i: usize = 0;
        while i < xs.len()
            invariant
                i <= xs@.len(),
                xs@ == self.fields@,
                out@ == Seq::<NodeKey>::empty() + xs@.subrange(0, i as int).map_values(|k: FieldKey| NodeKey::Field(k)),
            decreases xs@.len() - i,
        {
            out.push(NodeKey::Field(xs[i]));
            i = i + 1;
            assert(out@ =~= Seq::<NodeKey>::empty() + xs@.subrange(0, i as int).map_values(|k: FieldKey| NodeKey::Field(k)));
        }
        assert(xs@.subrange(0, i as int) =~= xs@);
        let ghost g1 = out@;
        let xs = self.enums.as_slice();
        let mut i: usize = 0;
        while i < xs.len()
            invariant
                i <= xs@.len(),
                xs@ == self.enums@,
                out@ == g1 + xs@.subrange(0, i as int).map_values(|k: EnumKey| NodeKey::Enum(k)),
            decreases xs@.len() - i,
        {
            out.push(NodeKey::Enum(xs[i]));
            i = i + 1;
            assert(out@ =~= g1 + xs@.subrange(0, i as int).map_values(|k: EnumKey| NodeKey::Enum(k)));
        }
        assert(xs@.subrange(0, i as int) =~= xs@);
        let ghost g2 = out@;
        let xs = self.messages.as_slice();
        let mut i: usize = 0;
        while i < xs.len()
            invariant
                i <= xs@.len(),
                xs@ == self.messages@,
                out@ == g2 + xs@.subrange(0, i as int).map_values(|k: MessageKey| NodeKey::Message(k)),
            decreases xs@.len() - i,
        {
            out.push(NodeKey::Message(xs[i]));
            i = i + 1;
            assert(out@ =~= g2 + xs@.subrange(0, i as int).map_values(|k: MessageKey| NodeKey::Message(k)));
        }
        assert(xs@.subrange(0, i as int) =~= xs@);
        let ghost g3 = out@;
        let xs = self.oneofs.as_slice();
        let mut i: usize = 0;
        while i < xs.len()
            invariant
                i <= xs@.len(),
                xs@ == self.oneofs@,
                out@ == g3 + xs@.subrange(0, i as int).map_values(|k: OneofKey| NodeKey::Oneof(k)),
            decreases xs@.len() - i,
        {
            out.push(NodeKey::Oneof(xs[i]));
            i = i + 1;
            assert(out@ =~= g3 + xs@.subrange(0, i as int).map_values(|k: OneofKey| NodeKey::Oneof(k)));
        }
        assert(xs@.subrange(0, i as int) =~= xs@);
        let ghost g4 = out@;
        let xs = self.defined_extensions.as_slice();
        let mut i: usize = 0;
        while i < xs.len()
            invariant
                i <= xs@.len(),
                xs@ == self.defined_extensions@,
                out@ == g4 + xs@.subrange(0, i as int).map_values(|k: ExtensionKey| NodeKey::Extension(k)),
            decreases xs@.len() - i,
        {
            out.push(NodeKey::Extension(xs[i]));
            i = i + 1;
            assert(out@ =~= g4 + xs@.subrange(0, i as int).map_values(|k: ExtensionKey| NodeKey::Extension(k)));
        }
        assert(xs@.subrange(0, i as int) =~= xs@);
        out
    }

    pub fn reserved(&self) -> (r: &Reserved)
        ensures
            *r == self.reserved,
    {
        &self.reserved
    }
}

} // verus!
