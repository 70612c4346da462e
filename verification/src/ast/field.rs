//! Fields: labels, options and the types of their values.
use crate::ast::node::{EnumKey, MessageKey};
use crate::error::{Error, ErrorView};
use vstd::prelude::*;

verus! {

/// The label of a field.
#[derive(Clone, Copy, Debug, PartialEq, Eq, Structural, Hash)]
pub enum Label {
    Required,
    Optional,
    Repeated,
    /// A label number that is none of the above.
    Unkown(i32),
}

/// The C++ string representation of a field.
#[derive(Clone, Copy, Debug, PartialEq, Eq, Structural, Hash, PartialOrd, Ord)]
pub enum CType {
    /// The default representation.
    String,
    Cord,
    StringPiece,
    /// A number that is none of the above.
    Unknown(i32),
}

/// The representation that `code` of the descriptor stands for.
pub open spec fn ctype_of(code: i32) -> CType {
    if code == 0 {
        CType::String
    } else if code == 1 {
        CType::Cord
    } else if code == 2 {
        CType::StringPiece
    } else {
        CType::Unknown(code)
    }
}

/// Distinct numbers stand for distinct representations, and any number
/// but 0 to 2 is kept as it is.
pub proof fn lemma_ctype_codes(code: i32, other: i32)
    ensures
        ctype_of(code) is Unknown <==> (code < 0 || code > 2),
        ctype_of(code) == ctype_of(other) ==> code == other,
{
}

impl CType {
    /// The representation that the number `code` of the descriptor stands
    /// for; other numbers are kept in [`CType::Unknown`].
    pub fn from_code(code: i32) -> (r: CType)
        ensures
            r == ctype_of(code),
    {
        if code == 0 {
            CType::String
        } else if code == 1 {
            CType::Cord
        } else if code == 2 {
            CType::StringPiece
        } else {
            CType::Unknown(code)
        }
    }
}

/// The JavaScript type of a 64-bit integer field.
#[derive(Clone, Copy, Debug, PartialEq, Eq, Structural, Hash, PartialOrd, Ord)]
pub enum JsType {
    /// The default type.
    Normal,
    /// JavaScript strings.
    String,
    /// JavaScript numbers.
    Number,
    /// A number that is none of the above.
    Unknown(i32),
}

/// The JavaScript type that `code` of the descriptor stands for.
pub open spec fn js_type_of(code: i32) -> JsType {
    if code == 0 {
        JsType::Normal
    } else if code == 1 {
        JsType::String
    } else if code == 2 {
        JsType::Number
    } else {
        JsType::Unknown(code)
    }
}

/// Distinct numbers stand for distinct JavaScript types, and any number
/// but 0 to 2 is kept as it is.
pub proof fn lemma_js_type_codes(code: i32, other: i32)
    ensures
        js_type_of(code) is Unknown <==> (code < 0 || code > 2),
        js_type_of(code) == js_type_of(other) ==> code == other,
{
}

impl JsType {
    /// The JavaScript type that the number `code` of the descriptor stands
    /// for; other numbers are kept in [`JsType::Unknown`].
    pub fn from_code(code: i32) -> (r: JsType)
        ensures
            r == js_type_of(code),
    {
        if code == 0 {
            JsType::Normal
        } else if code == 1 {
            JsType::String
        } else if code == 2 {
            JsType::Number
        } else {
            JsType::Unknown(code)
        }
    }
}

/// The scalar types of field values.
#[derive(Clone, Copy, Debug, PartialEq, Eq, Structural, Hash, PartialOrd, Ord)]
pub enum Scalar {
    Double,
    Float,
    Int64,
    Uint64,
    Int32,
    Fixed64,
    Fixed32,
    Bool,
    String,
    Bytes,
    Uint32,
    Enum,
    Sfixed32,
    Sfixed64,
    Sint32,
    Sint64,
}

/// The name of a scalar type in `.proto` files.
pub open spec fn scalar_name(s: Scalar) -> Seq<char> {
    match s {
        Scalar::Double => seq!['d', 'o', 'u', 'b', 'l', 'e'],
        Scalar::Float => seq!['f', 'l', 'o', 'a', 't'],
        Scalar::Int64 => seq!['i', 'n', 't', '6', '4'],
        Scalar::Uint64 => seq!['u', 'i', 'n', 't', '6', '4'],
        Scalar::Int32 => seq!['i', 'n', 't', '3', '2'],
        Scalar::Fixed64 => seq!['f', 'i', 'x', 'e', 'd', '6', '4'],
        Scalar::Fixed32 => seq!['f', 'i', 'x', 'e', 'd', '3', '2'],
        Scalar::Bool => seq!['b', 'o', 'o', 'l'],
        Scalar::String => seq!['s', 't', 'r', 'i', 'n', 'g'],
        Scalar::Bytes => seq!['b', 'y', 't', 'e', 's'],
        Scalar::Uint32 => seq!['u', 'i', 'n', 't', '3', '2'],
        Scalar::Enum => seq!['e', 'n', 'u', 'm'],
        Scalar::Sfixed32 => seq!['s', 'f', 'i', 'x', 'e', 'd', '3', '2'],
        Scalar::Sfixed64 => seq!['s', 'f', 'i', 'x', 'e', 'd', '6', '4'],
        Scalar::Sint32 => seq!['s', 'i', 'n', 't', '3', '2'],
        Scalar::Sint64 => seq!['s', 'i', 'n', 't', '6', '4'],
    }
}

/// The number of the descriptor's field type for a scalar type.
pub open spec fn scalar_code(s: Scalar) -> i32 {
    match s {
        Scalar::Double => 1,
        Scalar::Float => 2,
        Scalar::Int64 => 3,
        Scalar::Uint64 => 4,
        Scalar::Int32 => 5,
        Scalar::Fixed64 => 6,
        Scalar::Fixed32 => 7,
        Scalar::Bool => 8,
        Scalar::String => 9,
        Scalar::Bytes => 12,
        Scalar::Uint32 => 13,
        Scalar::Enum => 14,
        Scalar::Sfixed32 => 15,
        Scalar::Sfixed64 => 16,
        Scalar::Sint32 => 17,
        Scalar::Sint64 => 18,
    }
}

impl Scalar {
    /// The name of the type in `.proto` files.
    pub fn as_str(&self) -> (r: &'static str)
        ensures
            r@ == scalar_name(*self),
    {
        match self {
            Scalar::Double => {
                proof {
                    reveal_strlit("double");
                }
                assert("double"@ =~= scalar_name(Scalar::Double));
                "double"
            },
            Scalar::Float => {
                proof {
                    reveal_strlit("float");
                }
                assert("float"@ =~= scalar_name(Scalar::Float));
                "float"
            },
            Scalar::Int64 => {
                proof {
                    reveal_strlit("int64");
                }
                assert("int64"@ =~= scalar_name(Scalar::Int64));
                "int64"
            },
            Scalar::Uint64 => {
                proof {
                    reveal_strlit("uint64");
                }
                assert("uint64"@ =~= scalar_name(Scalar::Uint64));
                "uint64"
            },
            Scalar::Int32 => {
                proof {
                    reveal_strlit("int32");
                }
                assert("int32"@ =~= scalar_name(Scalar::Int32));
                "int32"
            },
            Scalar::Fixed64 => {
                proof {
                    reveal_strlit("fixed64");
                }
                assert("fixed64"@ =~= scalar_name(Scalar::Fixed64));
                "fixed64"
            },
            Scalar::Fixed32 => {
                proof {
                    reveal_strlit("fixed32");
                }
                assert("fixed32"@ =~= scalar_name(Scalar::Fixed32));
                "fixed32"
            },
            Scalar::Bool => {
                proof {
                    reveal_strlit("bool");
                }
                assert("bool"@ =~= scalar_name(Scalar::Bool));
                "bool"
            },
            Scalar::String => {
                proof {
                    reveal_strlit("string");
                }
                assert("string"@ =~= scalar_name(Scalar::String));
                "string"
            },
            Scalar::Bytes => {
                proof {
                    reveal_strlit("bytes");
                }
                assert("bytes"@ =~= scalar_name(Scalar::Bytes));
                "bytes"
            },
            Scalar::Uint32 => {
                proof {
                    reveal_strlit("uint32");
                }
                assert("uint32"@ =~= scalar_name(Scalar::Uint32));
                "uint32"
            },
            Scalar::Enum => {
                proof {
                    reveal_strlit("enum");
                }
                assert("enum"@ =~= scalar_name(Scalar::Enum));
                "enum"
            },
            Scalar::Sfixed32 => {
                proof {
                    reveal_strlit("sfixed32");
                }
                assert("sfixed32"@ =~= scalar_name(Scalar::Sfixed32));
                "sfixed32"
            },
            Scalar::Sfixed64 => {
                proof {
                    reveal_strlit("sfixed64");
                }
                assert("sfixed64"@ =~= scalar_name(Scalar::Sfixed64));
                "sfixed64"
            },
            Scalar::Sint32 => {
                proof {
                    reveal_strlit("sint32");
                }
                assert("sint32"@ =~= scalar_name(Scalar::Sint32));
                "sint32"
            },
            Scalar::Sint64 => {
                proof {
                    reveal_strlit("sint64");
                }
                assert("sint64"@ =~= scalar_name(Scalar::Sint64));
                "sint64"
            },
        }
    }

    /// The name of the type in `.proto` files.
    pub fn to_string(&self) -> (r: String)
        ensures
            r@ == scalar_name(*self),
    {
        String::from_str(self.as_str())
    }
}

/// The scalar types that can key a map field.
#[derive(Clone, Copy, Debug, PartialEq, Eq, Structural, Hash, PartialOrd, Ord)]
pub enum MapKey {
    Int64,
    Uint64,
    Int32,
    Fixed64,
    Fixed32,
    String,
    Uint32,
    Sfixed32,
    Sfixed64,
    Sint32,
    Sint64,
}

/// The value type of a field, with the keys of the enum and message types
/// it names.
#[derive(Clone, Copy, Debug, PartialEq, Eq, Structural)]
pub enum ValueInner {
    Scalar(Scalar),
    Enum(EnumKey),
    Message(MessageKey),
    Unknown(i32),
}

impl Default for ValueInner {
    fn default() -> (r: ValueInner)
        ensures
            r == ValueInner::Unknown(0),
    {
        ValueInner::Unknown(0)
    }
}

/// The field type number of the descriptor for groups.
pub const TYPE_GROUP: i32 = 10;

/// The field type number of the descriptor for messages.
pub const TYPE_MESSAGE: i32 = 11;

/// The field type number of the descriptor for enums.
pub const TYPE_ENUM: i32 = 14;

/// The scalar type whose field type number is `code`, if any.
pub open spec fn scalar_of(code: i32) -> Option<Scalar> {
    if code == 1 {
        Some(Scalar::Double)
    } else if code == 2 {
        Some(Scalar::Float)
    } else if code == 3 {
        Some(Scalar::Int64)
    } else if code == 4 {
        Some(Scalar::Uint64)
    } else if code == 5 {
        Some(Scalar::Int32)
    } else if code == 6 {
        Some(Scalar::Fixed64)
    } else if code == 7 {
        Some(Scalar::Fixed32)
    } else if code == 8 {
        Some(Scalar::Bool)
    } else if code == 9 {
        Some(Scalar::String)
    } else if code == 12 {
        Some(Scalar::Bytes)
    } else if code == 13 {
        Some(Scalar::Uint32)
    } else if code == 15 {
        Some(Scalar::Sfixed32)
    } else if code == 16 {
        Some(Scalar::Sfixed64)
    } else if code == 17 {
        Some(Scalar::Sint32)
    } else if code == 18 {
        Some(Scalar::Sint64)
    } else {
        None
    }
}

/// What the field type number `typ` makes of a value type, given the keys
/// of the enum and message types the field names.
pub open spec fn spec_value_inner(typ: i32, enum_: Option<EnumKey>, msg: Option<MessageKey>) -> Result<
    ValueInner,
    ErrorView,
> {
    if typ == TYPE_ENUM {
        Ok(ValueInner::Enum(enum_->0))
    } else if typ == TYPE_MESSAGE {
        Ok(ValueInner::Message(msg->0))
    } else if typ == TYPE_GROUP {
        Err(ErrorView::GroupNotSupported)
    } else {
        Ok(ValueInner::Scalar(scalar_of(typ)->0))
    }
}

impl ValueInner {
    /// The value type of a field of the descriptor type `typ` (a number of
    /// the descriptor's field types, 1 to 18); an enum field names the enum
    /// `enum_` and a message field the message `msg`. Groups are refused.
    pub fn new(typ: i32, enum_: Option<EnumKey>, msg: Option<MessageKey>) -> (r: Result<
        ValueInner,
        Error,
    >)
        requires
            1 <= typ <= 18,
            typ == TYPE_ENUM ==> enum_ is Some,
            typ == TYPE_MESSAGE ==> msg is Some,
        ensures
            match spec_value_inner(typ, enum_, msg) {
                Ok(v) => r matches Ok(x) && x == v,
                Err(e) => r matches Err(x) && x@ == e,
            },
    {
        if typ == TYPE_ENUM {
            return Ok(ValueInner::Enum(enum_.unwrap()));
        }
        if typ == TYPE_MESSAGE {
            return Ok(ValueInner::Message(msg.unwrap()));
        }
        if typ == TYPE_GROUP {
            return Err(Error::GroupNotSupported);
        }
        let s = 
        if typ == 1 {
            Scalar::Double
        } else if typ == 2 {
            Scalar::Float
        } else if typ == 3 {
            Scalar::Int64
        } else if typ == 4 {
            Scalar::Uint64
        } else if typ == 5 {
            Scalar::Int32
        } else if typ == 6 {
            Scalar::Fixed64
        } else if typ == 7 {
            Scalar::Fixed32
        } else if typ == 8 {
            Scalar::Bool
        } else if typ == 9 {
            Scalar::String
        } else if typ == 12 {
            Scalar::Bytes
        } else if typ == 13 {
            Scalar::Uint32
        } else if typ == 15 {
            Scalar::Sfixed32
        } else if typ == 16 {
            Scalar::Sfixed64
        } else if typ == 17 {
            Scalar::Sint32
        } else if typ == 18 {
            Scalar::Sint64
        } else {
            Scalar::Sint64
        };
        Ok(ValueInner::Scalar(s))
    }

    /// The value type with its keys, as handed out.
    pub fn resolve(&self) -> (r: Value)
        ensures
            r == value_of(*self),
    {
        match *self {
            ValueInner::Scalar(s) => Value::Scalar(s),
            ValueInner::Enum(k) => Value::Enum(k),
            ValueInner::Message(k) => Value::Message(k),
            ValueInner::Unknown(u) => Value::Unknown(u),
        }
    }
}

/// Every field type number but that of groups gives a value type, and
/// scalar numbers give the scalar of that number.
pub proof fn lemma_value_inner_total(typ: i32, enum_: Option<EnumKey>, msg: Option<MessageKey>)
    requires
        1 <= typ <= 18,
    ensures
        spec_value_inner(typ, enum_, msg) is Err <==> typ == TYPE_GROUP,
        typ != TYPE_ENUM && typ != TYPE_MESSAGE && typ != TYPE_GROUP ==> (scalar_of(typ) matches Some(
            s,
        ) && scalar_code(s) == typ),
{
}

/// The value type of a field.
#[derive(Clone, Copy, Debug, PartialEq, Eq, Structural)]
pub enum Value {
    Scalar(Scalar),
    Enum(EnumKey),
    Message(MessageKey),
    Unknown(i32),
}

/// The value type that `v` hands out.
pub open spec fn value_of(v: ValueInner) -> Value {
    match v {
        ValueInner::Scalar(s) => Value::Scalar(s),
        ValueInner::Enum(k) => Value::Enum(k),
        ValueInner::Message(k) => Value::Message(k),
        ValueInner::Unknown(u) => Value::Unknown(u),
    }
}

impl Value {
    pub fn is_unknown(&self) -> (r: bool)
        ensures
            r == (*self is Unknown),
    {
        match self {
            Value::Unknown(..) => true,
            _ => false,
        }
    }

    pub fn is_scalar(&self) -> (r: bool)
        ensures
            r == (*self is Scalar),
    {
        match self {
            Value::Scalar(_) => true,
            _ => false,
        }
    }

    /// A group: the value type of the descriptor's group type number.
    pub fn is_group(&self) -> (r: bool)
        ensures
            r == (*self == Value::Unknown(TYPE_GROUP)),
    {
        match self {
            Value::Unknown(10) => true,
            _ => false,
        }
    }

    pub fn is_message(&self) -> (r: bool)
        ensures
            r == (*self is Message),
    {
        match self {
            Value::Message(_) => true,
            _ => false,
        }
    }

    pub fn is_enum(&self) -> (r: bool)
        ensures
            r == (*self is Enum),
    {
        match self {
            Value::Enum(_) => true,
            _ => false,
        }
    }

    pub fn as_enum(&self) -> (r: Option<EnumKey>)
        ensures
            match *self {
                Value::Enum(x) => r == Some(x),
                _ => r is None,
            },
    {
        match *self {
            Value::Enum(x) => Some(x),
            _ => None,
        }
    }

    pub fn try_into_enum(self) -> (r: Result<EnumKey, Value>)
        ensures
            match self {
                Value::Enum(x) => r == Ok::<EnumKey, Value>(x),
                _ => r == Err::<EnumKey, Value>(self),
            },
    {
        match self {
            Value::Enum(x) => Ok(x),
            _ => Err(self),
        }
    }

    pub fn as_scalar(&self) -> (r: Option<Scalar>)
        ensures
            match *self {
                Value::Scalar(x) => r == Some(x),
                _ => r is None,
            },
    {
        match *self {
            Value::Scalar(x) => Some(x),
            _ => None,
        }
    }

    pub fn try_into_scalar(self) -> (r: Result<Scalar, Value>)
        ensures
            match self {
                Value::Scalar(x) => r == Ok::<Scalar, Value>(x),
                _ => r == Err::<Scalar, Value>(self),
            },
    {
        match self {
            Value::Scalar(x) => Ok(x),
            _ => Err(self),
        }
    }

    pub fn as_message(&self) -> (r: Option<MessageKey>)
        ensures
            match *self {
                Value::Message(x) => r == Some(x),
                _ => r is None,
            },
    {
        match *self {
            Value::Message(x) => Some(x),
            _ => None,
        }
    }

    pub fn try_into_message(self) -> (r: Result<MessageKey, Value>)
        ensures
            match self {
                Value::Message(x) => r == Ok::<MessageKey, Value>(x),
                _ => r == Err::<MessageKey, Value>(self),
            },
    {
        match self {
            Value::Message(x) => Ok(x),
            _ => Err(self),
        }
    }

    pub fn as_unknown(&self) -> (r: Option<i32>)
        ensures
            match *self {
                Value::Unknown(x) => r == Some(x),
                _ => r is None,
            },
    {
        match *self {
            Value::Unknown(x) => Some(x),
            _ => None,
        }
    }

    pub fn try_into_unknown(self) -> (r: Result<i32, Value>)
        ensures
            match self {
                Value::Unknown(x) => r == Ok::<i32, Value>(x),
                _ => r == Err::<i32, Value>(self),
            },
    {
        match self {
            Value::Unknown(x) => Ok(x),
            _ => Err(self),
        }
    }
}

/// The key and value types of a map field.
#[derive(Clone, Copy, Debug, PartialEq, Eq, Structural)]
pub struct MapInner {
    pub key: MapKey,
    pub value: ValueInner,
}

/// The key and value types of a map field, as handed out.
#[derive(Clone, Copy, Debug, PartialEq, Eq, Structural)]
pub struct MapType {
    pub key: MapKey,
    pub value: Value,
}

impl MapType {
    pub fn new(key: MapKey, value: Value) -> (r: MapType)
        ensures
            r == (MapType { key, value }),
    {
        MapType { key, value }
    }

    pub fn key(&self) -> (r: MapKey)
        ensures
            r == self.key,
    {
        self.key
    }

    pub fn value(&self) -> (r: &Value)
        ensures
            *r == self.value,
    {
        &self.value
    }
}

/// The type of a field: one value, repeated values, a map, or a type number
/// of no known kind.
#[derive(Clone, Copy, Debug, PartialEq, Eq, Structural)]
pub enum TypeInner {
    Single(ValueInner),
    Repeated(ValueInner),
    MapOf(MapInner),
    Unknown(i32),
}

impl Default for TypeInner {
    fn default() -> (r: TypeInner)
        ensures
            r == TypeInner::Unknown(0),
    {
        TypeInner::Unknown(0)
    }
}

/// The type of a field, as handed out.
#[derive(Clone, Copy, Debug, PartialEq, Eq, Structural)]
pub enum Type {
    Single(Value),
    Repeated(Value),
    MapOf(MapType),
    Unknown(i32),
}

impl TypeInner {
    /// The type with its keys, as handed out.
    pub fn resolve(&self) -> (r: Type)
        ensures
            r == (match *self {
                TypeInner::Single(v) => Type::Single(value_of(v)),
                TypeInner::Repeated(v) => Type::Repeated(value_of(v)),
                TypeInner::MapOf(m) => Type::MapOf(MapType { key: m.key, value: value_of(m.value) }),
                TypeInner::Unknown(u) => Type::Unknown(u),
            }),
    {
        match self {
            TypeInner::Single(v) => Type::Single(v.resolve()),
            TypeInner::Repeated(v) => Type::Repeated(v.resolve()),
            TypeInner::MapOf(m) => Type::MapOf(MapType { key: m.key, value: m.value.resolve() }),
            TypeInner::Unknown(u) => Type::Unknown(*u),
        }
    }
}

} // verus!
