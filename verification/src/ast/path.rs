//! Source-location paths: the field numbers of the descriptor messages by
//! which `protoc` addresses each node of a file.
use vstd::prelude::*;
use vstd::std_specs::cmp::PartialEqSpecImpl;

verus! {

/// The path of a file's syntax and package statements.
pub fn new_file_path() -> (r: Vec<i32>)
    ensures
        r@ == seq![File::SYNTAX, File::PACKAGE],
{
    let mut v: Vec<i32> = Vec::new();
    v.push(File::SYNTAX);
    v.push(File::PACKAGE);
    v
}

/// `path` extended by the element `kind` at position `index`.
pub fn append(path: &[i32], kind: i32, index: i32) -> (r: Vec<i32>)
    ensures
        r@ == path@ + seq![kind, index],
{
    let mut out: Vec<i32> = Vec::new();
    let mut i: usize = 0;
    while i < path.len()
        invariant
            i <= path@.len(),
            out@ == path@.subrange(0, i as int),
        decreases path@.len() - i,
    {
        out.push(path[i]);
        i = i + 1;
        assert(out@ =~= path@.subrange(0, i as int));
    }
    assert(out@ =~= path@);
    out.push(kind);
    out.push(index);
    out
}

/// The two-element path of the element `kind` at position `index`.
pub fn new(kind: i32, index: i32) -> (r: Vec<i32>)
    ensures
        r@ == seq![kind, index],
{
    let mut v: Vec<i32> = Vec::new();
    v.push(kind);
    v.push(index);
    v
}

/// Extends `path` by the message element `kind` at position `index`.
pub fn append_message(path: &mut Vec<i32>, kind: Message, index: i32)
    ensures
        final(path)@ == old(path)@ + seq![kind.code(), index],
{
    let k = kind.as_i32();
    path.push(k);
    path.push(index);
}

/// The elements of `FileDescriptorProto`.
#[derive(Clone, Copy, Debug, PartialEq, Eq, Structural)]
pub enum File {
    /// file name, relative to root of source tree
    Name,
    /// FileDescriptorProto.package
    Package,
    /// Names of files imported by this file.
    Dependency,
    /// Indexes of the public imported files in the dependency list.
    PublicDependency,
    /// Indexes of the weak imported files in the dependency list.
    WeakDependency,
    /// FileDescriptorProto.message_type
    Message,
    /// FileDescriptorProto.enum_type
    Enum,
    /// FileDescriptorProto.service
    Service,
    /// FileDescriptorProto.extension
    Extension,
    Options,
    /// Source code info of the file.
    SourceCodeInfo,
    /// FileDescriptorProto.syntax
    Syntax,
    Unknown(i32),
}

impl File {
    pub const NAME: i32 = 1;
    pub const PACKAGE: i32 = 2;
    pub const DEPENDENCY: i32 = 3;
    pub const PUBLIC_DEPENDENCY: i32 = 10;
    pub const WEAK_DEPENDENCY: i32 = 11;
    pub const MESSAGE: i32 = 4;
    pub const ENUM_TYPE: i32 = 5;
    pub const SERVICE: i32 = 6;
    pub const EXTENSION: i32 = 7;
    pub const OPTIONS: i32 = 8;
    pub const SOURCE_CODE_INFO: i32 = 9;
    pub const SYNTAX: i32 = 12;

    /// The field number of the element.
    pub open spec fn code(self) -> i32 {
        match self {
            File::Name => 1,
            File::Package => 2,
            File::Dependency => 3,
            File::PublicDependency => 10,
            File::WeakDependency => 11,
            File::Message => 4,
            File::Enum => 5,
            File::Service => 6,
            File::Extension => 7,
            File::Options => 8,
            File::SourceCodeInfo => 9,
            File::Syntax => 12,
            File::Unknown(v) => v,
        }
    }

    /// The element with the field number `v`; `Unknown(v)` where none has it.
    pub open spec fn of_code(v: i32) -> File {
        if v == 1 {
            File::Name
        } else if v == 2 {
            File::Package
        } else if v == 3 {
            File::Dependency
        } else if v == 10 {
            File::PublicDependency
        } else if v == 11 {
            File::WeakDependency
        } else if v == 4 {
            File::Message
        } else if v == 5 {
            File::Enum
        } else if v == 6 {
            File::Service
        } else if v == 7 {
            File::Extension
        } else if v == 8 {
            File::Options
        } else if v == 9 {
            File::SourceCodeInfo
        } else if v == 12 {
            File::Syntax
        } else {
            File::Unknown(v)
        }
    }

    pub fn as_i32(self) -> (r: i32)
        ensures
            r == self.code(),
    {
        match self {
            File::Name => Self::NAME,
            File::Package => Self::PACKAGE,
            File::Dependency => Self::DEPENDENCY,
            File::PublicDependency => Self::PUBLIC_DEPENDENCY,
            File::WeakDependency => Self::WEAK_DEPENDENCY,
            File::Message => Self::MESSAGE,
            File::Enum => Self::ENUM_TYPE,
            File::Service => Self::SERVICE,
            File::Extension => Self::EXTENSION,
            File::Options => Self::OPTIONS,
            File::SourceCodeInfo => Self::SOURCE_CODE_INFO,
            File::Syntax => Self::SYNTAX,
            File::Unknown(value) => value,
        }
    }

    pub fn from_i32(value: i32) -> (r: File)
        ensures
            r == File::of_code(value),
    {
        if value == Self::NAME {
            File::Name
        } else if value == Self::PACKAGE {
            File::Package
        } else if value == Self::DEPENDENCY {
            File::Dependency
        } else if value == Self::PUBLIC_DEPENDENCY {
            File::PublicDependency
        } else if value == Self::WEAK_DEPENDENCY {
            File::WeakDependency
        } else if value == Self::MESSAGE {
            File::Message
        } else if value == Self::ENUM_TYPE {
            File::Enum
        } else if value == Self::SERVICE {
            File::Service
        } else if value == Self::EXTENSION {
            File::Extension
        } else if value == Self::OPTIONS {
            File::Options
        } else if value == Self::SOURCE_CODE_INFO {
            File::SourceCodeInfo
        } else if value == Self::SYNTAX {
            File::Syntax
        } else {
            File::Unknown(value)
        }
    }
}

/// The elements of `DescriptorProto`.
#[derive(Clone, Copy, Debug, PartialEq, Eq, Structural)]
pub enum Message {
    /// DescriptorProto.field
    Field,
    /// DescriptorProto.nested_type
    Nested,
    /// DescriptorProto.enum_type
    Enum,
    /// DescriptorProto.extension
    Extension,
    /// DescriptorProto.oneof_decl
    Oneof,
    Unknown(i32),
}

impl Message {
    pub const FIELD: i32 = 2;
    pub const NESTED: i32 = 3;
    pub const ENUM: i32 = 4;
    pub const EXTENSION: i32 = 6;
    pub const ONEOF: i32 = 8;

    pub open spec fn code(self) -> i32 {
        match self {
            Message::Field => 2,
            Message::Nested => 3,
            Message::Enum => 4,
            Message::Extension => 6,
            Message::Oneof => 8,
            Message::Unknown(v) => v,
        }
    }

    pub open spec fn of_code(v: i32) -> Message {
        if v == 2 {
            Message::Field
        } else if v == 3 {
            Message::Nested
        } else if v == 4 {
            Message::Enum
        } else if v == 6 {
            Message::Extension
        } else if v == 8 {
            Message::Oneof
        } else {
            Message::Unknown(v)
        }
    }

    pub fn as_i32(self) -> (r: i32)
        ensures
            r == self.code(),
    {
        match self {
            Message::Field => Self::FIELD,
            Message::Nested => Self::NESTED,
            Message::Enum => Self::ENUM,
            Message::Extension => Self::EXTENSION,
            Message::Oneof => Self::ONEOF,
            Message::Unknown(value) => value,
        }
    }

    pub fn from_i32(value: i32) -> (r: Message)
        ensures
            r == Message::of_code(value),
    {
        if value == Self::FIELD {
            Message::Field
        } else if value == Self::NESTED {
            Message::Nested
        } else if value == Self::ENUM {
            Message::Enum
        } else if value == Self::EXTENSION {
            Message::Extension
        } else if value == Self::ONEOF {
            Message::Oneof
        } else {
            Message::Unknown(value)
        }
    }
}

/// The elements of `EnumDescriptorProto`.
#[derive(Clone, Copy, Debug, PartialEq, Eq, Structural)]
pub enum Enum {
    /// EnumDescriptorProto.value
    Value,
    Unknown(i32),
}

impl Enum {
    pub const VALUE: i32 = 2;

    pub open spec fn code(self) -> i32 {
        match self {
            Enum::Value => 2,
            Enum::Unknown(v) => v,
        }
    }

    pub open spec fn of_code(v: i32) -> Enum {
        if v == 2 {
            Enum::Value
        } else {
            Enum::Unknown(v)
        }
    }

    pub fn as_i32(self) -> (r: i32)
        ensures
            r == self.code(),
    {
        match self {
            Enum::Value => Self::VALUE,
            Enum::Unknown(value) => value,
        }
    }

    pub fn from_i32(value: i32) -> (r: Enum)
        ensures
            r == Enum::of_code(value),
    {
        if value == Self::VALUE {
            Enum::Value
        } else {
            Enum::Unknown(value)
        }
    }
}

/// The elements of `ServiceDescriptorProto`.
#[derive(Clone, Copy, Debug, PartialEq, Eq, Structural)]
pub enum Service {
    /// ServiceDescriptorProto.method
    Method,
    Mixin,
    Unknown(i32),
}

impl Service {
    pub const METHOD: i32 = 2;
    pub const MIXIN: i32 = 6;

    pub open spec fn code(self) -> i32 {
        match self {
            Service::Method => 2,
            Service::Mixin => 6,
            Service::Unknown(v) => v,
        }
    }

    pub open spec fn of_code(v: i32) -> Service {
        if v == 2 {
            Service::Method
        } else if v == 6 {
            Service::Mixin
        } else {
            Service::Unknown(v)
        }
    }

    pub fn as_i32(self) -> (r: i32)
        ensures
            r == self.code(),
    {
        match self {
            Service::Method => Self::METHOD,
            Service::Mixin => Self::MIXIN,
            Service::Unknown(value) => value,
        }
    }

    pub fn from_i32(value: i32) -> (r: Service)
        ensures
            r == Service::of_code(value),
    {
        if value == Self::METHOD {
            Service::Method
        } else if value == Self::MIXIN {
            Service::Mixin
        } else {
            Service::Unknown(value)
        }
    }
}

/// The elements of `OneofDescriptorProto`.
#[derive(Clone, Copy, Debug, PartialEq, Eq, Structural)]
pub enum Oneof {
    Name,
    Options,
    Unknown(i32),
}

impl Oneof {
    pub const NAME: i32 = 1;
    pub const OPTIONS: i32 = 2;

    pub open spec fn code(self) -> i32 {
        match self {
            Oneof::Name => 1,
            Oneof::Options => 2,
            Oneof::Unknown(v) => v,
        }
    }

    pub open spec fn of_code(v: i32) -> Oneof {
        if v == 1 {
            Oneof::Name
        } else if v == 2 {
            Oneof::Options
        } else {
            Oneof::Unknown(v)
        }
    }

    pub fn as_i32(self) -> (r: i32)
        ensures
            r == self.code(),
    {
        match self {
            Oneof::Name => Self::NAME,
            Oneof::Options => Self::OPTIONS,
            Oneof::Unknown(value) => value,
        }
    }

    pub fn from_i32(value: i32) -> (r: Oneof)
        ensures
            r == Oneof::of_code(value),
    {
        if value == Self::NAME {
            Oneof::Name
        } else if value == Self::OPTIONS {
            Oneof::Options
        } else {
            Oneof::Unknown(value)
        }
    }
}

/// Reading a field number back gives the number itself, whatever it is.
pub proof fn lemma_code_of_code(v: i32)
    ensures
        File::of_code(v).code() == v,
        Message::of_code(v).code() == v,
        Enum::of_code(v).code() == v,
        Service::of_code(v).code() == v,
        Oneof::of_code(v).code() == v,
{
}

/// An element survives the trip through its field number, unless it is an
/// `Unknown` that carries the number of a known element.
pub proof fn lemma_of_code_code(f: File, m: Message, e: Enum, s: Service, o: Oneof)
    ensures
        !(f is Unknown && File::of_code(f.code()) !is Unknown) ==> File::of_code(f.code()) == f,
        !(m is Unknown && Message::of_code(m.code()) !is Unknown) ==> Message::of_code(m.code())
            == m,
        !(e is Unknown && Enum::of_code(e.code()) !is Unknown) ==> Enum::of_code(e.code()) == e,
        !(s is Unknown && Service::of_code(s.code()) !is Unknown) ==> Service::of_code(s.code())
            == s,
        !(o is Unknown && Oneof::of_code(o.code()) !is Unknown) ==> Oneof::of_code(o.code()) == o,
{
}


/// A File element equals a number where the number is its field number.
impl PartialEq<i32> for File {
    fn eq(&self, other: &i32) -> (r: bool) {
        self.as_i32() == *other
    }
}

impl PartialEqSpecImpl<i32> for File {
    open spec fn obeys_eq_spec() -> bool {
        true
    }

    open spec fn eq_spec(&self, other: &i32) -> bool {
        self.code() == *other
    }
}

/// A number equals a File element where it is the element's field number.
impl PartialEq<File> for i32 {
    fn eq(&self, other: &File) -> (r: bool) {
        *self == other.as_i32()
    }
}

impl PartialEqSpecImpl<File> for i32 {
    open spec fn obeys_eq_spec() -> bool {
        true
    }

    open spec fn eq_spec(&self, other: &File) -> bool {
        *self == other.code()
    }
}

/// A Message element equals a number where the number is its field number.
impl PartialEq<i32> for Message {
    fn eq(&self, other: &i32) -> (r: bool) {
        self.as_i32() == *other
    }
}

impl PartialEqSpecImpl<i32> for Message {
    open spec fn obeys_eq_spec() -> bool {
        true
    }

    open spec fn eq_spec(&self, other: &i32) -> bool {
        self.code() == *other
    }
}

/// A number equals a Message element where it is the element's field number.
impl PartialEq<Message> for i32 {
    fn eq(&self, other: &Message) -> (r: bool) {
        *self == other.as_i32()
    }
}

impl PartialEqSpecImpl<Message> for i32 {
    open spec fn obeys_eq_spec() -> bool {
        true
    }

    open spec fn eq_spec(&self, other: &Message) -> bool {
        *self == other.code()
    }
}

/// A Enum element equals a number where the number is its field number.
impl PartialEq<i32> for Enum {
    fn eq(&self, other: &i32) -> (r: bool) {
        self.as_i32() == *other
    }
}

impl PartialEqSpecImpl<i32> for Enum {
    open spec fn obeys_eq_spec() -> bool {
        true
    }

    open spec fn eq_spec(&self, other: &i32) -> bool {
        self.code() == *other
    }
}

/// A number equals a Enum element where it is the element's field number.
impl PartialEq<Enum> for i32 {
    fn eq(&self, other: &Enum) -> (r: bool) {
        *self == other.as_i32()
    }
}

impl PartialEqSpecImpl<Enum> for i32 {
    open spec fn obeys_eq_spec() -> bool {
        true
    }

    open spec fn eq_spec(&self, other: &Enum) -> bool {
        *self == other.code()
    }
}

/// A Service element equals a number where the number is its field number.
impl PartialEq<i32> for Service {
    fn eq(&self, other: &i32) -> (r: bool) {
        self.as_i32() == *other
    }
}

impl PartialEqSpecImpl<i32> for Service {
    open spec fn obeys_eq_spec() -> bool {
        true
    }

    open spec fn eq_spec(&self, other: &i32) -> bool {
        self.code() == *other
    }
}

/// A number equals a Service element where it is the element's field number.
impl PartialEq<Service> for i32 {
    fn eq(&self, other: &Service) -> (r: bool) {
        *self == other.as_i32()
    }
}

impl PartialEqSpecImpl<Service> for i32 {
    open spec fn obeys_eq_spec() -> bool {
        true
    }

    open spec fn eq_spec(&self, other: &Service) -> bool {
        *self == other.code()
    }
}

/// A Oneof element equals a number where the number is its field number.
impl PartialEq<i32> for Oneof {
    fn eq(&self, other: &i32) -> (r: bool) {
        self.as_i32() == *other
    }
}

impl PartialEqSpecImpl<i32> for Oneof {
    open spec fn obeys_eq_spec() -> bool {
        true
    }

    open spec fn eq_spec(&self, other: &i32) -> bool {
        self.code() == *other
    }
}

/// A number equals a Oneof element where it is the element's field number.
impl PartialEq<Oneof> for i32 {
    fn eq(&self, other: &Oneof) -> (r: bool) {
        *self == other.as_i32()
    }
}

impl PartialEqSpecImpl<Oneof> for i32 {
    open spec fn obeys_eq_spec() -> bool {
        true
    }

    open spec fn eq_spec(&self, other: &Oneof) -> bool {
        *self == other.code()
    }
}

} // verus!
