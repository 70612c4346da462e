//! Keys of the nodes of the model: each names one node of a kind by its
//! place in the table of that kind.
use vstd::prelude::*;

verus! {

/// The key of a package.
#[derive(Clone, Copy, Debug, PartialEq, Eq, Structural, Hash, Default, PartialOrd, Ord)]
pub struct PackageKey(pub u64);

/// The key of a file.
#[derive(Clone, Copy, Debug, PartialEq, Eq, Structural, Hash, Default, PartialOrd, Ord)]
pub struct FileKey(pub u64);

/// The key of a message.
#[derive(Clone, Copy, Debug, PartialEq, Eq, Structural, Hash, Default, PartialOrd, Ord)]
pub struct MessageKey(pub u64);

/// The key of a enum.
#[derive(Clone, Copy, Debug, PartialEq, Eq, Structural, Hash, Default, PartialOrd, Ord)]
pub struct EnumKey(pub u64);

/// The key of a enum value.
#[derive(Clone, Copy, Debug, PartialEq, Eq, Structural, Hash, Default, PartialOrd, Ord)]
pub struct EnumValueKey(pub u64);

/// The key of a service.
#[derive(Clone, Copy, Debug, PartialEq, Eq, Structural, Hash, Default, PartialOrd, Ord)]
pub struct ServiceKey(pub u64);

/// The key of a method.
#[derive(Clone, Copy, Debug, PartialEq, Eq, Structural, Hash, Default, PartialOrd, Ord)]
pub struct MethodKey(pub u64);

/// The key of a field.
#[derive(Clone, Copy, Debug, PartialEq, Eq, Structural, Hash, Default, PartialOrd, Ord)]
pub struct FieldKey(pub u64);

/// The key of a oneof.
#[derive(Clone, Copy, Debug, PartialEq, Eq, Structural, Hash, Default, PartialOrd, Ord)]
pub struct OneofKey(pub u64);

/// The key of a extension.
#[derive(Clone, Copy, Debug, PartialEq, Eq, Structural, Hash, Default, PartialOrd, Ord)]
pub struct ExtensionKey(pub u64);

/// The key of a extension block.
#[derive(Clone, Copy, Debug, PartialEq, Eq, Structural, Hash, Default, PartialOrd, Ord)]
pub struct ExtensionBlockKey(pub u64);

/// The key of a node of any kind that has a fully qualified name.
#[derive(Clone, Copy, Debug, PartialEq, Eq, Structural, Hash)]
pub enum NodeKey {
    Package(PackageKey),
    File(FileKey),
    Message(MessageKey),
    Enum(EnumKey),
    EnumValue(EnumValueKey),
    Service(ServiceKey),
    Method(MethodKey),
    Field(FieldKey),
    Oneof(OneofKey),
    Extension(ExtensionKey),
}

impl NodeKey {
    /// The node key of the package `key`.
    pub fn from_package(key: PackageKey) -> (r: NodeKey)
        ensures
            r == NodeKey::Package(key),
    {
        NodeKey::Package(key)
    }

    /// The node key of the file `key`.
    pub fn from_file(key: FileKey) -> (r: NodeKey)
        ensures
            r == NodeKey::File(key),
    {
        NodeKey::File(key)
    }

    /// The node key of the message `key`.
    pub fn from_message(key: MessageKey) -> (r: NodeKey)
        ensures
            r == NodeKey::Message(key),
    {
        NodeKey::Message(key)
    }

    /// The node key of the enum `key`.
    pub fn from_enum(key: EnumKey) -> (r: NodeKey)
        ensures
            r == NodeKey::Enum(key),
    {
        NodeKey::Enum(key)
    }

    /// The node key of the enum value `key`.
    pub fn from_enum_value(key: EnumValueKey) -> (r: NodeKey)
        ensures
            r == NodeKey::EnumValue(key),
    {
        NodeKey::EnumValue(key)
    }

    /// The node key of the service `key`.
    pub fn from_service(key: ServiceKey) -> (r: NodeKey)
        ensures
            r == NodeKey::Service(key),
    {
        NodeKey::Service(key)
    }

    /// The node key of the method `key`.
    pub fn from_method(key: MethodKey) -> (r: NodeKey)
        ensures
            r == NodeKey::Method(key),
    {
        NodeKey::Method(key)
    }

    /// The node key of the field `key`.
    pub fn from_field(key: FieldKey) -> (r: NodeKey)
        ensures
            r == NodeKey::Field(key),
    {
        NodeKey::Field(key)
    }

    /// The node key of the oneof `key`.
    pub fn from_oneof(key: OneofKey) -> (r: NodeKey)
        ensures
            r == NodeKey::Oneof(key),
    {
        NodeKey::Oneof(key)
    }

    /// The node key of the extension `key`.
    pub fn from_extension(key: ExtensionKey) -> (r: NodeKey)
        ensures
            r == NodeKey::Extension(key),
    {
        NodeKey::Extension(key)
    }
}

} // verus!
