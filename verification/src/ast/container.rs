//! Containers: the file or message that declares a node.
use crate::ast::node::{FileKey, MessageKey};
use vstd::prelude::*;

verus! {

/// The key of the file or message that declares a node.
#[derive(Clone, Copy, Debug, PartialEq, Eq, Structural, PartialOrd, Ord)]
pub enum ContainerKey {
    Message(MessageKey),
    File(FileKey),
}

impl Default for ContainerKey {
    fn default() -> (r: ContainerKey)
        ensures
            r == ContainerKey::File(FileKey(0)),
    {
        ContainerKey::File(FileKey(0))
    }
}

/// The file or message that declares a node.
#[derive(Clone, Copy, Debug, PartialEq, Eq, Structural)]
pub enum Container {
    Message(MessageKey),
    File(FileKey),
}

impl Container {
    pub fn is_message(self) -> (r: bool)
        ensures
            r == (self is Message),
    {
        match self {
            Container::Message(..) => true,
            _ => false,
        }
    }

    pub fn as_message(self) -> (r: Option<MessageKey>)
        ensures
            match self {
                Container::Message(k) => r == Some(k),
                _ => r is None,
            },
    {
        match self {
            Container::Message(k) => Some(k),
            _ => None,
        }
    }

    pub fn try_into_message(self) -> (r: Result<MessageKey, Container>)
        ensures
            match self {
                Container::Message(k) => r == Ok::<MessageKey, Container>(k),
                _ => r == Err::<MessageKey, Container>(self),
            },
    {
        match self {
            Container::Message(k) => Ok(k),
            _ => Err(self),
        }
    }

    pub fn is_file(self) -> (r: bool)
        ensures
            r == (self is File),
    {
        match self {
            Container::File(..) => true,
            _ => false,
        }
    }

    pub fn as_file(self) -> (r: Option<FileKey>)
        ensures
            match self {
                Container::File(k) => r == Some(k),
                _ => r is None,
            },
    {
        match self {
            Container::File(k) => Some(k),
            _ => None,
        }
    }

    pub fn try_into_file(self) -> (r: Result<FileKey, Container>)
        ensures
            match self {
                Container::File(k) => r == Ok::<FileKey, Container>(k),
                _ => r == Err::<FileKey, Container>(self),
            },
    {
        match self {
            Container::File(k) => Ok(k),
            _ => Err(self),
        }
    }
}

/// The container that `key` names.
pub fn from_key(key: ContainerKey) -> (r: Container)
    ensures
        r == (match key {
            ContainerKey::Message(k) => Container::Message(k),
            ContainerKey::File(k) => Container::File(k),
        }),
{
    match key {
        ContainerKey::Message(k) => Container::Message(k),
        ContainerKey::File(k) => Container::File(k),
    }
}

} // verus!
