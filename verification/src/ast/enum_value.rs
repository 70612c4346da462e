//! Enum values: the data of an enum value node and its hydration.
use crate::ast::file::{flag, Hydrated};
use crate::ast::fqn::FullyQualifiedName;
use crate::ast::location::{Comments, Detail, Span};
use crate::ast::node::{EnumKey, EnumValueKey, FileKey, PackageKey};
use crate::ast::uninterpreted::{option_from, UninterpretedOption};
use crate::descriptor::EnumValueOptions;
use vstd::prelude::*;

verus! {

/// What the hydration of an enum value reads.
#[derive(Debug)]
pub struct Hydrate {
    pub name: String,
    pub number: i32,
    pub location: Detail,
    pub options: Option<EnumValueOptions>,
    pub enum_key: EnumKey,
    pub file: FileKey,
    pub package: Option<PackageKey>,
}

/// The data of an enum value node.
#[derive(Clone, Debug)]
pub struct Inner {
    pub key: EnumValueKey,
    pub fqn: FullyQualifiedName,
    pub name: String,
    pub node_path: Vec<i32>,
    pub number: i32,
    pub enum_key: EnumKey,
    pub file: FileKey,
    pub package: Option<PackageKey>,
    pub span: Span,
    pub comments: Option<Comments>,
    pub deprecated: bool,
    pub uninterpreted_options: Vec<UninterpretedOption>,
}

/// `v` holds the options `o`: an unset flag reads as `false`.
pub open spec fn value_options_from(v: Inner, o: EnumValueOptions) -> bool {
    &&& v.deprecated == flag(o.deprecated)
    &&& v.uninterpreted_options@.len() == o.uninterpreted_option@.len()
    &&& forall|k: int|
        0 <= k < o.uninterpreted_option@.len() ==> option_from(
            #[trigger] v.uninterpreted_options@[k],
            o.uninterpreted_option@[k],
        )
}

/// `v` is `before` hydrated from `h`.
pub open spec fn value_hydrated(v: Inner, before: Inner, h: Hydrate) -> bool {
    &&& v.key == before.key
    &&& v.fqn == before.fqn
    &&& v.node_path == before.node_path
    &&& v.name == h.name
    &&& v.number == h.number
    &&& v.comments == h.location.comments
    &&& v.span == h.location.span
    &&& v.file == h.file
    &&& v.package == h.package
    &&& v.enum_key == h.enum_key
    &&& value_options_from(v, h.options->0)
}

/// `v` is the enum value node named `fqn` with nothing else set.
pub open spec fn blank_value(v: Inner, fqn: Seq<char>) -> bool {
    &&& v.key == EnumValueKey(0)
    &&& v.fqn@ == fqn
    &&& v.name@.len() == 0
    &&& v.node_path@.len() == 0
    &&& v.number == 0
    &&& v.enum_key == EnumKey(0)
    &&& v.file == FileKey(0)
    &&& v.package is None
    &&& v.span == (Span { start_line: 0, start_column: 0, end_line: 0, end_column: 0 })
    &&& v.comments is None
    &&& !v.deprecated
    &&& v.uninterpreted_options@.len() == 0
}

impl Inner {
    /// An enum value node with the name `fqn` and nothing else set.
    pub fn from_fqn(fqn: FullyQualifiedName) -> (r: Inner)
        ensures
            blank_value(r, fqn@),
    {
        Inner {
            key: EnumValueKey(0),
            fqn,
            name: String::new(),
            node_path: Vec::new(),
            number: 0,
            enum_key: EnumKey(0),
            file: FileKey(0),
            package: None,
            span: Span { start_line: 0, start_column: 0, end_line: 0, end_column: 0 },
            comments: None,
            deprecated: false,
            uninterpreted_options: Vec::new(),
        }
    }

    /// Reads the options `options` into the node.
    pub fn hydrate_options(&mut self, options: EnumValueOptions)
        ensures
            value_options_from(*final(self), options),
            *final(self) == (Inner {
                deprecated: final(self).deprecated,
                uninterpreted_options: final(self).uninterpreted_options,
                ..*old(self)
            }),
    {
        let EnumValueOptions { deprecated, uninterpreted_option } = options;
        self.deprecated = match deprecated {
            Some(b) => b,
            None => false,
        };
        self.uninterpreted_options = UninterpretedOption::from_descriptors(uninterpreted_option);
    }

    /// Fills the node from `hydrate`, which must carry options; gives its
    /// key, fully qualified name and name. The path of the value is left as
    /// it is.
    pub fn hydrate(&mut self, hydrate: Hydrate) -> (r: Hydrated<EnumValueKey>)
        requires
            hydrate.options is Some,
        ensures
            r.0 == old(self).key,
            r.1@ == old(self).fqn@,
            r.2@ == hydrate.name@,
            value_hydrated(*final(self), *old(self), hydrate),
    {
        let Hydrate { name, number, location, options, enum_key, file, package } = hydrate;
        self.name = name;
        self.number = number;
        self.comments = location.comments;
        self.file = file;
        self.span = location.span;
        self.package = package;
        self.enum_key = enum_key;
        let options = options.unwrap();
        self.hydrate_options(options);
        (self.key, self.fqn.duplicate(), self.name.clone())
    }

    pub fn set_key(&mut self, key: EnumValueKey)
        ensures
            *final(self) == (Inner { key, ..*old(self) }),
    {
        self.key = key;
    }

    pub fn name(&self) -> (r: &str)
        ensures
            r@ == self.name@,
    {
        self.name.as_str()
    }

    pub fn number(&self) -> (r: i32)
        ensures
            r == self.number,
    {
        self.number
    }
}

} // verus!
