//! Enums: the well-known enum types of `google.protobuf`.
use crate::ast::container::ContainerKey;
use crate::ast::file::{flag, Hydrated, KeySet};
use crate::ast::fqn::FullyQualifiedName;
use crate::ast::location::{Comments, Detail, Span};
use crate::ast::node::{EnumKey, EnumValueKey, FileKey, NodeKey, PackageKey};
use crate::ast::reference::ReferrerKey;
use crate::ast::reserved::{Reserved, ReservedRange};
use crate::ast::uninterpreted::{option_from, UninterpretedOption};
use crate::descriptor::EnumOptions;
use crate::text::same_chars;
use vstd::prelude::*;

verus! {

/// The enum types that `google.protobuf` defines.
#[derive(Clone, Copy, Debug, PartialEq, Eq, Structural)]
pub enum WellKnownEnum {
    /// Whether a field is optional, required, or repeated.
    FieldCardinality,
    /// Basic field types.
    FieldKind,
    /// The singleton enumeration that stands for the null value of the
    /// `Value` type union.
    NullValue,
    /// The syntax in which a protocol buffer element is defined.
    Syntax,
}

/// The name of a well-known enum type.
pub open spec fn enum_name(e: WellKnownEnum) -> Seq<char> {
    match e {
        WellKnownEnum::FieldCardinality => seq![
            'F', 'i', 'e', 'l', 'd', 'C', 'a', 'r', 'd', 'i', 'n', 'a', 'l', 'i', 't', 'y',
        ],
        WellKnownEnum::FieldKind => seq!['F', 'i', 'e', 'l', 'd', 'K', 'i', 'n', 'd'],
        WellKnownEnum::NullValue => seq!['N', 'u', 'l', 'l', 'V', 'a', 'l', 'u', 'e'],
        WellKnownEnum::Syntax => seq!['S', 'y', 'n', 't', 'a', 'x'],
    }
}

/// The well-known enum type named `s`, if any.
pub open spec fn enum_named(s: Seq<char>) -> Option<WellKnownEnum> {
    if s == enum_name(WellKnownEnum::FieldCardinality) {
        Some(WellKnownEnum::FieldCardinality)
    } else if s == enum_name(WellKnownEnum::FieldKind) {
        Some(WellKnownEnum::FieldKind)
    } else if s == enum_name(WellKnownEnum::NullValue) {
        Some(WellKnownEnum::NullValue)
    } else if s == enum_name(WellKnownEnum::Syntax) {
        Some(WellKnownEnum::Syntax)
    } else {
        None
    }
}

impl WellKnownEnum {
    /// The name of the type, without its package.
    pub fn as_str(&self) -> (r: &'static str)
        ensures
            r@ == enum_name(*self),
    {
        match self {
            WellKnownEnum::FieldCardinality => {
                proof {
                    reveal_strlit("FieldCardinality");
                }
                assert("FieldCardinality"@ =~= enum_name(WellKnownEnum::FieldCardinality));
                "FieldCardinality"
            },
            WellKnownEnum::FieldKind => {
                proof {
                    reveal_strlit("FieldKind");
                }
                assert("FieldKind"@ =~= enum_name(WellKnownEnum::FieldKind));
                "FieldKind"
            },
            WellKnownEnum::NullValue => {
                proof {
                    reveal_strlit("NullValue");
                }
                assert("NullValue"@ =~= enum_name(WellKnownEnum::NullValue));
                "NullValue"
            },
            WellKnownEnum::Syntax => {
                proof {
                    reveal_strlit("Syntax");
                }
                assert("Syntax"@ =~= enum_name(WellKnownEnum::Syntax));
                "Syntax"
            },
        }
    }

    /// The name of the type.
    pub fn to_string(&self) -> (r: String)
        ensures
            r@ == enum_name(*self),
    {
        String::from_str(self.as_str())
    }

    /// The type named `s`; fails on any other name.
    pub fn from_name(s: &str) -> (r: Result<WellKnownEnum, ()>)
        ensures
            match enum_named(s@) {
                Some(e) => r == Ok::<WellKnownEnum, ()>(e),
                None => r == Err::<WellKnownEnum, ()>(()),
            },
    {
        if same_chars(s, WellKnownEnum::FieldCardinality.as_str()) {
            return Ok(WellKnownEnum::FieldCardinality);
        }
        if same_chars(s, WellKnownEnum::FieldKind.as_str()) {
            return Ok(WellKnownEnum::FieldKind);
        }
        if same_chars(s, WellKnownEnum::NullValue.as_str()) {
            return Ok(WellKnownEnum::NullValue);
        }
        if same_chars(s, WellKnownEnum::Syntax.as_str()) {
            return Ok(WellKnownEnum::Syntax);
        }
        Err(())
    }
}

impl std::str::FromStr for WellKnownEnum {
    type Err = ();

    fn from_str(s: &str) -> (r: Result<WellKnownEnum, ()>)
        ensures
            match enum_named(s@) {
                Some(e) => r == Ok::<WellKnownEnum, ()>(e),
                None => r == Err::<WellKnownEnum, ()>(()),
            },
    {
        WellKnownEnum::from_name(s)
    }
}

/// Reading back the name of a well-known enum type gives the type.
pub proof fn lemma_enum_name_roundtrip(e: WellKnownEnum)
    ensures
        enum_named(enum_name(e)) == Some(e),
{
    assert(enum_name(WellKnownEnum::NullValue)[0] != enum_name(WellKnownEnum::FieldKind)[0]);
}

/// What the hydration of an enum reads.
#[derive(Debug)]
pub struct Hydrate {
    pub name: String,
    pub values: Vec<Hydrated<EnumValueKey>>,
    pub location: Detail,
    pub options: Option<EnumOptions>,
    pub reserved_names: Vec<String>,
    pub reserved_ranges: Vec<ReservedRange>,
    pub container: ContainerKey,
    pub well_known: Option<WellKnownEnum>,
}

/// The data of an enum node.
#[derive(Clone, Debug)]
pub struct Inner {
    pub key: EnumKey,
    pub fqn: FullyQualifiedName,
    pub name: String,
    pub node_path: Vec<i32>,
    pub span: Span,
    pub comments: Option<Comments>,
    pub reserved: Reserved,
    pub package: Option<PackageKey>,
    pub file: FileKey,
    pub container: ContainerKey,
    pub referenced_by: Vec<ReferrerKey>,
    pub values: KeySet<EnumValueKey>,
    pub well_known: Option<WellKnownEnum>,
    pub allow_alias: bool,
    pub deprecated: bool,
    pub uninterpreted_options: Vec<UninterpretedOption>,
}

/// `e` holds the options `o`: unset flags read as `false`.
pub open spec fn enum_options_from(e: Inner, o: EnumOptions) -> bool {
    &&& e.allow_alias == flag(o.allow_alias)
    &&& e.deprecated == flag(o.deprecated)
    &&& e.uninterpreted_options@.len() == o.uninterpreted_option@.len()
    &&& forall|k: int|
        0 <= k < o.uninterpreted_option@.len() ==> option_from(
            #[trigger] e.uninterpreted_options@[k],
            o.uninterpreted_option@[k],
        )
}

/// `e` is `before` hydrated from `h`.
pub open spec fn enum_hydrated(e: Inner, before: Inner, h: Hydrate) -> bool {
    &&& e.key == before.key
    &&& e.fqn == before.fqn
    &&& e.name == h.name
    &&& e.values.wf()
    &&& e.values@ == h.values@.map_values(|x: Hydrated<EnumValueKey>| x.0)
    &&& e.values.names() == h.values@.map_values(|x: Hydrated<EnumValueKey>| x.2@)
    &&& e.reserved.names@ == h.reserved_names@
    &&& e.reserved.ranges@ == h.reserved_ranges@
    &&& e.container == h.container
    &&& e.well_known == h.well_known
    &&& e.node_path == h.location.path
    &&& e.span == h.location.span
    &&& e.comments == h.location.comments
    &&& match h.options {
        Some(o) => enum_options_from(e, o),
        None => !e.allow_alias && !e.deprecated && e.uninterpreted_options@.len() == 0,
    }
    &&& e.package == before.package
    &&& e.file == before.file
    &&& e.referenced_by == before.referenced_by
}

/// `e` is the enum node named `fqn` with nothing else set.
pub open spec fn blank_enum(e: Inner, fqn: Seq<char>) -> bool {
    &&& e.key == EnumKey(0)
    &&& e.fqn@ == fqn
    &&& e.name@.len() == 0
    &&& e.node_path@.len() == 0
    &&& e.span == (Span { start_line: 0, start_column: 0, end_line: 0, end_column: 0 })
    &&& e.comments is None
    &&& e.reserved.names@.len() == 0 && e.reserved.ranges@.len() == 0
    &&& e.package is None
    &&& e.file == FileKey(0)
    &&& e.container == ContainerKey::File(FileKey(0))
    &&& e.referenced_by@.len() == 0
    &&& e.values@.len() == 0 && e.values.wf()
    &&& e.well_known is None
    &&& !e.allow_alias && !e.deprecated
    &&& e.uninterpreted_options@.len() == 0
}

impl Inner {
    /// An enum node with the name `fqn` and nothing else set.
    pub fn from_fqn(fqn: FullyQualifiedName) -> (r: Inner)
        ensures
            blank_enum(r, fqn@),
    {
        Inner {
            key: EnumKey(0),
            fqn,
            name: String::new(),
            node_path: Vec::new(),
            span: Span { start_line: 0, start_column: 0, end_line: 0, end_column: 0 },
            comments: None,
            reserved: Reserved::new(Vec::new(), Vec::new()),
            package: None,
            file: FileKey(0),
            container: ContainerKey::File(FileKey(0)),
            referenced_by: Vec::new(),
            values: KeySet::new(),
            well_known: None,
            allow_alias: false,
            deprecated: false,
            uninterpreted_options: Vec::new(),
        }
    }

    /// Takes the path, span and comments of the enum from `location`.
    pub fn hydrate_location(&mut self, location: Detail)
        ensures
            *final(self) == (Inner {
                comments: location.comments,
                span: location.span,
                node_path: location.path,
                ..*old(self)
            }),
    {
        self.comments = location.comments;
        self.span = location.span;
        self.node_path = location.path;
    }

    /// Sets the reserved names and ranges.
    pub fn set_reserved(&mut self, names: Vec<String>, ranges: Vec<ReservedRange>)
        ensures
            final(self).reserved.names@ == names@,
            final(self).reserved.ranges@ == ranges@,
            *final(self) == (Inner { reserved: final(self).reserved, ..*old(self) }),
    {
        self.reserved = Reserved::new(names, ranges);
    }

    /// Reads the options `options` into the node.
    pub fn hydrate_options(&mut self, options: EnumOptions)
        ensures
            enum_options_from(*final(self), options),
            *final(self) == (Inner {
                allow_alias: final(self).allow_alias,
                deprecated: final(self).deprecated,
                uninterpreted_options: final(self).uninterpreted_options,
                ..*old(self)
            }),
    {
        let EnumOptions { allow_alias, deprecated, uninterpreted_option } = options;
        self.allow_alias = match allow_alias {
            Some(b) => b,
            None => false,
        };
        self.deprecated = match deprecated {
            Some(b) => b,
            None => false,
        };
        self.uninterpreted_options = UninterpretedOption::from_descriptors(uninterpreted_option);
    }

    /// Fills the node from `hydrate`; gives its key, fully qualified name
    /// and name.
    pub fn hydrate(&mut self, hydrate: Hydrate) -> (r: Hydrated<EnumKey>)
        ensures
            r.0 == old(self).key,
            r.1@ == old(self).fqn@,
            r.2@ == hydrate.name@,
            enum_hydrated(*final(self), *old(self), hydrate),
    {
        let Hydrate {
            name,
            values,
            location,
            options,
            reserved_names,
            reserved_ranges,
            container,
            well_known,
        } = hydrate;
        self.values = KeySet::from_vec(values);
        self.name = name;
        self.set_reserved(reserved_names, reserved_ranges);
        self.container = container;
        self.well_known = well_known;
        self.hydrate_location(location);
        let options = match options {
            Some(o) => o,
            None => EnumOptions { allow_alias: None, deprecated: None, uninterpreted_option: Vec::new() },
        };
        self.hydrate_options(options);
        (self.key, self.fqn.duplicate(), self.name.clone())
    }

    pub fn set_key(&mut self, key: EnumKey)
        ensures
            *final(self) == (Inner { key, ..*old(self) }),
    {
        self.key = key;
    }

    pub fn name(&self) -> (r: &str)
        ensures
            r@ == self.name@,
    {
        self.name.as_str()
    }

    /// The node keys of the values of the enum, in that order.
    pub fn keys(&self) -> (r: Vec<NodeKey>)
        ensures
            r@ == self.values@.map_values(|k: EnumValueKey| NodeKey::EnumValue(k)),
    {
        let mut out: Vec<NodeKey> = Vec::new();
        let xs = self.values.as_slice();
        let mut i: usize = 0;
        while i < xs.len()
            invariant
                i <= xs@.len(),
                xs@ == self.values@,
                out@ == Seq::<NodeKey>::empty() + xs@.subrange(0, i as int).map_values(|k: EnumValueKey| NodeKey::EnumValue(k)),
            decreases xs@.len() - i,
        {
            out.push(NodeKey::EnumValue(xs[i]));
            i = i + 1;
            assert(out@ =~= Seq::<NodeKey>::empty() + xs@.subrange(0, i as int).map_values(|k: EnumValueKey| NodeKey::EnumValue(k)));
        }
        assert(xs@.subrange(0, i as int) =~= xs@);
        out
    }

    pub fn reserved(&self) -> (r: &Reserved)
        ensures
            *r == self.reserved,
    {
        &self.reserved
    }
}

} // verus!
