//! References from fields, extensions and methods to the messages and
//! enums they name.
use crate::ast::node::{EnumKey, ExtensionKey, FieldKey, MessageKey, MethodKey};
use vstd::prelude::*;

verus! {

/// The key of the field, extension or method that makes a reference.
#[derive(Clone, Copy, Debug, PartialEq, Eq, Structural)]
pub enum ReferrerKey {
    Field(FieldKey),
    Extension(ExtensionKey),
    Method(MethodKey),
}

impl Default for ReferrerKey {
    fn default() -> (r: ReferrerKey)
        ensures
            r == ReferrerKey::Field(FieldKey(0)),
    {
        ReferrerKey::Field(FieldKey(0))
    }
}

/// The key of the message or enum that a reference names.
#[derive(Clone, Copy, Debug, PartialEq, Eq, Structural)]
pub enum ReferentKey {
    Message(MessageKey),
    Enum(EnumKey),
}

impl Default for ReferentKey {
    fn default() -> (r: ReferentKey)
        ensures
            r == ReferentKey::Message(MessageKey(0)),
    {
        ReferentKey::Message(MessageKey(0))
    }
}

/// A reference, by the keys of the nodes at its two ends.
#[derive(Clone, Copy, Debug, PartialEq, Eq, Structural)]
pub struct ReferenceInner {
    pub referrer: ReferrerKey,
    pub referent: ReferentKey,
    pub is_external: bool,
}

impl Default for ReferenceInner {
    fn default() -> (r: ReferenceInner)
        ensures
            r == (ReferenceInner {
                referrer: ReferrerKey::Field(FieldKey(0)),
                referent: ReferentKey::Message(MessageKey(0)),
                is_external: false,
            }),
    {
        ReferenceInner {
            referrer: ReferrerKey::default(),
            referent: ReferentKey::default(),
            is_external: false,
        }
    }
}

/// The field, extension or method that makes a reference.
#[derive(Clone, Copy, Debug, PartialEq, Eq, Structural)]
pub enum Referrer {
    Field(FieldKey),
    Extension(ExtensionKey),
    Method(MethodKey),
}

impl Referrer {
    pub fn is_field(&self) -> (r: bool)
        ensures
            r == (*self is Field),
    {
        match self {
            Referrer::Field(..) => true,
            _ => false,
        }
    }

    pub fn as_field(&self) -> (r: Option<&FieldKey>)
        ensures
            match self {
                Referrer::Field(k) => r == Some(k),
                _ => r is None,
            },
    {
        match self {
            Referrer::Field(k) => Some(k),
            _ => None,
        }
    }

    pub fn is_extension(&self) -> (r: bool)
        ensures
            r == (*self is Extension),
    {
        match self {
            Referrer::Extension(..) => true,
            _ => false,
        }
    }

    pub fn as_extension(&self) -> (r: Option<&ExtensionKey>)
        ensures
            match self {
                Referrer::Extension(k) => r == Some(k),
                _ => r is None,
            },
    {
        match self {
            Referrer::Extension(k) => Some(k),
            _ => None,
        }
    }

    pub fn is_method(&self) -> (r: bool)
        ensures
            r == (*self is Method),
    {
        match self {
            Referrer::Method(..) => true,
            _ => false,
        }
    }

    pub fn as_method(&self) -> (r: Option<&MethodKey>)
        ensures
            match self {
                Referrer::Method(k) => r == Some(k),
                _ => r is None,
            },
    {
        match self {
            Referrer::Method(k) => Some(k),
            _ => None,
        }
    }
}

/// The message or enum that a reference names.
#[derive(Clone, Copy, Debug, PartialEq, Eq, Structural)]
pub enum Referent {
    Message(MessageKey),
    Enum(EnumKey),
}

impl Referent {
    pub fn is_message(&self) -> (r: bool)
        ensures
            r == (*self is Message),
    {
        match self {
            Referent::Message(..) => true,
            _ => false,
        }
    }

    pub fn as_message(&self) -> (r: Option<&MessageKey>)
        ensures
            match self {
                Referent::Message(k) => r == Some(k),
                _ => r is None,
            },
    {
        match self {
            Referent::Message(k) => Some(k),
            _ => None,
        }
    }

    pub fn is_enum(&self) -> (r: bool)
        ensures
            r == (*self is Enum),
    {
        match self {
            Referent::Enum(..) => true,
            _ => false,
        }
    }

    pub fn as_enum(&self) -> (r: Option<&EnumKey>)
        ensures
            match self {
                Referent::Enum(k) => r == Some(k),
                _ => r is None,
            },
    {
        match self {
            Referent::Enum(k) => Some(k),
            _ => None,
        }
    }
}

/// A reference from a field, extension or method to a message or enum.
#[derive(Clone, Copy, Debug, PartialEq, Eq, Structural)]
pub struct Reference {
    pub referrer: Referrer,
    pub referent: Referent,
    /// Whether the message or enum is declared in another file.
    pub is_external: bool,
}

/// The reference that `inner` stands for.
pub open spec fn reference_of(inner: ReferenceInner) -> Reference {
    Reference {
        referrer: match inner.referrer {
            ReferrerKey::Field(k) => Referrer::Field(k),
            ReferrerKey::Extension(k) => Referrer::Extension(k),
            ReferrerKey::Method(k) => Referrer::Method(k),
        },
        referent: match inner.referent {
            ReferentKey::Message(k) => Referent::Message(k),
            ReferentKey::Enum(k) => Referent::Enum(k),
        },
        is_external: inner.is_external,
    }
}

impl Reference {
    pub fn referrer(self) -> (r: Referrer)
        ensures
            r == self.referrer,
    {
        self.referrer
    }

    pub fn referent(self) -> (r: Referent)
        ensures
            r == self.referent,
    {
        self.referent
    }

    pub fn is_external(self) -> (r: bool)
        ensures
            r == self.is_external,
    {
        self.is_external
    }

    /// The reference that `inner` stands for.
    pub fn from_inner(inner: ReferenceInner) -> (r: Reference)
        ensures
            r == reference_of(inner),
    {
        let referrer = match inner.referrer {
            ReferrerKey::Field(k) => Referrer::Field(k),
            ReferrerKey::Extension(k) => Referrer::Extension(k),
            ReferrerKey::Method(k) => Referrer::Method(k),
        };
        let referent = match inner.referent {
            ReferentKey::Message(k) => Referent::Message(k),
            ReferentKey::Enum(k) => Referent::Enum(k),
        };
        Reference { referrer, referent, is_external: inner.is_external }
    }
}

/// The references of a node, handed out one at a time.
pub struct References {
    inner: Vec<ReferenceInner>,
    next: usize,
}

impl View for References {
    type V = Seq<Reference>;

    /// The references not yet handed out.
    closed spec fn view(&self) -> Seq<Reference> {
        self.inner@.subrange(self.next as int, self.inner@.len() as int).map_values(
            |i: ReferenceInner| reference_of(i),
        )
    }
}

impl References {
    pub closed spec fn wf(&self) -> bool {
        self.next <= self.inner@.len()
    }

    /// The reference in `opt`, if any.
    pub fn from_option(opt: Option<ReferenceInner>) -> (r: References)
        ensures
            r.wf(),
            r@ == (match opt {
                Some(i) => seq![reference_of(i)],
                None => Seq::<Reference>::empty(),
            }),
    {
        let mut inner: Vec<ReferenceInner> = Vec::new();
        if let Some(i) = opt {
            inner.push(i);
        }
        let r = References { inner, next: 0 };
        assert(r@ =~= (match opt {
            Some(i) => seq![reference_of(i)],
            None => Seq::<Reference>::empty(),
        }));
        r
    }

    /// The references in `slice`, in order.
    pub fn from_slice(slice: &[ReferenceInner]) -> (r: References)
        ensures
            r.wf(),
            r@ == slice@.map_values(|i: ReferenceInner| reference_of(i)),
    {
        let mut inner: Vec<ReferenceInner> = Vec::new();
        let mut k: usize = 0;
        while k < slice.len()
            invariant
                k <= slice@.len(),
                inner@ == slice@.subrange(0, k as int),
            decreases slice@.len() - k,
        {
            inner.push(slice[k]);
            k = k + 1;
            assert(inner@ =~= slice@.subrange(0, k as int));
        }
        assert(inner@ =~= slice@);
        let r = References { inner, next: 0 };
        assert(r@ =~= slice@.map_values(|i: ReferenceInner| reference_of(i)));
        r
    }

    /// Hands out the next reference; none once all have been.
    pub fn next(&mut self) -> (r: Option<Reference>)
        requires
            old(self).wf(),
        ensures
            final(self).wf(),
            old(self)@.len() == 0 ==> r is None && final(self)@ == old(self)@,
            old(self)@.len() > 0 ==> r == Some(old(self)@[0]) && final(self)@ == old(self)@.drop_first(),
    {
        if self.next < self.inner.len() {
            let i = self.inner[self.next];
            let ghost before = self@;
            self.next = self.next + 1;
            assert(self@ =~= before.drop_first());
            Some(Reference::from_inner(i))
        } else {
            None
        }
    }
}

} // verus!
