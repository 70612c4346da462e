//! Packages: the namespaces that files declare.
use crate::ast::fqn::{spec_package_fqn, FullyQualifiedName};
use crate::ast::location::Comments as LocationComments;
use crate::ast::node::{FileKey, NodeKey, PackageKey};
use crate::text::same_chars;
use vstd::prelude::*;

verus! {

/// The package of the well-known types.
pub const WELL_KNOWN: &'static str = "google.protobuf";

/// The name of the package of the well-known types.
pub open spec fn well_known_name() -> Seq<char> {
    seq!['g', 'o', 'o', 'g', 'l', 'e', '.', 'p', 'r', 'o', 't', 'o', 'b', 'u', 'f']
}

/// Comments on a package statement, with the file that holds them.
#[derive(Clone, Debug, PartialEq, Eq)]
pub struct CommentsInner {
    pub comments: LocationComments,
    pub defined_in: FileKey,
}

/// Comments on a package statement, with the file that holds them, as
/// handed out.
#[derive(Clone, Debug, PartialEq, Eq)]
pub struct Comments {
    pub comments: LocationComments,
    pub defined_in: FileKey,
}

impl Comments {
    pub fn defined_in(&self) -> (r: FileKey)
        ensures
            r == self.defined_in,
    {
        self.defined_in
    }

    pub fn comments(&self) -> (r: &LocationComments)
        ensures
            *r == self.comments,
    {
        &self.comments
    }
}

/// The data of a package node.
#[derive(Clone, Debug)]
pub struct Inner {
    pub key: PackageKey,
    pub fqn: FullyQualifiedName,
    pub comments: Vec<CommentsInner>,
    pub name: String,
    pub is_well_known: bool,
    pub files: Vec<FileKey>,
}

/// `p` is the package node named `fqn` with nothing else set.
pub open spec fn blank_package(p: Inner, fqn: Seq<char>) -> bool {
    &&& p.key == PackageKey(0)
    &&& p.fqn@ == fqn
    &&& p.name@.len() == 0
    &&& !p.is_well_known
    &&& p.files@.len() == 0
    &&& p.comments@.len() == 0
}

impl Inner {
    /// The package named `name`, with no files or comments yet: its fully
    /// qualified name starts with `.`, and it is well known exactly when it
    /// is `google.protobuf`.
    pub fn new(name: &str) -> (r: Inner)
        ensures
            r.key == PackageKey(0),
            r.name@ == name@,
            r.is_well_known == (name@ == well_known_name()),
            r.fqn@ == spec_package_fqn(name@),
            r.files@.len() == 0,
            r.comments@.len() == 0,
    {
        proof {
            reveal_strlit("google.protobuf");
        }
        assert(WELL_KNOWN@ =~= well_known_name());
        Inner {
            key: PackageKey(0),
            name: String::from_str(name),
            is_well_known: same_chars(name, WELL_KNOWN),
            files: Vec::new(),
            fqn: FullyQualifiedName::for_package(name),
            comments: Vec::new(),
        }
    }

    /// A package node with the name `fqn` and nothing else set.
    pub fn from_fqn(fqn: FullyQualifiedName) -> (r: Inner)
        ensures
            blank_package(r, fqn@),
    {
        Inner {
            key: PackageKey(0),
            fqn,
            comments: Vec::new(),
            name: String::new(),
            is_well_known: false,
            files: Vec::new(),
        }
    }

    pub fn fqn(&self) -> (r: &FullyQualifiedName)
        ensures
            *r == self.fqn,
    {
        &self.fqn
    }

    pub fn is_well_known(&self) -> (r: bool)
        ensures
            r == self.is_well_known,
    {
        self.is_well_known
    }

    pub fn name(&self) -> (r: &str)
        ensures
            r@ == self.name@,
    {
        self.name.as_str()
    }

    pub fn set_key(&mut self, key: PackageKey)
        ensures
            *final(self) == (Inner { key, ..*old(self) }),
    {
        self.key = key;
    }

    pub fn set_name(&mut self, name: String)
        ensures
            *final(self) == (Inner { name, ..*old(self) }),
    {
        self.name = name;
    }

    /// Records a file that declares the package.
    pub fn add_file(&mut self, file: FileKey)
        ensures
            final(self).files@ == old(self).files@.push(file),
            *final(self) == (Inner { files: final(self).files, ..*old(self) }),
    {
        self.files.push(file);
    }

    /// Records the comments on a package statement of the file `defined_in`.
    pub fn add_comments(&mut self, comments: LocationComments, defined_in: FileKey)
        ensures
            final(self).comments@ == old(self).comments@.push(
                CommentsInner { comments, defined_in },
            ),
            *final(self) == (Inner { comments: final(self).comments, ..*old(self) }),
    {
        self.comments.push(CommentsInner { comments, defined_in });
    }

    /// The node keys of the files that declare the package, in order.
    pub fn keys(&self) -> (r: Vec<NodeKey>)
        ensures
            r@ == self.files@.map_values(|f: FileKey| NodeKey::File(f)),
    {
        let mut out: Vec<NodeKey> = Vec::new();
        let mut i: usize = 0;
        while i < self.files.len()
            invariant
                i <= self.files@.len(),
                out@ == self.files@.subrange(0, i as int).map_values(|f: FileKey| NodeKey::File(f)),
            decreases self.files@.len() - i,
        {
            out.push(NodeKey::File(self.files[i]));
            i = i + 1;
            assert(out@ =~= self.files@.subrange(0, i as int).map_values(
                |f: FileKey| NodeKey::File(f),
            ));
        }
        assert(self.files@.subrange(0, i as int) =~= self.files@);
        out
    }
}

} // verus!
