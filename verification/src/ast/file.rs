//! Files: their syntax, their options, their imports, and the hydration
//! of a file node from its descriptor.
use crate::ast::fqn::FullyQualifiedName;
use crate::ast::location::Comments;
use crate::ast::node::{
    ExtensionBlockKey, ExtensionKey, EnumKey, FileKey, MessageKey, NodeKey, PackageKey, ServiceKey,
};
use crate::ast::uninterpreted::{option_from, UninterpretedOption};
use crate::descriptor::FileOptions;
use crate::error::{Error, ErrorView};
use crate::text::same_chars;
use vstd::prelude::*;

verus! {

/// The syntax of a `.proto` file.
#[derive(Clone, Copy, Debug, PartialEq, Eq, Structural, Hash)]
pub enum Syntax {
    Proto2,
    Proto3,
}

/// The name by which a file declares its syntax.
pub open spec fn syntax_name(s: Syntax) -> Seq<char> {
    match s {
        Syntax::Proto2 => seq!['p', 'r', 'o', 't', 'o', '2'],
        Syntax::Proto3 => seq!['p', 'r', 'o', 't', 'o', '3'],
    }
}

/// What parsing the declared syntax `s` gives: the syntax of that name, or
/// the error that names `s`.
pub open spec fn spec_parse_syntax(s: Seq<char>) -> Result<Syntax, ErrorView> {
    if s == syntax_name(Syntax::Proto2) {
        Ok(Syntax::Proto2)
    } else if s == syntax_name(Syntax::Proto3) {
        Ok(Syntax::Proto3)
    } else {
        Err(ErrorView::UnsupportedSyntax { value: s })
    }
}

/// The characters that `str::to_lowercase` of std gives for `s`.
pub uninterp spec fn lowercase(s: Seq<char>) -> Seq<char>;

/// `str::to_lowercase` of std: the lowercase equivalent of `s`, a function
/// of `s` alone, named [`lowercase`]; its mapping of each character is
/// Unicode's and is not stated here.
#[verifier::external_body]
fn to_lowercase(s: &str) -> (r: String)
    ensures
        r@ == lowercase(s@),
{
    s.to_lowercase()
}

/// What reading a syntax name in any case gives: the syntax whose name is
/// the lowercase form of `s`, where the empty name stands for `proto2`.
pub open spec fn spec_read_syntax(s: Seq<char>) -> Result<Syntax, ()> {
    let l = lowercase(s);
    if l == syntax_name(Syntax::Proto2) || l.len() == 0 {
        Ok(Syntax::Proto2)
    } else if l == syntax_name(Syntax::Proto3) {
        Ok(Syntax::Proto3)
    } else {
        Err(())
    }
}

impl Syntax {
    const PROTO2: &'static str = "proto2";

    const PROTO3: &'static str = "proto3";

    /// Fields may carry the `required` label in this syntax.
    pub fn supports_required_prefix(&self) -> (r: bool)
        ensures
            r == (*self == Syntax::Proto2),
    {
        self.is_proto2()
    }

    pub fn is_proto2(&self) -> (r: bool)
        ensures
            r == (*self == Syntax::Proto2),
    {
        match self {
            Syntax::Proto2 => true,
            _ => false,
        }
    }

    pub fn is_proto3(&self) -> (r: bool)
        ensures
            r == (*self == Syntax::Proto3),
    {
        match self {
            Syntax::Proto3 => true,
            _ => false,
        }
    }

    pub fn as_str(&self) -> (r: &'static str)
        ensures
            r@ == syntax_name(*self),
    {
        proof {
            reveal_strlit("proto2");
            reveal_strlit("proto3");
        }
        match self {
            Syntax::Proto2 => {
                assert(Self::PROTO2@ =~= syntax_name(Syntax::Proto2));
                Self::PROTO2
            },
            Syntax::Proto3 => {
                assert(Self::PROTO3@ =~= syntax_name(Syntax::Proto3));
                Self::PROTO3
            },
        }
    }

    /// The name of the syntax, as a file declares it.
    pub fn to_string(&self) -> (r: String)
        ensures
            r@ == syntax_name(*self),
    {
        String::from_str(self.as_str())
    }

    /// The syntax that a file declares by the name `s`: exactly `proto2` or
    /// `proto3`; any other name is unsupported.
    pub fn parse(s: &str) -> (r: Result<Syntax, Error>)
        ensures
            match spec_parse_syntax(s@) {
                Ok(x) => r matches Ok(y) && y == x,
                Err(e) => r matches Err(y) && y@ == e,
            },
    {
        if same_chars(s, Syntax::Proto2.as_str()) {
            Ok(Syntax::Proto2)
        } else if same_chars(s, Syntax::Proto3.as_str()) {
            Ok(Syntax::Proto3)
        } else {
            Err(Error::unsupported_syntax(s))
        }
    }

    /// The syntax named `v` in any case; the empty name is `proto2`.
    pub fn read(v: &str) -> (r: Result<Syntax, ()>)
        ensures
            r == spec_read_syntax(v@),
    {
        let lower = to_lowercase(v);
        let l = lower.as_str();
        if same_chars(l, Syntax::Proto2.as_str()) || l.unicode_len() == 0 {
            Ok(Syntax::Proto2)
        } else if same_chars(l, Syntax::Proto3.as_str()) {
            Ok(Syntax::Proto3)
        } else {
            Err(())
        }
    }
}

impl Default for Syntax {
    fn default() -> (r: Syntax)
        ensures
            r == Syntax::Proto2,
    {
        Syntax::Proto2
    }
}

impl std::str::FromStr for Syntax {
    type Err = ();

    fn from_str(v: &str) -> (r: Result<Syntax, ()>)
        ensures
            r == spec_read_syntax(v@),
    {
        Syntax::read(v)
    }
}

/// The syntax that a file declares by the name `syntax` (see
/// [`Syntax::parse`]).
pub fn parse_syntax(syntax: &str) -> (r: Result<Syntax, Error>)
    ensures
        match spec_parse_syntax(syntax@) {
            Ok(x) => r matches Ok(y) && y == x,
            Err(e) => r matches Err(y) && y@ == e,
        },
{
    if same_chars(syntax, Syntax::Proto2.as_str()) {
        Ok(Syntax::Proto2)
    } else if same_chars(syntax, Syntax::Proto3.as_str()) {
        Ok(Syntax::Proto3)
    } else {
        Err(Error::unsupported_syntax(syntax))
    }
}

/// Reading a syntax by its name gives the syntax back, and both names are
/// supported.
pub proof fn lemma_syntax_name_roundtrip(s: Syntax)
    ensures
        spec_parse_syntax(syntax_name(s)) == Ok::<Syntax, ErrorView>(s),
{
    assert(syntax_name(Syntax::Proto3)[5] != syntax_name(Syntax::Proto2)[5]);
}

/// Reading is by the lowercase form alone: any string whose lowercase form
/// is the name of a syntax reads as that syntax, whatever its case; one
/// whose lowercase form is empty reads as `proto2`; any other fails.
pub proof fn lemma_read_syntax_by_lowercase(t: Seq<char>, s: Syntax)
    ensures
        lowercase(t) == syntax_name(s) ==> spec_read_syntax(t) == Ok::<Syntax, ()>(s),
        lowercase(t).len() == 0 ==> spec_read_syntax(t) == Ok::<Syntax, ()>(Syntax::Proto2),
        spec_read_syntax(t) is Err <==> (lowercase(t).len() > 0 && lowercase(t) != syntax_name(
            Syntax::Proto2,
        ) && lowercase(t) != syntax_name(Syntax::Proto3)),
{
    assert(syntax_name(Syntax::Proto3)[5] != syntax_name(Syntax::Proto2)[5]);
}

/// Parsing fails exactly on the names other than `proto2` and `proto3`,
/// and the error it gives names the input.
pub proof fn lemma_parse_syntax_errors(s: Seq<char>)
    ensures
        spec_parse_syntax(s) is Err <==> (s != syntax_name(Syntax::Proto2) && s != syntax_name(
            Syntax::Proto3,
        )),
        spec_parse_syntax(s) is Err ==> spec_parse_syntax(s) == Err::<Syntax, ErrorView>(
            ErrorView::UnsupportedSyntax { value: s },
        ),
{
}

/// How generated classes are optimised.
#[derive(Clone, Copy, Debug, PartialEq, Eq, Structural, Hash, PartialOrd, Ord)]
pub enum OptimizeMode {
    /// Complete code for parsing, serialization, and so on.
    Speed,
    /// Reflection-based implementations of those methods.
    CodeSize,
    /// Code for the lite runtime.
    LiteRuntime,
    /// A mode number that is none of the above.
    Unknown(i32),
}

/// The mode that the number `code` of the descriptor stands for.
pub open spec fn optimize_mode_of(code: i32) -> OptimizeMode {
    if code == 1 {
        OptimizeMode::Speed
    } else if code == 2 {
        OptimizeMode::CodeSize
    } else if code == 3 {
        OptimizeMode::LiteRuntime
    } else {
        OptimizeMode::Unknown(code)
    }
}

/// The numbers 1 to 3 stand for the three known modes, each for its own;
/// any other number is kept as it is.
pub proof fn lemma_optimize_mode_codes(code: i32, other: i32)
    ensures
        optimize_mode_of(code) is Unknown <==> (code < 1 || code > 3),
        optimize_mode_of(code) == OptimizeMode::Unknown(code) <==> (code < 1 || code > 3),
        optimize_mode_of(code) == optimize_mode_of(other) ==> code == other,
{
}

impl OptimizeMode {
    /// The mode that the number `code` of the descriptor stands for; a
    /// number of no known mode is kept in [`OptimizeMode::Unknown`].
    pub fn from_code(code: i32) -> (r: OptimizeMode)
        ensures
            r == optimize_mode_of(code),
    {
        if code == 1 {
            OptimizeMode::Speed
        } else if code == 2 {
            OptimizeMode::CodeSize
        } else if code == 3 {
            OptimizeMode::LiteRuntime
        } else {
            OptimizeMode::Unknown(code)
        }
    }

    pub fn is_speed(&self) -> (r: bool)
        ensures
            r == (*self == OptimizeMode::Speed),
    {
        match self {
            OptimizeMode::Speed => true,
            _ => false,
        }
    }

    pub fn is_code_size(&self) -> (r: bool)
        ensures
            r == (*self == OptimizeMode::CodeSize),
    {
        match self {
            OptimizeMode::CodeSize => true,
            _ => false,
        }
    }

    pub fn is_lite_runtime(&self) -> (r: bool)
        ensures
            r == (*self == OptimizeMode::LiteRuntime),
    {
        match self {
            OptimizeMode::LiteRuntime => true,
            _ => false,
        }
    }

    pub fn is_unknown(&self) -> (r: bool)
        ensures
            r == (*self is Unknown),
    {
        match self {
            OptimizeMode::Unknown(..) => true,
            _ => false,
        }
    }
}

/// An import seen from the file that is imported.
#[derive(Clone, Copy, Debug, PartialEq, Eq, Structural, Default)]
pub struct DependentInner {
    pub is_used: bool,
    pub is_public: bool,
    pub is_weak: bool,
    pub dependent: FileKey,
    pub dependency: FileKey,
}

/// An import seen from the file that imports.
#[derive(Clone, Copy, Debug, PartialEq, Eq, Structural, Default)]
pub struct DependencyInner {
    pub is_used: bool,
    pub is_public: bool,
    pub is_weak: bool,
    pub dependency: FileKey,
    pub dependent: FileKey,
}

/// The import `d`, seen from the file that is imported.
pub open spec fn dependent_of(d: DependencyInner) -> DependentInner {
    DependentInner {
        is_used: d.is_used,
        is_public: d.is_public,
        is_weak: d.is_weak,
        dependent: d.dependent,
        dependency: d.dependency,
    }
}

/// The import `d`, seen from the file that imports.
pub open spec fn dependency_of(d: DependentInner) -> DependencyInner {
    DependencyInner {
        is_used: d.is_used,
        is_public: d.is_public,
        is_weak: d.is_weak,
        dependency: d.dependency,
        dependent: d.dependent,
    }
}

impl DependentInner {
    pub fn set_is_used(&mut self, is_used: bool)
        ensures
            *final(self) == (DependentInner { is_used, ..*old(self) }),
    {
        self.is_used = is_used;
    }

    /// The same import, seen from the file that imports.
    pub fn as_dependency_inner(self) -> (r: DependencyInner)
        ensures
            r == dependency_of(self),
    {
        DependencyInner {
            is_used: self.is_used,
            is_public: self.is_public,
            is_weak: self.is_weak,
            dependency: self.dependency,
            dependent: self.dependent,
        }
    }
}

impl DependencyInner {
    pub fn set_is_used(&mut self, is_used: bool)
        ensures
            *final(self) == (DependencyInner { is_used, ..*old(self) }),
    {
        self.is_used = is_used;
    }

    /// The same import, seen from the file that is imported.
    pub fn as_dependent_inner(self) -> (r: DependentInner)
        ensures
            r == dependent_of(self),
    {
        DependentInner {
            is_used: self.is_used,
            is_public: self.is_public,
            is_weak: self.is_weak,
            dependent: self.dependent,
            dependency: self.dependency,
        }
    }
}

/// Seeing an import from the other file and back gives the same import.
pub proof fn lemma_dependency_turnaround(d: DependencyInner, e: DependentInner)
    ensures
        dependency_of(dependent_of(d)) == d,
        dependent_of(dependency_of(e)) == e,
{
}

/// An import of a file by another, seen from the file that is imported.
#[derive(Clone, Copy, Debug, PartialEq, Eq, Structural)]
pub struct Dependent {
    pub is_used: bool,
    pub is_public: bool,
    pub is_weak: bool,
    /// The file that imports.
    pub dependent: FileKey,
    /// The file that is imported.
    pub dependency: FileKey,
}

/// An import of a file by another, seen from the file that imports.
#[derive(Clone, Copy, Debug, PartialEq, Eq, Structural)]
pub struct Dependency {
    pub is_used: bool,
    pub is_public: bool,
    pub is_weak: bool,
    /// The file that is imported.
    pub dependency: FileKey,
    /// The file that imports.
    pub dependent: FileKey,
}

impl Dependent {
    /// The same import, seen from the file that imports.
    pub fn as_dependency(self) -> (r: Dependency)
        ensures
            r == (Dependency {
                is_used: self.is_used,
                is_public: self.is_public,
                is_weak: self.is_weak,
                dependency: self.dependency,
                dependent: self.dependent,
            }),
    {
        Dependency {
            is_used: self.is_used,
            is_public: self.is_public,
            is_weak: self.is_weak,
            dependency: self.dependency,
            dependent: self.dependent,
        }
    }

    pub fn is_used(self) -> (r: bool)
        ensures
            r == self.is_used,
    {
        self.is_used
    }

    pub fn is_public(self) -> (r: bool)
        ensures
            r == self.is_public,
    {
        self.is_public
    }

    pub fn is_weak(self) -> (r: bool)
        ensures
            r == self.is_weak,
    {
        self.is_weak
    }

    pub fn dependent(self) -> (r: FileKey)
        ensures
            r == self.dependent,
    {
        self.dependent
    }

    pub fn dependency(self) -> (r: FileKey)
        ensures
            r == self.dependency,
    {
        self.dependency
    }

    /// The file that imports.
    pub fn as_file(self) -> (r: FileKey)
        ensures
            r == self.dependent,
    {
        self.dependent
    }
}

impl Dependency {
    pub fn is_used(self) -> (r: bool)
        ensures
            r == self.is_used,
    {
        self.is_used
    }

    pub fn is_public(self) -> (r: bool)
        ensures
            r == self.is_public,
    {
        self.is_public
    }

    pub fn is_weak(self) -> (r: bool)
        ensures
            r == self.is_weak,
    {
        self.is_weak
    }

    /// The file that is imported.
    pub fn import(self) -> (r: FileKey)
        ensures
            r == self.dependency,
    {
        self.dependency
    }

    /// The file that imports.
    pub fn imported_by(self) -> (r: FileKey)
        ensures
            r == self.dependent,
    {
        self.dependent
    }

    /// The file that is imported.
    pub fn as_file(self) -> (r: FileKey)
        ensures
            r == self.dependency,
    {
        self.dependency
    }
}

/// The imports of a file: all of them in order, and those that are public
/// and weak, in the same order.
#[derive(Clone, Debug, Default, PartialEq)]
pub struct DependenciesInner {
    pub all: Vec<DependencyInner>,
    pub public: Vec<DependencyInner>,
    pub weak: Vec<DependencyInner>,
    pub unused: Vec<DependencyInner>,
}

/// A node key with the fully qualified name and the name of its node.
pub type Hydrated<K> = (K, FullyQualifiedName, String);

/// The last key in `keys` whose name in `names` is `name`.
pub open spec fn last_named<K>(keys: Seq<K>, names: Seq<Seq<char>>, name: Seq<char>) -> Option<K>
    decreases keys.len(),
{
    if keys.len() == 0 || names.len() == 0 {
        None
    } else if names.last() == name {
        Some(keys.last())
    } else {
        last_named(keys.drop_last(), names.drop_last(), name)
    }
}

/// The keys of the nodes of one kind that a container holds, in order,
/// each with the name of its node.
#[derive(Clone, Debug, PartialEq)]
pub struct KeySet<K> {
    set: Vec<K>,
    names: Vec<String>,
}

impl<K> View for KeySet<K> {
    type V = Seq<K>;

    closed spec fn view(&self) -> Seq<K> {
        self.set@
    }
}

impl<K> KeySet<K> {
    /// The names of the nodes, in the order of their keys.
    pub closed spec fn names(&self) -> Seq<Seq<char>> {
        self.names@.map_values(|n: String| n@)
    }

    pub closed spec fn wf(&self) -> bool {
        self.set@.len() == self.names@.len()
    }
}

impl<K: Copy> KeySet<K> {
    /// The set with no keys.
    pub fn new() -> (r: KeySet<K>)
        ensures
            r.wf(),
            r@.len() == 0,
            r.names().len() == 0,
    {
        KeySet { set: Vec::new(), names: Vec::new() }
    }

    /// The keys of `hydrated` in order, each with its name.
    pub fn from_vec(hydrated: Vec<Hydrated<K>>) -> (r: KeySet<K>)
        ensures
            r.wf(),
            r@ == hydrated@.map_values(|h: Hydrated<K>| h.0),
            r.names() == hydrated@.map_values(|h: Hydrated<K>| h.2@),
    {
        let ghost all = hydrated@;
        let mut set: Vec<K> = Vec::new();
        let mut names: Vec<String> = Vec::new();
        for h in it: hydrated.into_iter()
            invariant
                it.seq() == all,
                set@.len() == it.index(),
                names@.len() == it.index(),
                forall|k: int| 0 <= k < it.index() ==> #[trigger] set@[k] == all[k].0,
                forall|k: int| 0 <= k < it.index() ==> #[trigger] names@[k]@ == all[k].2@,
        {
            let (key, _, name) = h;
            set.push(key);
            names.push(name);
        }
        let r = KeySet { set, names };
        assert(r@ =~= all.map_values(|h: Hydrated<K>| h.0));
        assert(r.names() =~= all.map_values(|h: Hydrated<K>| h.2@));
        r
    }

    /// The key of the last node named `name`.
    pub fn by_name(&self, name: &str) -> (r: Option<K>)
        requires
            self.wf(),
        ensures
            r == last_named(self@, self.names(), name@),
    {
        let mut i: usize = self.set.len();
        assert(self@.subrange(0, i as int) =~= self@);
        assert(self.names().subrange(0, i as int) =~= self.names());
        while i > 0
            invariant
                i <= self.set@.len(),
                self.set@.len() == self.names@.len(),
                last_named(self@, self.names(), name@) == last_named(
                    self@.subrange(0, i as int),
                    self.names().subrange(0, i as int),
                    name@,
                ),
            decreases i,
        {
            let ghost keys = self@.subrange(0, i as int);
            let ghost ns = self.names().subrange(0, i as int);
            assert(ns.last() == self.names@[i - 1]@);
            assert(keys.drop_last() =~= self@.subrange(0, i - 1));
            assert(ns.drop_last() =~= self.names().subrange(0, i - 1));
            if same_chars(self.names[i - 1].as_str(), name) {
                return Some(self.set[i - 1]);
            }
            i = i - 1;
        }
        None
    }

    /// The key at `index`.
    pub fn get(&self, index: usize) -> (r: Option<K>)
        ensures
            index < self@.len() ==> r == Some(self@[index as int]),
            index >= self@.len() ==> r is None,
    {
        if index < self.set.len() {
            Some(self.set[index])
        } else {
            None
        }
    }

    pub fn as_slice(&self) -> (r: &[K])
        ensures
            r@ == self@,
    {
        self.set.as_slice()
    }
}

/// What the hydration of a file reads: its name, declared syntax and
/// options, and the nodes and imports already hydrated for it.
#[derive(Debug)]
pub struct Hydrate {
    pub name: String,
    pub syntax: Option<String>,
    pub options: FileOptions,
    pub package: Option<PackageKey>,
    pub messages: Vec<Hydrated<MessageKey>>,
    pub enums: Vec<Hydrated<EnumKey>>,
    pub services: Vec<Hydrated<ServiceKey>>,
    pub extensions: Vec<Hydrated<ExtensionKey>>,
    pub extension_blocks: Vec<ExtensionBlockKey>,
    pub dependencies: DependenciesInner,
    pub package_comments: Option<Comments>,
    pub comments: Option<Comments>,
    pub is_build_target: bool,
}

/// The data of a file node.
#[derive(Clone, Debug, PartialEq)]
pub struct Inner {
    pub key: FileKey,
    pub fqn: FullyQualifiedName,
    pub name: String,
    pub path: String,
    pub package: Option<PackageKey>,
    pub messages: KeySet<MessageKey>,
    pub enums: KeySet<EnumKey>,
    pub services: KeySet<ServiceKey>,
    pub extensions: KeySet<ExtensionKey>,
    pub extension_blocks: Vec<ExtensionBlockKey>,
    pub dependencies: DependenciesInner,
    pub used_imports: Vec<DependencyInner>,
    pub unused_dependencies: Vec<DependencyInner>,
    pub transitive_dependencies: Vec<DependencyInner>,
    pub package_comments: Option<Comments>,
    pub comments: Option<Comments>,
    pub dependents: Vec<DependentInner>,
    pub transitive_dependents: Vec<DependentInner>,
    pub is_build_target: bool,
    pub syntax: Syntax,
    pub java_package: Option<String>,
    pub java_outer_classname: Option<String>,
    pub java_multiple_files: bool,
    pub java_generate_equals_and_hash: bool,
    pub java_string_check_utf8: bool,
    pub java_generic_services: bool,
    pub optimize_for: Option<OptimizeMode>,
    pub go_package: Option<String>,
    pub cc_generic_services: bool,
    pub py_generic_services: bool,
    pub php_generic_services: bool,
    pub deprecated: bool,
    pub cc_enable_arenas: bool,
    pub objc_class_prefix: Option<String>,
    pub csharp_namespace: Option<String>,
    pub swift_prefix: Option<String>,
    pub php_class_prefix: Option<String>,
    pub php_namespace: Option<String>,
    pub php_metadata_namespace: Option<String>,
    pub ruby_package: Option<String>,
    pub uninterpreted_options: Vec<UninterpretedOption>,
}

/// The string in `o`; the empty string where it is unset.
pub open spec fn syntax_chars(o: Option<String>) -> Seq<char> {
    match o {
        Some(s) => s@,
        None => Seq::empty(),
    }
}

/// The flag in `o`; `false` where it is unset.
pub open spec fn flag(o: Option<bool>) -> bool {
    o == Some(true)
}

/// `f` holds the options that `o` describes: strings as they are, unset
/// flags as `false`, the optimisation mode by its number.
pub open spec fn options_from(f: Inner, o: FileOptions) -> bool {
    &&& f.java_package == o.java_package
    &&& f.java_outer_classname == o.java_outer_classname
    &&& f.go_package == o.go_package
    &&& f.objc_class_prefix == o.objc_class_prefix
    &&& f.csharp_namespace == o.csharp_namespace
    &&& f.swift_prefix == o.swift_prefix
    &&& f.php_class_prefix == o.php_class_prefix
    &&& f.php_namespace == o.php_namespace
    &&& f.php_metadata_namespace == o.php_metadata_namespace
    &&& f.ruby_package == o.ruby_package
    &&& f.java_multiple_files == flag(o.java_multiple_files)
    &&& f.java_generate_equals_and_hash == flag(o.java_generate_equals_and_hash)
    &&& f.java_string_check_utf8 == flag(o.java_string_check_utf8)
    &&& f.java_generic_services == flag(o.java_generic_services)
    &&& f.cc_generic_services == flag(o.cc_generic_services)
    &&& f.py_generic_services == flag(o.py_generic_services)
    &&& f.php_generic_services == flag(o.php_generic_services)
    &&& f.deprecated == flag(o.deprecated)
    &&& f.cc_enable_arenas == flag(o.cc_enable_arenas)
    &&& f.optimize_for == (match o.optimize_for {
        Some(c) => Some(optimize_mode_of(c)),
        None => None,
    })
    &&& f.uninterpreted_options@.len() == o.uninterpreted_option@.len()
    &&& forall|k: int|
        0 <= k < o.uninterpreted_option@.len() ==> option_from(
            #[trigger] f.uninterpreted_options@[k],
            o.uninterpreted_option@[k],
        )
}

/// `a` and `b` agree on all but the options.
pub open spec fn same_but_options(a: Inner, b: Inner) -> bool {
    &&& a.key == b.key
    &&& a.fqn == b.fqn
    &&& a.name == b.name
    &&& a.path == b.path
    &&& a.package == b.package
    &&& a.messages == b.messages
    &&& a.enums == b.enums
    &&& a.services == b.services
    &&& a.extensions == b.extensions
    &&& a.extension_blocks == b.extension_blocks
    &&& a.dependencies == b.dependencies
    &&& a.used_imports == b.used_imports
    &&& a.unused_dependencies == b.unused_dependencies
    &&& a.transitive_dependencies == b.transitive_dependencies
    &&& a.package_comments == b.package_comments
    &&& a.comments == b.comments
    &&& a.dependents == b.dependents
    &&& a.transitive_dependents == b.transitive_dependents
    &&& a.is_build_target == b.is_build_target
    &&& a.syntax == b.syntax
}

/// `f` is a file node with the name `fqn` and nothing else set, leaving
/// aside the files that depend on it.
pub open spec fn blank_file_but_dependents(f: Inner, fqn: Seq<char>) -> bool {
    &&& f.key == FileKey(0)
    &&& f.fqn@ == fqn
    &&& f.name@.len() == 0
    &&& f.path@.len() == 0
    &&& f.package is None
    &&& f.messages@.len() == 0 && f.messages.wf()
    &&& f.enums@.len() == 0 && f.enums.wf()
    &&& f.services@.len() == 0 && f.services.wf()
    &&& f.extensions@.len() == 0 && f.extensions.wf()
    &&& f.extension_blocks@.len() == 0
    &&& f.dependencies.all@.len() == 0
    &&& f.dependencies.public@.len() == 0
    &&& f.dependencies.weak@.len() == 0
    &&& f.dependencies.unused@.len() == 0
    &&& f.used_imports@.len() == 0
    &&& f.unused_dependencies@.len() == 0
    &&& f.transitive_dependencies@.len() == 0
    &&& f.package_comments is None
    &&& f.comments is None
    &&& !f.is_build_target
    &&& f.syntax == Syntax::Proto2
    &&& f.java_package is None
    &&& f.java_outer_classname is None
    &&& f.go_package is None
    &&& f.objc_class_prefix is None
    &&& f.csharp_namespace is None
    &&& f.swift_prefix is None
    &&& f.php_class_prefix is None
    &&& f.php_namespace is None
    &&& f.php_metadata_namespace is None
    &&& f.ruby_package is None
    &&& !f.java_multiple_files
    &&& !f.java_generate_equals_and_hash
    &&& !f.java_string_check_utf8
    &&& !f.java_generic_services
    &&& !f.cc_generic_services
    &&& !f.py_generic_services
    &&& !f.php_generic_services
    &&& !f.deprecated
    &&& !f.cc_enable_arenas
    &&& f.optimize_for is None
    &&& f.uninterpreted_options@.len() == 0
}

/// `f` is a file node with the name `fqn` and nothing else set.
pub open spec fn blank_file(f: Inner, fqn: Seq<char>) -> bool {
    &&& blank_file_but_dependents(f, fqn)
    &&& f.dependents@.len() == 0
    &&& f.transitive_dependents@.len() == 0
}

/// `f` is `before` hydrated from `h` with the syntax `syntax`.
pub open spec fn hydrated_from(f: Inner, before: Inner, h: Hydrate, syntax: Syntax) -> bool {
    &&& f.key == before.key
    &&& f.fqn == before.fqn
    &&& f.name == h.name
    &&& f.path@ == h.name@
    &&& f.syntax == syntax
    &&& f.package == h.package
    &&& f.messages.wf() && f.messages@ == h.messages@.map_values(|x: Hydrated<MessageKey>| x.0)
    &&& f.messages.names() == h.messages@.map_values(|x: Hydrated<MessageKey>| x.2@)
    &&& f.enums.wf() && f.enums@ == h.enums@.map_values(|x: Hydrated<EnumKey>| x.0)
    &&& f.enums.names() == h.enums@.map_values(|x: Hydrated<EnumKey>| x.2@)
    &&& f.services.wf() && f.services@ == h.services@.map_values(|x: Hydrated<ServiceKey>| x.0)
    &&& f.services.names() == h.services@.map_values(|x: Hydrated<ServiceKey>| x.2@)
    &&& f.extensions.wf() && f.extensions@ == h.extensions@.map_values(
        |x: Hydrated<ExtensionKey>| x.0,
    )
    &&& f.extensions.names() == h.extensions@.map_values(|x: Hydrated<ExtensionKey>| x.2@)
    &&& f.extension_blocks == h.extension_blocks
    &&& f.dependencies == h.dependencies
    &&& f.used_imports == before.used_imports
    &&& f.unused_dependencies == before.unused_dependencies
    &&& f.transitive_dependencies == before.transitive_dependencies
    &&& f.package_comments == h.package_comments
    &&& f.comments == h.comments
    &&& f.dependents == before.dependents
    &&& f.transitive_dependents == before.transitive_dependents
    &&& f.is_build_target == h.is_build_target
    &&& options_from(f, h.options)
}

impl Inner {
    /// A file node with the name `fqn` and nothing else set.
    pub fn from_fqn(fqn: FullyQualifiedName) -> (r: Inner)
        ensures
            blank_file(r, fqn@),
    {
        Inner {
            key: FileKey(0),
            fqn: fqn,
            name: String::new(),
            path: String::new(),
            package: None,
            messages: KeySet::new(),
            enums: KeySet::new(),
            services: KeySet::new(),
            extensions: KeySet::new(),
            extension_blocks: Vec::new(),
            dependencies: DependenciesInner {
                all: Vec::new(),
                public: Vec::new(),
                weak: Vec::new(),
                unused: Vec::new(),
            },
            used_imports: Vec::new(),
            unused_dependencies: Vec::new(),
            transitive_dependencies: Vec::new(),
            package_comments: None,
            comments: None,
            dependents: Vec::new(),
            transitive_dependents: Vec::new(),
            is_build_target: false,
            syntax: Syntax::Proto2,
            java_package: None,
            java_outer_classname: None,
            java_multiple_files: false,
            java_generate_equals_and_hash: false,
            java_string_check_utf8: false,
            java_generic_services: false,
            optimize_for: None,
            go_package: None,
            cc_generic_services: false,
            py_generic_services: false,
            php_generic_services: false,
            deprecated: false,
            cc_enable_arenas: false,
            objc_class_prefix: None,
            csharp_namespace: None,
            swift_prefix: None,
            php_class_prefix: None,
            php_namespace: None,
            php_metadata_namespace: None,
            ruby_package: None,
            uninterpreted_options: Vec::new(),
        }
    }

    /// Reads the options `opts` into the node; references and nested nodes
    /// are left as they are.
    pub fn hydrate_options(&mut self, opts: FileOptions)
        ensures
            options_from(*final(self), opts),
            same_but_options(*final(self), *old(self)),
    {
        let ghost o = opts;
        let FileOptions {
            java_package,
            java_outer_classname,
            go_package,
            objc_class_prefix,
            csharp_namespace,
            swift_prefix,
            php_class_prefix,
            php_namespace,
            php_metadata_namespace,
            ruby_package,
            java_multiple_files,
            java_generate_equals_and_hash,
            java_string_check_utf8,
            java_generic_services,
            cc_generic_services,
            py_generic_services,
            php_generic_services,
            deprecated,
            cc_enable_arenas,
            optimize_for,
            uninterpreted_option,
        } = opts;
        self.java_package = java_package;
        self.java_outer_classname = java_outer_classname;
        self.go_package = go_package;
        self.objc_class_prefix = objc_class_prefix;
        self.csharp_namespace = csharp_namespace;
        self.swift_prefix = swift_prefix;
        self.php_class_prefix = php_class_prefix;
        self.php_namespace = php_namespace;
        self.php_metadata_namespace = php_metadata_namespace;
        self.ruby_package = ruby_package;
        self.java_multiple_files = match java_multiple_files {
            Some(b) => b,
            None => false,
        };
        self.java_generate_equals_and_hash = match java_generate_equals_and_hash {
            Some(b) => b,
            None => false,
        };
        self.java_string_check_utf8 = match java_string_check_utf8 {
            Some(b) => b,
            None => false,
        };
        self.java_generic_services = match java_generic_services {
            Some(b) => b,
            None => false,
        };
        self.cc_generic_services = match cc_generic_services {
            Some(b) => b,
            None => false,
        };
        self.py_generic_services = match py_generic_services {
            Some(b) => b,
            None => false,
        };
        self.php_generic_services = match php_generic_services {
            Some(b) => b,
            None => false,
        };
        self.deprecated = match deprecated {
            Some(b) => b,
            None => false,
        };
        self.cc_enable_arenas = match cc_enable_arenas {
            Some(b) => b,
            None => false,
        };
        self.optimize_for = match optimize_for {
            Some(c) => Some(OptimizeMode::from_code(c)),
            None => None,
        };
        self.uninterpreted_options = UninterpretedOption::from_descriptors(uninterpreted_option);
    }

    /// Fills the node from what `hydrate` holds; fails where the declared
    /// syntax (the empty name where none is declared) is neither `proto2` nor
    /// `proto3`, with only the name and path set. Gives the node's key,
    /// fully qualified name and name.
    pub fn hydrate(&mut self, hydrate: Hydrate) -> (r: Result<Hydrated<FileKey>, Error>)
        ensures
            match spec_parse_syntax(syntax_chars(hydrate.syntax)) {
                Err(e) => {
                    &&& r matches Err(x) && x@ == e
                    &&& *final(self) == (Inner {
                        name: hydrate.name,
                        path: final(self).path,
                        ..*old(self)
                    })
                    &&& final(self).path@ == hydrate.name@
                },
                Ok(syntax) => {
                    &&& r matches Ok(x) && x.0 == old(self).key && x.1@ == old(self).fqn@ && x.2@
                        == hydrate.name@
                    &&& hydrated_from(*final(self), *old(self), hydrate, syntax)
                },
            },
    {
        let ghost h = hydrate;
        let Hydrate {
            name,
            syntax,
            options,
            package,
            messages,
            enums,
            services,
            extensions,
            extension_blocks,
            dependencies,
            package_comments,
            comments,
            is_build_target,
        } = hydrate;
        self.set_name_and_path(name);
        let declared = match syntax {
            Some(s) => s,
            None => String::new(),
        };
        self.syntax = match Syntax::parse(declared.as_str()) {
            Ok(s) => s,
            Err(e) => return Err(e),
        };
        self.package = package;
        self.messages = KeySet::from_vec(messages);
        self.enums = KeySet::from_vec(enums);
        self.services = KeySet::from_vec(services);
        self.extensions = KeySet::from_vec(extensions);
        self.extension_blocks = extension_blocks;
        self.dependencies = dependencies;
        self.package_comments = package_comments;
        self.comments = comments;
        self.is_build_target = is_build_target;
        self.hydrate_options(options);
        Ok((self.key, self.fqn.duplicate(), self.name.clone()))
    }

    /// Sets the name of the file and its path, which is the same.
    pub fn set_name_and_path(&mut self, name: String)
        ensures
            *final(self) == (Inner { name, path: final(self).path, ..*old(self) }),
            final(self).path@ == name@,
    {
        self.path = name.clone();
        self.name = name;
    }

    pub fn set_key(&mut self, key: FileKey)
        ensures
            *final(self) == (Inner { key, ..*old(self) }),
    {
        self.key = key;
    }

    pub fn set_name(&mut self, name: String)
        ensures
            *final(self) == (Inner { name, ..*old(self) }),
    {
        self.name = name;
    }

    pub fn set_fqn(&mut self, fqn: FullyQualifiedName)
        ensures
            *final(self) == (Inner { fqn, ..*old(self) }),
    {
        self.fqn = fqn;
    }

    pub fn set_comments(&mut self, comments: Comments)
        ensures
            *final(self) == (Inner { comments: Some(comments), ..*old(self) }),
    {
        self.comments = Some(comments);
    }

    pub fn set_package_comments(&mut self, package_comments: Comments)
        ensures
            *final(self) == (Inner { package_comments: Some(package_comments), ..*old(self) }),
    {
        self.package_comments = Some(package_comments);
    }

    pub fn set_is_build_target(&mut self, is_build_target: bool)
        ensures
            *final(self) == (Inner { is_build_target, ..*old(self) }),
    {
        self.is_build_target = is_build_target;
    }

    pub fn package(&self) -> (r: Option<PackageKey>)
        ensures
            r == self.package,
    {
        self.package
    }

    pub fn set_package(&mut self, package: Option<PackageKey>)
        ensures
            *final(self) == (Inner { package, ..*old(self) }),
    {
        self.package = package;
    }

    /// Sets the uninterpreted options to those that `opts` describe.
    pub fn set_uninterpreted_options(&mut self, opts: Vec<crate::descriptor::UninterpretedOption>)
        ensures
            final(self).uninterpreted_options@.len() == opts@.len(),
            forall|k: int|
                0 <= k < opts@.len() ==> option_from(
                    #[trigger] final(self).uninterpreted_options@[k],
                    opts@[k],
                ),
            *final(self) == (Inner {
                uninterpreted_options: final(self).uninterpreted_options,
                ..*old(self)
            }),
    {
        self.uninterpreted_options = UninterpretedOption::from_descriptors(opts);
    }

    /// Records a file that imports this one, among the direct and the
    /// transitive dependents.
    pub fn add_dependent(&mut self, dependent: DependentInner)
        ensures
            final(self).dependents@ == old(self).dependents@.push(dependent),
            final(self).transitive_dependents@ == old(self).transitive_dependents@.push(
                dependent,
            ),
            *final(self) == (Inner {
                dependents: final(self).dependents,
                transitive_dependents: final(self).transitive_dependents,
                ..*old(self)
            }),
    {
        self.dependents.push(dependent);
        self.transitive_dependents.push(dependent);
    }

    pub fn add_transitive_dependent(&mut self, dependent: DependentInner)
        ensures
            final(self).transitive_dependents@ == old(self).transitive_dependents@.push(
                dependent,
            ),
            *final(self) == (Inner {
                transitive_dependents: final(self).transitive_dependents,
                ..*old(self)
            }),
    {
        self.transitive_dependents.push(dependent);
    }

    pub fn add_transitive_dependency(&mut self, import: DependencyInner)
        ensures
            final(self).transitive_dependencies@ == old(self).transitive_dependencies@.push(
                import,
            ),
            *final(self) == (Inner {
                transitive_dependencies: final(self).transitive_dependencies,
                ..*old(self)
            }),
    {
        self.transitive_dependencies.push(import);
    }
}

impl Default for Inner {
    fn default() -> (r: Inner)
        ensures
            blank_file(r, Seq::empty()),
    {
        Inner::from_fqn(FullyQualifiedName::default())
    }
}

impl Inner {
    pub fn syntax(&self) -> (r: Syntax)
        ensures
            r == self.syntax,
    {
        self.syntax
    }

    pub fn optimize_for(&self) -> (r: Option<OptimizeMode>)
        ensures
            r == self.optimize_for,
    {
        self.optimize_for
    }

    pub fn path(&self) -> (r: &str)
        ensures
            r@ == self.path@,
    {
        self.path.as_str()
    }

    /// The options that the parser did not recognise.
    pub fn uninterpreted_option(&self) -> (r: &[UninterpretedOption])
        ensures
            r@ == self.uninterpreted_options@,
    {
        self.uninterpreted_options.as_slice()
    }

    pub fn is_build_target(&self) -> (r: bool)
        ensures
            r == self.is_build_target,
    {
        self.is_build_target
    }

    pub fn java_multiple_files(&self) -> (r: bool)
        ensures
            r == self.java_multiple_files,
    {
        self.java_multiple_files
    }

    pub fn java_generate_equals_and_hash(&self) -> (r: bool)
        ensures
            r == self.java_generate_equals_and_hash,
    {
        self.java_generate_equals_and_hash
    }

    pub fn java_string_check_utf8(&self) -> (r: bool)
        ensures
            r == self.java_string_check_utf8,
    {
        self.java_string_check_utf8
    }

    pub fn java_generic_services(&self) -> (r: bool)
        ensures
            r == self.java_generic_services,
    {
        self.java_generic_services
    }

    pub fn cc_generic_services(&self) -> (r: bool)
        ensures
            r == self.cc_generic_services,
    {
        self.cc_generic_services
    }

    pub fn py_generic_services(&self) -> (r: bool)
        ensures
            r == self.py_generic_services,
    {
        self.py_generic_services
    }

    pub fn php_generic_services(&self) -> (r: bool)
        ensures
            r == self.php_generic_services,
    {
        self.php_generic_services
    }

    pub fn deprecated(&self) -> (r: bool)
        ensures
            r == self.deprecated,
    {
        self.deprecated
    }

    pub fn cc_enable_arenas(&self) -> (r: bool)
        ensures
            r == self.cc_enable_arenas,
    {
        self.cc_enable_arenas
    }

    pub fn java_package(&self) -> (r: Option<&str>)
        ensures
            match self.java_package {
                Some(s) => r matches Some(t) && t@ == s@,
                None => r is None,
            },
    {
        match &self.java_package {
            Some(s) => Some(s.as_str()),
            None => None,
        }
    }

    pub fn java_outer_classname(&self) -> (r: Option<&str>)
        ensures
            match self.java_outer_classname {
                Some(s) => r matches Some(t) && t@ == s@,
                None => r is None,
            },
    {
        match &self.java_outer_classname {
            Some(s) => Some(s.as_str()),
            None => None,
        }
    }

    pub fn go_package(&self) -> (r: Option<&str>)
        ensures
            match self.go_package {
                Some(s) => r matches Some(t) && t@ == s@,
                None => r is None,
            },
    {
        match &self.go_package {
            Some(s) => Some(s.as_str()),
            None => None,
        }
    }

    pub fn objc_class_prefix(&self) -> (r: Option<&str>)
        ensures
            match self.objc_class_prefix {
                Some(s) => r matches Some(t) && t@ == s@,
                None => r is None,
            },
    {
        match &self.objc_class_prefix {
            Some(s) => Some(s.as_str()),
            None => None,
        }
    }

    pub fn csharp_namespace(&self) -> (r: Option<&str>)
        ensures
            match self.csharp_namespace {
                Some(s) => r matches Some(t) && t@ == s@,
                None => r is None,
            },
    {
        match &self.csharp_namespace {
            Some(s) => Some(s.as_str()),
            None => None,
        }
    }

    pub fn swift_prefix(&self) -> (r: Option<&str>)
        ensures
            match self.swift_prefix {
                Some(s) => r matches Some(t) && t@ == s@,
                None => r is None,
            },
    {
        match &self.swift_prefix {
            Some(s) => Some(s.as_str()),
            None => None,
        }
    }

    pub fn php_class_prefix(&self) -> (r: Option<&str>)
        ensures
            match self.php_class_prefix {
                Some(s) => r matches Some(t) && t@ == s@,
                None => r is None,
            },
    {
        match &self.php_class_prefix {
            Some(s) => Some(s.as_str()),
            None => None,
        }
    }

    pub fn php_namespace(&self) -> (r: Option<&str>)
        ensures
            match self.php_namespace {
                Some(s) => r matches Some(t) && t@ == s@,
                None => r is None,
            },
    {
        match &self.php_namespace {
            Some(s) => Some(s.as_str()),
            None => None,
        }
    }

    pub fn php_metadata_namespace(&self) -> (r: Option<&str>)
        ensures
            match self.php_metadata_namespace {
                Some(s) => r matches Some(t) && t@ == s@,
                None => r is None,
            },
    {
        match &self.php_metadata_namespace {
            Some(s) => Some(s.as_str()),
            None => None,
        }
    }

    pub fn ruby_package(&self) -> (r: Option<&str>)
        ensures
            match self.ruby_package {
                Some(s) => r matches Some(t) && t@ == s@,
                None => r is None,
            },
    {
        match &self.ruby_package {
            Some(s) => Some(s.as_str()),
            None => None,
        }
    }
}

/// The node keys of the messages, enums, services and extensions of a file,
/// in that order.
pub open spec fn file_node_keys(f: Inner) -> Seq<NodeKey> {
    f.messages@.map_values(|k: MessageKey| NodeKey::Message(k)) + f.enums@.map_values(
        |k: EnumKey| NodeKey::Enum(k),
    ) + f.services@.map_values(|k: ServiceKey| NodeKey::Service(k)) + f.extensions@.map_values(
        |k: ExtensionKey| NodeKey::Extension(k),
    )
}

impl Inner {
    /// The node keys of the messages, enums, services and extensions the
    /// file declares, in that order.
    pub fn keys(&self) -> (r: Vec<NodeKey>)
        ensures
            r@ == file_node_keys(*self),
    {
        let mut out: Vec<NodeKey> = Vec::new();
        let messages = self.messages.as_slice();
        let mut i: usize = 0;
        while i < messages.len()
            invariant
                i <= messages@.len(),
                messages@ == self.messages@,
                out@ == messages@.subrange(0, i as int).map_values(|k: MessageKey| NodeKey::Message(k)),
            decreases messages@.len() - i,
        {
            out.push(NodeKey::Message(messages[i]));
            i = i + 1;
            assert(out@ =~= messages@.subrange(0, i as int).map_values(|k: MessageKey| NodeKey::Message(k)));
        }
        assert(messages@.subrange(0, i as int) =~= messages@);
        let ghost after_messages = out@;
        let enums = self.enums.as_slice();
        let mut i: usize = 0;
        while i < enums.len()
            invariant
                i <= enums@.len(),
                enums@ == self.enums@,
                out@ == after_messages + enums@.subrange(0, i as int).map_values(|k: EnumKey| NodeKey::Enum(k)),
            decreases enums@.len() - i,
        {
            out.push(NodeKey::Enum(enums[i]));
            i = i + 1;
            assert(out@ =~= after_messages + enums@.subrange(0, i as int).map_values(|k: EnumKey| NodeKey::Enum(k)));
        }
        assert(enums@.subrange(0, i as int) =~= enums@);
        let ghost after_enums = out@;
        let services = self.services.as_slice();
        let mut i: usize = 0;
        while i < services.len()
            invariant
                i <= services@.len(),
                services@ == self.services@,
                out@ == after_enums + services@.subrange(0, i as int).map_values(|k: ServiceKey| NodeKey::Service(k)),
            decreases services@.len() - i,
        {
            out.push(NodeKey::Service(services[i]));
            i = i + 1;
            assert(out@ =~= after_enums + services@.subrange(0, i as int).map_values(|k: ServiceKey| NodeKey::Service(k)));
        }
        assert(services@.subrange(0, i as int) =~= services@);
        let ghost after_services = out@;
        let extensions = self.extensions.as_slice();
        let mut i: usize = 0;
        while i < extensions.len()
            invariant
                i <= extensions@.len(),
                extensions@ == self.extensions@,
                out@ == after_services + extensions@.subrange(0, i as int).map_values(|k: ExtensionKey| NodeKey::Extension(k)),
            decreases extensions@.len() - i,
        {
            out.push(NodeKey::Extension(extensions[i]));
            i = i + 1;
            assert(out@ =~= after_services + extensions@.subrange(0, i as int).map_values(|k: ExtensionKey| NodeKey::Extension(k)));
        }
        assert(extensions@.subrange(0, i as int) =~= extensions@);
        out
    }
}

} // verus!
