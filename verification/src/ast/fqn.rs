use vstd::prelude::*;
use vstd::string::*;

verus! {

/// The name of `value` inside `container`, joined by a `.`.
///
/// An empty `value` names the container itself; an empty or absent
/// container leaves `value` as it is.
pub open spec fn spec_qualify(value: Seq<char>, container: Option<Seq<char>>) -> Seq<char> {
    let c = match container {
        Some(c) => c,
        None => Seq::<char>::empty(),
    };
    if value.len() == 0 {
        c
    } else if c.len() == 0 {
        value
    } else {
        c + seq!['.'] + value
    }
}

/// The fully qualified name of a package: the package name with a leading
/// `.`, unless it already has one; the empty name for the empty package.
pub open spec fn spec_package_fqn(package: Seq<char>) -> Seq<char> {
    if package.len() == 0 {
        package
    } else if package[0] == '.' {
        package
    } else {
        seq!['.'] + package
    }
}

/// A dot-separated name such as `.google.protobuf.Any`.
#[derive(Clone, Debug, PartialEq, Eq, Hash, PartialOrd, Ord)]
pub struct FullyQualifiedName(String);

impl View for FullyQualifiedName {
    type V = Seq<char>;

    closed spec fn view(&self) -> Seq<char> {
        self.0@
    }
}

impl Default for FullyQualifiedName {
    fn default() -> (r: Self)
        ensures
            r@ == Seq::<char>::empty(),
    {
        FullyQualifiedName(String::new())
    }
}

impl From<String> for FullyQualifiedName {
    fn from(value: String) -> (r: FullyQualifiedName) {
        FullyQualifiedName(value)
    }
}

impl vstd::std_specs::convert::FromSpecImpl<String> for FullyQualifiedName {
    open spec fn obeys_from_spec() -> bool {
        true
    }

    closed spec fn from_spec(v: String) -> FullyQualifiedName {
        FullyQualifiedName(v)
    }
}

impl<'a> From<&'a str> for FullyQualifiedName {
    /// The name with the characters of `value`.
    fn from(value: &'a str) -> (r: FullyQualifiedName)
        ensures
            r@ == value@,
    {
        FullyQualifiedName(String::from_str(value))
    }
}

impl From<Box<str>> for FullyQualifiedName {
    /// The name with the characters of `value`.
    fn from(value: Box<str>) -> (r: FullyQualifiedName)
        ensures
            r@ == value@,
    {
        FullyQualifiedName(String::from_str(&*value))
    }
}

/// What the names made from `&str` and `Box<str>` hold is stated by the
/// `ensures` of their `from`: a spec function cannot build the `String` they
/// hold, so they are not tied to one.
impl<'a> vstd::std_specs::convert::FromSpecImpl<&'a str> for FullyQualifiedName {
    open spec fn obeys_from_spec() -> bool {
        false
    }

    closed spec fn from_spec(v: &'a str) -> FullyQualifiedName {
        choose|f: FullyQualifiedName| f@ == v@
    }
}

impl vstd::std_specs::convert::FromSpecImpl<Box<str>> for FullyQualifiedName {
    open spec fn obeys_from_spec() -> bool {
        false
    }

    closed spec fn from_spec(v: Box<str>) -> FullyQualifiedName {
        choose|f: FullyQualifiedName| f@ == v@
    }
}

impl AsRef<str> for FullyQualifiedName {
    /// The name as a string (see [`FullyQualifiedName::as_str`]).
    fn as_ref(&self) -> (r: &str)
        ensures
            r@ == self@,
    {
        self.0.as_str()
    }
}

impl std::ops::Deref for FullyQualifiedName {
    type Target = str;

    /// The name as a string (see [`FullyQualifiedName::as_str`]).
    fn deref(&self) -> (r: &str)
        ensures
            r@ == self@,
    {
        self.0.as_str()
    }
}

/// A name made from a string holds the characters of the string.
pub proof fn lemma_from_string(v: String)
    ensures
        <FullyQualifiedName as vstd::std_specs::convert::FromSpec<String>>::from_spec(v)@
            == v@,
{
}

impl FullyQualifiedName {
    /// The name of `value` within `container` (see [`spec_qualify`]).
    pub fn new(value: &str, container: Option<FullyQualifiedName>) -> (r: Self)
        ensures
            r@ == spec_qualify(
                value@,
                match container {
                    Some(c) => Some(c@),
                    None => None,
                },
            ),
    {
        if value.is_empty() {
            match container {
                Some(fqn) => return fqn,
                None => return Self::default(),
            }
        }
        let container = match container {
            Some(c) => c,
            None => Self::default(),
        };
        if container.is_empty() {
            return FullyQualifiedName(String::from_str(value));
        }
        proof {
            reveal_strlit(".");
        }
        let joined = container.0.concat(".").concat(value);
        FullyQualifiedName(joined)
    }

    /// A copy of the name.
    pub fn duplicate(&self) -> (r: Self)
        ensures
            r@ == self@,
    {
        FullyQualifiedName(self.0.clone())
    }

    pub fn is_empty(&self) -> (r: bool)
        ensures
            r == (self@.len() == 0),
    {
        self.0.as_str().is_empty()
    }

    pub fn as_str(&self) -> (r: &str)
        ensures
            r@ == self@,
    {
        self.0.as_str()
    }

    /// The name as a string of its own.
    pub fn to_string(&self) -> (r: String)
        ensures
            r@ == self@,
    {
        String::from_str(self.as_str())
    }

    /// Appends `value` as a new last segment; an empty `value` leaves the
    /// name unchanged.
    pub fn push(&mut self, value: &str)
        ensures
            final(self)@ == spec_qualify(value@, Some(old(self)@)),
    {
        if value.is_empty() {
            return;
        }
        proof {
            reveal_strlit(".");
        }
        let mut existing = self.0.clone();
        if !self.0.as_str().is_empty() {
            existing.append(".");
        }
        existing.append(value);
        self.0 = existing;
    }

    /// The fully qualified name of the package `package` (see
    /// [`spec_package_fqn`]).
    pub fn for_package(package: &str) -> (r: Self)
        ensures
            r@ == spec_package_fqn(package@),
    {
        let len = package.unicode_len();
        if len == 0 {
            return Self::default();
        }
        if package.get_char(0) == '.' {
            FullyQualifiedName(String::from_str(package))
        } else {
            proof {
                reveal_strlit(".");
            }
            FullyQualifiedName(String::from_str(".").concat(package))
        }
    }
}

/// Pushing a segment onto a name gives the same name as qualifying the
/// segment by that name as its container.
pub proof fn lemma_push_is_qualify(name: Seq<char>, value: Seq<char>)
    ensures
        spec_qualify(value, Some(name)) == (if value.len() == 0 {
            name
        } else if name.len() == 0 {
            value
        } else {
            name + seq!['.'] + value
        }),
{
}

/// Qualifying without a container leaves the value unchanged, and
/// qualifying the empty value names the container.
pub proof fn lemma_qualify_identities(value: Seq<char>, container: Seq<char>)
    ensures
        spec_qualify(value, None) == value,
        spec_qualify(Seq::<char>::empty(), Some(container)) == container,
        spec_qualify(value, Some(Seq::<char>::empty())) == value,
{
}

/// Qualifying adds exactly one separator between a non-empty container and
/// a non-empty value, and keeps both as prefix and suffix.
pub proof fn lemma_qualify_structure(value: Seq<char>, container: Seq<char>)
    requires
        value.len() > 0,
        container.len() > 0,
    ensures
        spec_qualify(value, Some(container)).len() == container.len() + 1 + value.len(),
        spec_qualify(value, Some(container)).subrange(0, container.len() as int) == container,
        spec_qualify(value, Some(container))[container.len() as int] == '.',
        spec_qualify(value, Some(container)).subrange(
            container.len() + 1int,
            container.len() + 1int + value.len(),
        ) == value,
{
    let r = spec_qualify(value, Some(container));
    assert(r.subrange(0, container.len() as int) =~= container);
    assert(r.subrange(container.len() + 1int, container.len() + 1int + value.len()) =~= value);
}

/// A package's fully qualified name starts with `.` unless it is empty,
/// and computing it twice changes nothing.
pub proof fn lemma_package_fqn(package: Seq<char>)
    ensures
        spec_package_fqn(package).len() > 0 ==> spec_package_fqn(package)[0] == '.',
        spec_package_fqn(package).len() == 0 <==> package.len() == 0,
        spec_package_fqn(spec_package_fqn(package)) == spec_package_fqn(package),
{
}

/// A package's fully qualified name is the package itself, with a single
/// `.` put in front where the package does not start with one: it ends with
/// the package, and is one character longer exactly where the package is
/// non-empty and does not start with `.`.
pub proof fn lemma_package_fqn_keeps_package(package: Seq<char>)
    ensures
        spec_package_fqn(package).len() >= package.len(),
        spec_package_fqn(package).subrange(
            spec_package_fqn(package).len() - package.len(),
            spec_package_fqn(package).len() as int,
        ) == package,
        spec_package_fqn(package).len() == package.len() + (if package.len() > 0 && package[0]
            != '.' {
            1int
        } else {
            0int
        }),
{
    let f = spec_package_fqn(package);
    assert(f.subrange(f.len() - package.len(), f.len() as int) =~= package);
}

} // verus!
