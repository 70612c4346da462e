//! Source locations: spans, comments, and the tree of details that a
//! file's flat list of locations describes.
use crate::ast::path;
use crate::error::{Error, ErrorView};
use std::collections::VecDeque;
use vstd::prelude::*;

verus! {

/// Zero-based spans of a node.
#[derive(Clone, Copy, Debug, PartialEq, Eq, Structural, Default)]
pub struct Span {
    pub start_line: i32,
    pub start_column: i32,
    pub end_line: i32,
    pub end_column: i32,
}

/// The span that the `protoc` encoding `s` stands for: three elements for a
/// span within one line, four otherwise; `None` for any other length.
pub open spec fn spec_span(s: Seq<i32>) -> Option<Span> {
    if s.len() == 3 {
        Some(Span { start_line: s[0], start_column: s[1], end_line: s[0], end_column: s[2] })
    } else if s.len() == 4 {
        Some(Span { start_line: s[0], start_column: s[1], end_line: s[2], end_column: s[3] })
    } else {
        None
    }
}

impl Span {
    /// Decodes a span; fails on an encoding of the wrong length.
    pub fn new(span: &[i32]) -> (r: Result<Span, ()>)
        ensures
            match spec_span(span@) {
                Some(s) => r == Ok::<Span, ()>(s),
                None => r == Err::<Span, ()>(()),
            },
    {
        let len = span.len();
        if len == 3 {
            Ok(Span {
                start_line: span[0],
                start_column: span[1],
                end_line: span[0],
                end_column: span[2],
            })
        } else if len == 4 {
            Ok(Span {
                start_line: span[0],
                start_column: span[1],
                end_line: span[2],
                end_column: span[3],
            })
        } else {
            Err(())
        }
    }

    pub fn start_line(&self) -> (r: i32)
        ensures
            r == self.start_line,
    {
        self.start_line
    }

    pub fn start_column(&self) -> (r: i32)
        ensures
            r == self.start_column,
    {
        self.start_column
    }

    pub fn end_line(&self) -> (r: i32)
        ensures
            r == self.end_line,
    {
        self.end_line
    }

    pub fn end_column(&self) -> (r: i32)
        ensures
            r == self.end_column,
    {
        self.end_column
    }
}

/// The characters of an optional string.
pub open spec fn opt_chars(o: Option<String>) -> Option<Seq<char>> {
    match o {
        Some(s) => Some(s@),
        None => None,
    }
}

/// The characters of each string of a sequence.
pub open spec fn seq_chars(v: Seq<String>) -> Seq<Seq<char>> {
    v.map_values(|s: String| s@)
}

/// The comments attached to a node.
#[derive(Clone, Debug, PartialEq, Eq, Default)]
pub struct Comments {
    leading: Option<String>,
    trailing: Option<String>,
    leading_detached: Vec<String>,
}

/// The mathematical value of [`Comments`].
#[verifier::ext_equal]
pub struct CommentsView {
    pub leading: Option<Seq<char>>,
    pub trailing: Option<Seq<char>>,
    pub leading_detached: Seq<Seq<char>>,
}

impl View for Comments {
    type V = CommentsView;

    closed spec fn view(&self) -> CommentsView {
        CommentsView {
            leading: opt_chars(self.leading),
            trailing: opt_chars(self.trailing),
            leading_detached: seq_chars(self.leading_detached@),
        }
    }
}

/// The comments made of the given parts, or `None` where there are none.
pub open spec fn spec_comments(
    leading: Option<Seq<char>>,
    trailing: Option<Seq<char>>,
    leading_detached: Seq<Seq<char>>,
) -> Option<CommentsView> {
    if leading is None && trailing is None && leading_detached.len() == 0 {
        None
    } else {
        Some(CommentsView { leading, trailing, leading_detached })
    }
}

/// The optional comments, by their value.
pub open spec fn opt_comments(c: Option<Comments>) -> Option<CommentsView> {
    match c {
        Some(c) => Some(c@),
        None => None,
    }
}

impl Comments {
    /// The comments made of the given parts, or `None` where there is no
    /// leading, no trailing and no detached comment.
    pub fn new_maybe(
        leading: Option<String>,
        trailing: Option<String>,
        leading_detached: Vec<String>,
    ) -> (r: Option<Self>)
        ensures
            opt_comments(r) == spec_comments(
                opt_chars(leading),
                opt_chars(trailing),
                seq_chars(leading_detached@),
            ),
    {
        if leading.is_none() && trailing.is_none() && leading_detached.len() == 0 {
            return None;
        }
        Some(Comments { leading, trailing, leading_detached })
    }

    /// Any comment immediately preceding the node, without any whitespace
    /// between it and the comment.
    pub fn leading(&self) -> (r: Option<&str>)
        ensures
            match r {
                Some(s) => self@.leading == Some(s@),
                None => self@.leading is None,
            },
    {
        match &self.leading {
            Some(s) => Some(s.as_str()),
            None => None,
        }
    }

    /// Any comment immediately following the node, without any whitespace
    /// between it and the comment.
    pub fn trailing(&self) -> (r: Option<&str>)
        ensures
            match r {
                Some(s) => self@.trailing == Some(s@),
                None => self@.trailing is None,
            },
    {
        match &self.trailing {
            Some(s) => Some(s.as_str()),
            None => None,
        }
    }

    /// Each comment block or line above the node but separated from it by
    /// whitespace.
    pub fn leading_detached(&self) -> (r: &[String])
        ensures
            seq_chars(r@) == self@.leading_detached,
    {
        self.leading_detached.as_slice()
    }
}

/// One entry of a file's source code info: the path of a node, its span
/// and its comments.
#[derive(Clone, Debug, PartialEq, Eq)]
pub struct Location {
    pub path: Vec<i32>,
    pub span: Vec<i32>,
    pub leading_comments: Option<String>,
    pub trailing_comments: Option<String>,
    pub leading_detached_comments: Vec<String>,
}

/// The path, span and comments of a node.
#[derive(Clone, Debug, PartialEq, Eq)]
pub struct Detail {
    pub path: Vec<i32>,
    pub span: Span,
    pub comments: Option<Comments>,
}

/// The mathematical value of a [`Detail`].
#[verifier::ext_equal]
pub struct DetailView {
    pub path: Seq<i32>,
    pub span: Span,
    pub comments: Option<CommentsView>,
}

impl View for Detail {
    type V = DetailView;

    open spec fn view(&self) -> DetailView {
        DetailView { path: self.path@, span: self.span, comments: opt_comments(self.comments) }
    }
}

/// The detail that a location describes, or the error for its span.
pub open spec fn spec_detail(l: Location) -> Result<DetailView, ErrorView> {
    match spec_span(l.span@) {
        None => Err(ErrorView::InvalidSpan { span: l.span@, path: l.path@ }),
        Some(s) => Ok(
            DetailView {
                path: l.path@,
                span: s,
                comments: spec_comments(
                    opt_chars(l.leading_comments),
                    opt_chars(l.trailing_comments),
                    seq_chars(l.leading_detached_comments@),
                ),
            },
        ),
    }
}

impl Detail {
    /// The detail of the location `loc`; fails where its span is invalid.
    pub fn new(loc: Location) -> (r: Result<Detail, Error>)
        ensures
            match spec_detail(loc) {
                Ok(d) => r matches Ok(x) && x@ == d,
                Err(e) => r matches Err(x) && x@ == e,
            },
    {
        let span = match Span::new(loc.span.as_slice()) {
            Ok(s) => s,
            Err(()) => return Err(Error::invalid_span(&loc.span, &loc.path)),
        };
        let comments = Comments::new_maybe(
            loc.leading_comments,
            loc.trailing_comments,
            loc.leading_detached_comments,
        );
        Ok(Detail { path: loc.path, span, comments })
    }
}

/// `p` lies strictly below `prefix`: it is longer and starts with it.
pub open spec fn is_child(prefix: Seq<i32>, p: Seq<i32>) -> bool {
    p.len() > prefix.len() && p.subrange(0, prefix.len() as int) == prefix
}

/// `rest` without the run of locations at its front that lie below `prefix`.
pub open spec fn skip_descendants(prefix: Seq<i32>, rest: Seq<Location>) -> Seq<Location>
    decreases rest.len(),
{
    if rest.len() > 0 && is_child(prefix, rest[0].path@) {
        skip_descendants(prefix, rest.drop_first())
    } else {
        rest
    }
}

/// A node without children of interest: its detail, and the locations left
/// once those below it are skipped.
pub open spec fn spec_leaf(node: Location, rest: Seq<Location>) -> Result<
    (DetailView, Seq<Location>),
    ErrorView,
> {
    match spec_detail(node) {
        Err(e) => Err(e),
        Ok(d) => Ok((d, skip_descendants(d.path, rest))),
    }
}

/// `s` is what remains of `whole` once a prefix is taken off.
pub open spec fn is_suffix(s: Seq<Location>, whole: Seq<Location>) -> bool {
    s.len() <= whole.len() && s == whole.subrange(whole.len() - s.len(), whole.len() as int)
}

proof fn lemma_suffix_trans(a: Seq<Location>, b: Seq<Location>, c: Seq<Location>)
    requires
        is_suffix(a, b),
        is_suffix(b, c),
    ensures
        is_suffix(a, c),
{
    assert(a =~= c.subrange(c.len() - a.len(), c.len() as int));
}

proof fn lemma_suffix_drop_first(s: Seq<Location>)
    requires
        s.len() > 0,
    ensures
        is_suffix(s.drop_first(), s),
{
    assert(s.drop_first() =~= s.subrange(s.len() - s.drop_first().len(), s.len() as int));
}

proof fn lemma_suffix_refl(s: Seq<Location>)
    ensures
        is_suffix(s, s),
{
    assert(s =~= s.subrange(0, s.len() as int));
}

/// Whether the location at the front of `locations` lies below `prefix`.
fn front_is_child(prefix: &Vec<i32>, locations: &VecDeque<Location>) -> (r: bool)
    ensures
        r == (locations@.len() > 0 && is_child(prefix@, locations@[0].path@)),
{
    if locations.len() == 0 {
        return false;
    }
    let front = &locations[0];
    assert(front.path@ == locations@[0].path@);
    let n = prefix.len();
    if front.path.len() <= n {
        return false;
    }
    let mut i: usize = 0;
    while i < n
        invariant
            n == prefix@.len(),
            n < front.path@.len(),
            locations@.len() > 0,
            front.path@ == locations@[0].path@,
            i <= n,
            forall|j: int| 0 <= j < i ==> front.path@[j] == prefix@[j],
        decreases n - i,
    {
        if front.path[i] != prefix[i] {
            assert(front.path@.subrange(0, n as int)[i as int] != prefix@[i as int]);
            assert(front.path@.subrange(0, n as int) != prefix@);
            return false;
        }
        i = i + 1;
    }
    assert(front.path@.subrange(0, n as int) =~= prefix@);
    true
}

/// Takes the location at the front of `locations` where it lies below
/// `prefix`, together with the element of its path that follows `prefix`.
pub fn iterate_next(prefix: &Vec<i32>, locations: &mut VecDeque<Location>) -> (r: Option<
    (Location, i32),
>)
    ensures
        match r {
            Some((loc, kind)) => {
                &&& old(locations)@.len() > 0
                &&& is_child(prefix@, old(locations)@[0].path@)
                &&& loc == old(locations)@[0]
                &&& kind == loc.path@[prefix@.len() as int]
                &&& final(locations)@ == old(locations)@.drop_first()
            },
            None => {
                &&& !(old(locations)@.len() > 0 && is_child(prefix@, old(locations)@[0].path@))
                &&& final(locations)@ == old(locations)@
            },
        },
{
    if !front_is_child(prefix, locations) {
        return None;
    }
    let next = locations.pop_front();
    match next {
        Some(loc) => {
            let kind = loc.path[prefix.len()];
            assert(locations@ =~= old(locations)@.drop_first());
            Some((loc, kind))
        },
        None => None,
    }
}

/// Drops the locations at the front of `locations` that lie below `prefix`.
fn skip_children(prefix: &Vec<i32>, locations: &mut VecDeque<Location>)
    ensures
        final(locations)@ == skip_descendants(prefix@, old(locations)@),
{
    loop
        invariant
            skip_descendants(prefix@, locations@) == skip_descendants(prefix@, old(locations)@),
        ensures
            locations@ == skip_descendants(prefix@, old(locations)@),
        decreases locations@.len(),
    {
        let next = iterate_next(prefix, locations);
        if next.is_none() {
            return;
        }
    }
}

/// A field (or an extension) of a message.
#[derive(Clone, Debug, PartialEq, Eq)]
pub struct Field {
    pub detail: Detail,
}

/// A oneof of a message.
#[derive(Clone, Debug, PartialEq, Eq)]
pub struct Oneof {
    pub detail: Detail,
}

/// A value of an enum.
#[derive(Clone, Debug, PartialEq, Eq)]
pub struct EnumValue {
    pub detail: Detail,
}

/// A method of a service.
#[derive(Clone, Debug, PartialEq, Eq)]
pub struct Method {
    pub detail: Detail,
}

/// The leaf that `node` and `locations` give: the result of `spec_leaf`
/// and what is left of `locations`.
pub open spec fn leaf_result(
    node: Location,
    old_locations: Seq<Location>,
    new_locations: Seq<Location>,
    detail: Result<DetailView, ErrorView>,
) -> bool {
    &&& is_suffix(new_locations, old_locations)
    &&& match spec_leaf(node, old_locations) {
        Ok((d, rest)) => detail == Ok::<DetailView, ErrorView>(d) && new_locations == rest,
        Err(e) => detail == Err::<DetailView, ErrorView>(e),
    }
}

/// The detail of a leaf node, with the locations below it skipped.
fn leaf_detail(node: Location, locations: &mut VecDeque<Location>) -> (r: Result<Detail, Error>)
    ensures
        leaf_result(
            node,
            old(locations)@,
            final(locations)@,
            match r {
                Ok(d) => Ok(d@),
                Err(e) => Err(e@),
            },
        ),
{
    proof {
        lemma_suffix_refl(old(locations)@);
    }
    let detail = Detail::new(node)?;
    skip_children(&detail.path, locations);
    proof {
        lemma_skip_suffix(detail.path@, old(locations)@);
    }
    Ok(detail)
}

/// Skipping never adds locations: what is left is a suffix.
pub proof fn lemma_skip_suffix(prefix: Seq<i32>, rest: Seq<Location>)
    ensures
        is_suffix(skip_descendants(prefix, rest), rest),
    decreases rest.len(),
{
    if rest.len() > 0 && is_child(prefix, rest[0].path@) {
        lemma_skip_suffix(prefix, rest.drop_first());
        lemma_suffix_drop_first(rest);
        lemma_suffix_trans(skip_descendants(prefix, rest.drop_first()), rest.drop_first(), rest);
    } else {
        lemma_suffix_refl(rest);
    }
}

impl Field {
    pub fn new(node: Location, locations: &mut VecDeque<Location>) -> (r: Result<Self, Error>)
        ensures
            leaf_result(
                node,
                old(locations)@,
                final(locations)@,
                match r {
                    Ok(x) => Ok(x.detail@),
                    Err(e) => Err(e@),
                },
            ),
    {
        let detail = leaf_detail(node, locations)?;
        Ok(Field { detail })
    }
}

impl Oneof {
    pub fn new(node: Location, locations: &mut VecDeque<Location>) -> (r: Result<Self, Error>)
        ensures
            leaf_result(
                node,
                old(locations)@,
                final(locations)@,
                match r {
                    Ok(x) => Ok(x.detail@),
                    Err(e) => Err(e@),
                },
            ),
    {
        let detail = leaf_detail(node, locations)?;
        Ok(Oneof { detail })
    }
}

impl EnumValue {
    pub fn new(node: Location, locations: &mut VecDeque<Location>) -> (r: Result<Self, Error>)
        ensures
            leaf_result(
                node,
                old(locations)@,
                final(locations)@,
                match r {
                    Ok(x) => Ok(x.detail@),
                    Err(e) => Err(e@),
                },
            ),
    {
        let detail = leaf_detail(node, locations)?;
        Ok(EnumValue { detail })
    }
}

impl Method {
    pub fn new(node: Location, locations: &mut VecDeque<Location>) -> (r: Result<Self, Error>)
        ensures
            leaf_result(
                node,
                old(locations)@,
                final(locations)@,
                match r {
                    Ok(x) => Ok(x.detail@),
                    Err(e) => Err(e@),
                },
            ),
    {
        let detail = leaf_detail(node, locations)?;
        Ok(Method { detail })
    }
}

} // verus!

verus! {

/// The leaves below `prefix` at the front of `rest`, after those already
/// in `acc`: each location below `prefix` whose next path element is
/// `only` (any element, where `only` is `None`) starts a leaf; the others
/// are passed over.
pub open spec fn leaf_items(
    prefix: Seq<i32>,
    rest: Seq<Location>,
    acc: Seq<DetailView>,
    only: Option<i32>,
) -> Result<(Seq<DetailView>, Seq<Location>), ErrorView>
    decreases rest.len(),
{
    if rest.len() > 0 && is_child(prefix, rest[0].path@) {
        let next = rest[0];
        let tail = rest.drop_first();
        let kind = next.path@[prefix.len() as int];
        if only is None || only == Some(kind) {
            match spec_leaf(next, tail) {
                Err(e) => Err(e),
                Ok((d, r2)) => if r2.len() < rest.len() {
                    leaf_items(prefix, r2, acc.push(d), only)
                } else {
                    Ok((acc.push(d), r2))
                },
            }
        } else {
            leaf_items(prefix, tail, acc, only)
        }
    } else {
        Ok((acc, rest))
    }
}

/// An enum and its values.
#[derive(Clone, Debug, PartialEq, Eq)]
pub struct Enum {
    pub detail: Detail,
    pub values: Vec<EnumValue>,
}

/// The mathematical value of an [`Enum`].
#[verifier::ext_equal]
pub struct EnumView {
    pub detail: DetailView,
    pub values: Seq<DetailView>,
}

impl Enum {
    pub open spec fn model(self) -> EnumView {
        EnumView { detail: self.detail@, values: self.values@.map_values(|v: EnumValue| v.detail@) }
    }
}

/// The enum that `node` starts, with the locations left after it.
pub open spec fn spec_enum(node: Location, rest: Seq<Location>) -> Result<
    (EnumView, Seq<Location>),
    ErrorView,
> {
    match spec_detail(node) {
        Err(e) => Err(e),
        Ok(d) => match leaf_items(d.path, rest, Seq::empty(), Some(path::Enum::VALUE)) {
            Err(e) => Err(e),
            Ok((values, r)) => Ok((EnumView { detail: d, values }, r)),
        },
    }
}

impl Enum {
    pub fn new(node: Location, locations: &mut VecDeque<Location>) -> (r: Result<Self, Error>)
        ensures
            is_suffix(final(locations)@, old(locations)@),
            match spec_enum(node, old(locations)@) {
                Ok((m, rest)) => r matches Ok(x) && x.model() == m && final(locations)@ == rest,
                Err(e) => r matches Err(x) && x@ == e,
            },
    {
        proof {
            lemma_suffix_refl(old(locations)@);
        }
        let ghost n0 = node;
        let detail = Detail::new(node)?;
        let ghost start = locations@;
        let mut values: Vec<EnumValue> = Vec::new();
        assert(values@.map_values(|v: EnumValue| v.detail@) =~= Seq::<DetailView>::empty());
        loop
            invariant
                is_suffix(locations@, start),
                start == old(locations)@,
                spec_detail(n0) == Ok::<DetailView, ErrorView>(detail@),
                n0 == node,
                leaf_items(
                    detail.path@,
                    locations@,
                    values@.map_values(|v: EnumValue| v.detail@),
                    Some(path::Enum::VALUE),
                ) == leaf_items(detail.path@, start, Seq::empty(), Some(path::Enum::VALUE)),
            ensures
                is_suffix(locations@, start),
                leaf_items(detail.path@, start, Seq::empty(), Some(path::Enum::VALUE)) == Ok::<
                    (Seq<DetailView>, Seq<Location>),
                    ErrorView,
                >((values@.map_values(|v: EnumValue| v.detail@), locations@)),
            decreases locations@.len(),
        {
            let ghost before = locations@;
            match iterate_next(&detail.path, locations) {
                None => break,
                Some((next, kind)) => {
                    proof {
                        lemma_suffix_drop_first(before);
                        lemma_suffix_trans(locations@, before, start);
                    }
                    if path::Enum::from_i32(kind) == path::Enum::Value {
                        let ghost tail = locations@;
                        let res = EnumValue::new(next, locations);
                        proof {
                            lemma_suffix_trans(locations@, tail, start);
                        }
                        let value = match res {
                            Ok(x) => x,
                            Err(e) => return Err(e),
                        };
                        let ghost acc = values@.map_values(|v: EnumValue| v.detail@);
                        values.push(value);
                        assert(values@.map_values(|v: EnumValue| v.detail@) =~= acc.push(
                            value.detail@,
                        ));
                    }
                },
            }
        }
        Ok(Enum { detail, values })
    }
}

/// A service and its methods.
#[derive(Clone, Debug, PartialEq, Eq)]
pub struct Service {
    pub detail: Detail,
    pub methods: Vec<Method>,
}

/// The mathematical value of a [`Service`].
#[verifier::ext_equal]
pub struct ServiceView {
    pub detail: DetailView,
    pub methods: Seq<DetailView>,
}

impl Service {
    pub open spec fn model(self) -> ServiceView {
        ServiceView {
            detail: self.detail@,
            methods: self.methods@.map_values(|v: Method| v.detail@),
        }
    }
}

/// The service that `node` starts, with the locations left after it.
pub open spec fn spec_service(node: Location, rest: Seq<Location>) -> Result<
    (ServiceView, Seq<Location>),
    ErrorView,
> {
    match spec_detail(node) {
        Err(e) => Err(e),
        Ok(d) => match leaf_items(d.path, rest, Seq::empty(), Some(path::Service::METHOD)) {
            Err(e) => Err(e),
            Ok((methods, r)) => Ok((ServiceView { detail: d, methods }, r)),
        },
    }
}

impl Service {
    pub fn new(node: Location, locations: &mut VecDeque<Location>) -> (r: Result<Self, Error>)
        ensures
            is_suffix(final(locations)@, old(locations)@),
            match spec_service(node, old(locations)@) {
                Ok((m, rest)) => r matches Ok(x) && x.model() == m && final(locations)@ == rest,
                Err(e) => r matches Err(x) && x@ == e,
            },
    {
        proof {
            lemma_suffix_refl(old(locations)@);
        }
        let ghost n0 = node;
        let detail = Detail::new(node)?;
        let ghost start = locations@;
        let mut methods: Vec<Method> = Vec::new();
        assert(methods@.map_values(|v: Method| v.detail@) =~= Seq::<DetailView>::empty());
        loop
            invariant
                is_suffix(locations@, start),
                start == old(locations)@,
                spec_detail(n0) == Ok::<DetailView, ErrorView>(detail@),
                n0 == node,
                leaf_items(
                    detail.path@,
                    locations@,
                    methods@.map_values(|v: Method| v.detail@),
                    Some(path::Service::METHOD),
                ) == leaf_items(detail.path@, start, Seq::empty(), Some(path::Service::METHOD)),
            ensures
                is_suffix(locations@, start),
                leaf_items(detail.path@, start, Seq::empty(), Some(path::Service::METHOD)) == Ok::<
                    (Seq<DetailView>, Seq<Location>),
                    ErrorView,
                >((methods@.map_values(|v: Method| v.detail@), locations@)),
            decreases locations@.len(),
        {
            let ghost before = locations@;
            match iterate_next(&detail.path, locations) {
                None => break,
                Some((next, kind)) => {
                    proof {
                        lemma_suffix_drop_first(before);
                        lemma_suffix_trans(locations@, before, start);
                    }
                    match path::Service::from_i32(kind) {
                        path::Service::Method => {
                            let ghost tail = locations@;
                            let res = Method::new(next, locations);
                        proof {
                            lemma_suffix_trans(locations@, tail, start);
                        }
                        let method = match res {
                            Ok(x) => x,
                            Err(e) => return Err(e),
                        };
                            let ghost acc = methods@.map_values(|v: Method| v.detail@);
                            methods.push(method);
                            assert(methods@.map_values(|v: Method| v.detail@) =~= acc.push(
                                method.detail@,
                            ));
                        },
                        path::Service::Mixin | path::Service::Unknown(_) => {},
                    }
                },
            }
        }
        Ok(Service { detail, methods })
    }
}

/// A block of extensions declared together.
#[derive(Clone, Debug, PartialEq, Eq)]
pub struct ExtensionDecl {
    pub detail: Detail,
    pub extensions: Vec<Field>,
}

/// The mathematical value of an [`ExtensionDecl`].
#[verifier::ext_equal]
pub struct ExtensionDeclView {
    pub detail: DetailView,
    pub extensions: Seq<DetailView>,
}

impl ExtensionDecl {
    pub open spec fn model(self) -> ExtensionDeclView {
        ExtensionDeclView {
            detail: self.detail@,
            extensions: self.extensions@.map_values(|v: Field| v.detail@),
        }
    }
}

/// The extension block that `node` starts, with the locations left after it.
pub open spec fn spec_extension_decl(node: Location, rest: Seq<Location>) -> Result<
    (ExtensionDeclView, Seq<Location>),
    ErrorView,
> {
    match spec_detail(node) {
        Err(e) => Err(e),
        Ok(d) => match leaf_items(d.path, rest, Seq::empty(), None) {
            Err(e) => Err(e),
            Ok((extensions, r)) => Ok((ExtensionDeclView { detail: d, extensions }, r)),
        },
    }
}

impl ExtensionDecl {
    pub fn new(node: Location, locations: &mut VecDeque<Location>) -> (r: Result<Self, Error>)
        ensures
            is_suffix(final(locations)@, old(locations)@),
            match spec_extension_decl(node, old(locations)@) {
                Ok((m, rest)) => r matches Ok(x) && x.model() == m && final(locations)@ == rest,
                Err(e) => r matches Err(x) && x@ == e,
            },
    {
        proof {
            lemma_suffix_refl(old(locations)@);
        }
        let ghost n0 = node;
        let detail = Detail::new(node)?;
        let ghost start = locations@;
        let mut extensions: Vec<Field> = Vec::new();
        assert(extensions@.map_values(|v: Field| v.detail@) =~= Seq::<DetailView>::empty());
        loop
            invariant
                is_suffix(locations@, start),
                start == old(locations)@,
                spec_detail(n0) == Ok::<DetailView, ErrorView>(detail@),
                n0 == node,
                leaf_items(
                    detail.path@,
                    locations@,
                    extensions@.map_values(|v: Field| v.detail@),
                    None,
                ) == leaf_items(detail.path@, start, Seq::empty(), None),
            ensures
                is_suffix(locations@, start),
                leaf_items(detail.path@, start, Seq::empty(), None) == Ok::<
                    (Seq<DetailView>, Seq<Location>),
                    ErrorView,
                >((extensions@.map_values(|v: Field| v.detail@), locations@)),
            decreases locations@.len(),
        {
            let ghost before = locations@;
            match iterate_next(&detail.path, locations) {
                None => break,
                Some((next, _kind)) => {
                    proof {
                        lemma_suffix_drop_first(before);
                        lemma_suffix_trans(locations@, before, start);
                    }
                    let ghost tail = locations@;
                    let res = Field::new(next, locations);
                        proof {
                            lemma_suffix_trans(locations@, tail, start);
                        }
                        let field = match res {
                            Ok(x) => x,
                            Err(e) => return Err(e),
                        };
                    let ghost acc = extensions@.map_values(|v: Field| v.detail@);
                    extensions.push(field);
                    assert(extensions@.map_values(|v: Field| v.detail@) =~= acc.push(
                        field.detail@,
                    ));
                },
            }
        }
        Ok(ExtensionDecl { detail, extensions })
    }
}

} // verus!

verus! {

/// A message with the nodes declared in it.
#[derive(Debug)]
pub struct Message {
    pub detail: Detail,
    pub messages: Vec<Message>,
    pub enums: Vec<Enum>,
    pub extensions: Vec<ExtensionDecl>,
    pub oneofs: Vec<Oneof>,
    pub fields: Vec<Field>,
}

/// The mathematical value of a [`Message`].
#[verifier::ext_equal]
pub struct MessageView {
    pub detail: DetailView,
    pub messages: Seq<MessageView>,
    pub enums: Seq<EnumView>,
    pub extensions: Seq<ExtensionDeclView>,
    pub oneofs: Seq<DetailView>,
    pub fields: Seq<DetailView>,
}

/// A message with the detail `d` and nothing declared in it.
pub open spec fn empty_message(d: DetailView) -> MessageView {
    MessageView {
        detail: d,
        messages: Seq::empty(),
        enums: Seq::empty(),
        extensions: Seq::empty(),
        oneofs: Seq::empty(),
        fields: Seq::empty(),
    }
}

impl Message {
    pub open spec fn model(self) -> MessageView
        decreases self,
    {
        MessageView {
            detail: self.detail@,
            messages: Seq::new(
                self.messages@.len(),
                |i: int|
                    if 0 <= i < self.messages@.len() {
                        self.messages@[i].model()
                    } else {
                        empty_message(self.detail@)
                    },
            ),
            enums: enums_model(self.enums@),
            extensions: decls_model(self.extensions@),
            oneofs: self.oneofs@.map_values(|v: Oneof| v.detail@),
            fields: self.fields@.map_values(|v: Field| v.detail@),
        }
    }
}

pub open spec fn messages_model(v: Seq<Message>) -> Seq<MessageView> {
    Seq::new(v.len(), |i: int| v[i].model())
}

pub open spec fn enums_model(v: Seq<Enum>) -> Seq<EnumView> {
    v.map_values(|e: Enum| e.model())
}

pub open spec fn decls_model(v: Seq<ExtensionDecl>) -> Seq<ExtensionDeclView> {
    v.map_values(|e: ExtensionDecl| e.model())
}

pub open spec fn services_model(v: Seq<Service>) -> Seq<ServiceView> {
    v.map_values(|e: Service| e.model())
}

/// The message that `node` starts, with the locations left after it.
pub open spec fn spec_message(node: Location, rest: Seq<Location>) -> Result<
    (MessageView, Seq<Location>),
    ErrorView,
>
    decreases rest.len(), 1int,
{
    match spec_detail(node) {
        Err(e) => Err(e),
        Ok(d) => message_items(d.path, rest, empty_message(d)),
    }
}

/// The nodes declared below `prefix` at the front of `rest`, added to those
/// in `acc`: fields, nested messages, enums, extension blocks and oneofs,
/// told apart by the path element that follows `prefix`; other locations
/// below `prefix` are passed over.
pub open spec fn message_items(prefix: Seq<i32>, rest: Seq<Location>, acc: MessageView) -> Result<
    (MessageView, Seq<Location>),
    ErrorView,
>
    decreases rest.len(), 0int,
{
    if rest.len() > 0 && is_child(prefix, rest[0].path@) {
        let next = rest[0];
        let tail = rest.drop_first();
        let kind = next.path@[prefix.len() as int];
        if kind == path::Message::FIELD {
            match spec_leaf(next, tail) {
                Err(e) => Err(e),
                Ok((x, r2)) => if r2.len() < rest.len() {
                    message_items(prefix, r2, MessageView { fields: acc.fields.push(x), ..acc })
                } else {
                    Ok((acc, r2))
                },
            }
        } else if kind == path::Message::NESTED {
            match spec_message(next, tail) {
                Err(e) => Err(e),
                Ok((x, r2)) => if r2.len() < rest.len() {
                    message_items(prefix, r2, MessageView { messages: acc.messages.push(x), ..acc })
                } else {
                    Ok((acc, r2))
                },
            }
        } else if kind == path::Message::ENUM {
            match spec_enum(next, tail) {
                Err(e) => Err(e),
                Ok((x, r2)) => if r2.len() < rest.len() {
                    message_items(prefix, r2, MessageView { enums: acc.enums.push(x), ..acc })
                } else {
                    Ok((acc, r2))
                },
            }
        } else if kind == path::Message::EXTENSION {
            match spec_extension_decl(next, tail) {
                Err(e) => Err(e),
                Ok((x, r2)) => if r2.len() < rest.len() {
                    message_items(
                        prefix,
                        r2,
                        MessageView { extensions: acc.extensions.push(x), ..acc },
                    )
                } else {
                    Ok((acc, r2))
                },
            }
        } else if kind == path::Message::ONEOF {
            match spec_leaf(next, tail) {
                Err(e) => Err(e),
                Ok((x, r2)) => if r2.len() < rest.len() {
                    message_items(prefix, r2, MessageView { oneofs: acc.oneofs.push(x), ..acc })
                } else {
                    Ok((acc, r2))
                },
            }
        } else {
            message_items(prefix, tail, acc)
        }
    } else {
        Ok((acc, rest))
    }
}

/// The message value that the parts gathered so far stand for.
pub open spec fn message_parts(
    d: DetailView,
    messages: Seq<Message>,
    enums: Seq<Enum>,
    extensions: Seq<ExtensionDecl>,
    oneofs: Seq<Oneof>,
    fields: Seq<Field>,
) -> MessageView {
    MessageView {
        detail: d,
        messages: messages_model(messages),
        enums: enums_model(enums),
        extensions: decls_model(extensions),
        oneofs: oneofs.map_values(|v: Oneof| v.detail@),
        fields: fields.map_values(|v: Field| v.detail@),
    }
}

impl Message {
    pub fn new(node: Location, locations: &mut VecDeque<Location>) -> (r: Result<Self, Error>)
        ensures
            is_suffix(final(locations)@, old(locations)@),
            match spec_message(node, old(locations)@) {
                Ok((m, rest)) => r matches Ok(x) && x.model() == m && final(locations)@ == rest,
                Err(e) => r matches Err(x) && x@ == e,
            },
        decreases old(locations)@.len(),
    {
        proof {
            lemma_suffix_refl(old(locations)@);
        }
        let ghost n0 = node;
        let detail = Detail::new(node)?;
        let ghost start = locations@;
        let mut messages: Vec<Message> = Vec::new();
        let mut enums: Vec<Enum> = Vec::new();
        let mut extensions: Vec<ExtensionDecl> = Vec::new();
        let mut oneofs: Vec<Oneof> = Vec::new();
        let mut fields: Vec<Field> = Vec::new();
        assert(messages_model(messages@) =~= Seq::<MessageView>::empty());
        assert(enums_model(enums@) =~= Seq::<EnumView>::empty());
        assert(decls_model(extensions@) =~= Seq::<ExtensionDeclView>::empty());
        assert(oneofs@.map_values(|v: Oneof| v.detail@) =~= Seq::<DetailView>::empty());
        assert(fields@.map_values(|v: Field| v.detail@) =~= Seq::<DetailView>::empty());
        assert(message_parts(detail@, messages@, enums@, extensions@, oneofs@, fields@)
            =~= empty_message(detail@));
        loop
            invariant
                is_suffix(locations@, start),
                start == old(locations)@,
                spec_detail(n0) == Ok::<DetailView, ErrorView>(detail@),
                n0 == node,
                message_items(
                    detail.path@,
                    locations@,
                    message_parts(detail@, messages@, enums@, extensions@, oneofs@, fields@),
                ) == message_items(detail.path@, start, empty_message(detail@)),
            ensures
                is_suffix(locations@, start),
                message_items(detail.path@, start, empty_message(detail@)) == Ok::<
                    (MessageView, Seq<Location>),
                    ErrorView,
                >(
                    (
                        message_parts(detail@, messages@, enums@, extensions@, oneofs@, fields@),
                        locations@,
                    ),
                ),
            decreases locations@.len(),
        {
            let ghost before = locations@;
            let ghost acc = message_parts(
                detail@,
                messages@,
                enums@,
                extensions@,
                oneofs@,
                fields@,
            );
            match iterate_next(&detail.path, locations) {
                None => break,
                Some((next, kind)) => {
                    proof {
                        lemma_suffix_drop_first(before);
                        lemma_suffix_trans(locations@, before, start);
                    }
                    let ghost tail = locations@;
                    match path::Message::from_i32(kind) {
                        path::Message::Field => {
                            let res = Field::new(next, locations);
                            proof {
                                lemma_suffix_trans(locations@, tail, start);
                            }
                            let x = match res {
                                Ok(x) => x,
                                Err(e) => return Err(e),
                            };
                            fields.push(x);
                            assert(message_parts(
                                detail@,
                                messages@,
                                enums@,
                                extensions@,
                                oneofs@,
                                fields@,
                            ) =~= MessageView { fields: acc.fields.push(x.detail@), ..acc });
                        },
                        path::Message::Nested => {
                            let res = Message::new(next, locations);
                            proof {
                                lemma_suffix_trans(locations@, tail, start);
                            }
                            let x = match res {
                                Ok(x) => x,
                                Err(e) => return Err(e),
                            };
                            let ghost old_messages = messages@;
                            messages.push(x);
                            assert(messages_model(messages@) =~= messages_model(old_messages).push(
                                x.model(),
                            ));
                            assert(message_parts(
                                detail@,
                                messages@,
                                enums@,
                                extensions@,
                                oneofs@,
                                fields@,
                            ) =~= MessageView { messages: acc.messages.push(x.model()), ..acc });
                        },
                        path::Message::Enum => {
                            let res = Enum::new(next, locations);
                            proof {
                                lemma_suffix_trans(locations@, tail, start);
                            }
                            let x = match res {
                                Ok(x) => x,
                                Err(e) => return Err(e),
                            };
                            enums.push(x);
                            assert(message_parts(
                                detail@,
                                messages@,
                                enums@,
                                extensions@,
                                oneofs@,
                                fields@,
                            ) =~= MessageView { enums: acc.enums.push(x.model()), ..acc });
                        },
                        path::Message::Extension => {
                            let res = ExtensionDecl::new(next, locations);
                            proof {
                                lemma_suffix_trans(locations@, tail, start);
                            }
                            let x = match res {
                                Ok(x) => x,
                                Err(e) => return Err(e),
                            };
                            extensions.push(x);
                            assert(message_parts(
                                detail@,
                                messages@,
                                enums@,
                                extensions@,
                                oneofs@,
                                fields@,
                            ) =~= MessageView { extensions: acc.extensions.push(x.model()), ..acc });
                        },
                        path::Message::Oneof => {
                            let res = Oneof::new(next, locations);
                            proof {
                                lemma_suffix_trans(locations@, tail, start);
                            }
                            let x = match res {
                                Ok(x) => x,
                                Err(e) => return Err(e),
                            };
                            oneofs.push(x);
                            assert(message_parts(
                                detail@,
                                messages@,
                                enums@,
                                extensions@,
                                oneofs@,
                                fields@,
                            ) =~= MessageView { oneofs: acc.oneofs.push(x.detail@), ..acc });
                        },
                        path::Message::Unknown(_) => {},
                    }
                },
            }
        }
        let m = Message { detail, messages, enums, extensions, oneofs, fields };
        assert(m.model().messages =~= messages_model(m.messages@));
        Ok(m)
    }
}

} // verus!

verus! {

/// The locations of a file, arranged by the nodes they belong to.
#[derive(Debug)]
pub struct File {
    pub syntax: Option<Detail>,
    pub package: Option<Detail>,
    pub dependencies: Vec<Detail>,
    pub messages: Vec<Message>,
    pub enums: Vec<Enum>,
    pub services: Vec<Service>,
    pub extensions: Vec<ExtensionDecl>,
}

/// The mathematical value of a [`File`].
#[verifier::ext_equal]
pub struct FileView {
    pub syntax: Option<DetailView>,
    pub package: Option<DetailView>,
    pub dependencies: Seq<DetailView>,
    pub messages: Seq<MessageView>,
    pub enums: Seq<EnumView>,
    pub services: Seq<ServiceView>,
    pub extensions: Seq<ExtensionDeclView>,
}

pub open spec fn opt_detail(d: Option<Detail>) -> Option<DetailView> {
    match d {
        Some(d) => Some(d@),
        None => None,
    }
}

impl File {
    pub open spec fn model(self) -> FileView {
        FileView {
            syntax: opt_detail(self.syntax),
            package: opt_detail(self.package),
            dependencies: self.dependencies@.map_values(|d: Detail| d@),
            messages: messages_model(self.messages@),
            enums: enums_model(self.enums@),
            services: services_model(self.services@),
            extensions: decls_model(self.extensions@),
        }
    }
}

/// A file with no node found yet.
pub open spec fn empty_file() -> FileView {
    FileView {
        syntax: None,
        package: None,
        dependencies: Seq::empty(),
        messages: Seq::empty(),
        enums: Seq::empty(),
        services: Seq::empty(),
        extensions: Seq::empty(),
    }
}

/// The nodes of a file that the locations `rest` describe, added to those
/// in `acc`. The first element of each path tells the kind of node; the
/// syntax, package and dependency statements take one location each,
/// messages, enums, services and extension blocks take theirs with the
/// locations below them; locations of other kinds are passed over.
pub open spec fn file_items(rest: Seq<Location>, acc: FileView) -> Result<FileView, ErrorView>
    decreases rest.len(),
{
    if rest.len() == 0 {
        Ok(acc)
    } else {
        let loc = rest[0];
        let tail = rest.drop_first();
        let kind = loc.path@[0];
        if kind == path::File::SYNTAX {
            match spec_detail(loc) {
                Err(e) => Err(e),
                Ok(d) => file_items(tail, FileView { syntax: Some(d), ..acc }),
            }
        } else if kind == path::File::DEPENDENCY {
            match spec_detail(loc) {
                Err(e) => Err(e),
                Ok(d) => file_items(tail, FileView { dependencies: acc.dependencies.push(d), ..acc }),
            }
        } else if kind == path::File::PACKAGE {
            match spec_detail(loc) {
                Err(e) => Err(e),
                Ok(d) => file_items(tail, FileView { package: Some(d), ..acc }),
            }
        } else if kind == path::File::MESSAGE {
            match spec_message(loc, tail) {
                Err(e) => Err(e),
                Ok((x, r2)) => if r2.len() < rest.len() {
                    file_items(r2, FileView { messages: acc.messages.push(x), ..acc })
                } else {
                    Ok(acc)
                },
            }
        } else if kind == path::File::ENUM_TYPE {
            match spec_enum(loc, tail) {
                Err(e) => Err(e),
                Ok((x, r2)) => if r2.len() < rest.len() {
                    file_items(r2, FileView { enums: acc.enums.push(x), ..acc })
                } else {
                    Ok(acc)
                },
            }
        } else if kind == path::File::SERVICE {
            match spec_service(loc, tail) {
                Err(e) => Err(e),
                Ok((x, r2)) => if r2.len() < rest.len() {
                    file_items(r2, FileView { services: acc.services.push(x), ..acc })
                } else {
                    Ok(acc)
                },
            }
        } else if kind == path::File::EXTENSION {
            match spec_extension_decl(loc, tail) {
                Err(e) => Err(e),
                Ok((x, r2)) => if r2.len() < rest.len() {
                    file_items(r2, FileView { extensions: acc.extensions.push(x), ..acc })
                } else {
                    Ok(acc)
                },
            }
        } else {
            file_items(tail, acc)
        }
    }
}

/// The file that the source code info `info` describes: its first location
/// is the file's own, whose span must be valid; the others make up the
/// nodes (see [`file_items`]).
pub open spec fn spec_file(info: Seq<Location>) -> Result<FileView, ErrorView> {
    match spec_detail(info[0]) {
        Err(e) => Err(e),
        Ok(_) => file_items(info.drop_first(), empty_file()),
    }
}

/// Every location but the first has a non-empty path: the domain on which
/// the nodes of a file can be told apart.
pub open spec fn source_info_ok(info: Seq<Location>) -> bool {
    &&& info.len() >= 1
    &&& forall|i: int| 1 <= i < info.len() ==> #[trigger] info[i].path@.len() > 0
}

proof fn lemma_suffix_paths(s: Seq<Location>, whole: Seq<Location>)
    requires
        is_suffix(s, whole),
        forall|i: int| 0 <= i < whole.len() ==> #[trigger] whole[i].path@.len() > 0,
    ensures
        forall|i: int| 0 <= i < s.len() ==> #[trigger] s[i].path@.len() > 0,
{
    assert forall|i: int| 0 <= i < s.len() implies #[trigger] s[i].path@.len() > 0 by {
        assert(s[i] == whole[whole.len() - s.len() + i]);
    }
}

impl File {
    /// Arranges the source code info of a file by node.
    pub fn new(info: Vec<Location>) -> (r: Result<Self, Error>)
        requires
            source_info_ok(info@),
        ensures
            match spec_file(info@) {
                Ok(f) => r matches Ok(x) && x.model() == f,
                Err(e) => r matches Err(x) && x@ == e,
            },
    {
        let ghost whole = info@;
        let mut pending = info;
        let mut locations: VecDeque<Location> = VecDeque::new();
        while pending.len() > 0
            invariant
                pending@ + locations@ == whole,
            decreases pending@.len(),
        {
            let ghost prev = pending@;
            let loc = pending.pop().unwrap();
            locations.push_front(loc);
            assert(pending@ + locations@ =~= prev + locations@.drop_first());
        }
        assert(locations@ =~= whole);
        let first = locations.pop_front().unwrap();
        let ghost tail0 = locations@;
        assert(tail0 =~= whole.drop_first());
        let ghost first0 = first;
        let _file_detail = Detail::new(first)?;
        let mut syntax: Option<Detail> = None;
        let mut package: Option<Detail> = None;
        let mut dependencies: Vec<Detail> = Vec::new();
        let mut messages: Vec<Message> = Vec::new();
        let mut enums: Vec<Enum> = Vec::new();
        let mut services: Vec<Service> = Vec::new();
        let mut extensions: Vec<ExtensionDecl> = Vec::new();
        proof {
            lemma_suffix_refl(tail0);
            assert forall|i: int| 0 <= i < tail0.len() implies #[trigger] tail0[i].path@.len()
                > 0 by {
                assert(tail0[i] == whole[i + 1]);
            }
        }
        assert(file_parts(syntax, package, dependencies@, messages@, enums@, services@, extensions@)
            =~= empty_file());
        loop
            invariant
                is_suffix(locations@, tail0),
                forall|i: int| 0 <= i < tail0.len() ==> #[trigger] tail0[i].path@.len() > 0,
                tail0 == whole.drop_first(),
                first0 == whole[0],
                whole == info@,
                spec_detail(first0) is Ok,
                file_items(
                    locations@,
                    file_parts(
                        syntax,
                        package,
                        dependencies@,
                        messages@,
                        enums@,
                        services@,
                        extensions@,
                    ),
                ) == file_items(tail0, empty_file()),
            ensures
                file_items(tail0, empty_file()) == Ok::<FileView, ErrorView>(
                    file_parts(
                        syntax,
                        package,
                        dependencies@,
                        messages@,
                        enums@,
                        services@,
                        extensions@,
                    ),
                ),
            decreases locations@.len(),
        {
            let ghost before = locations@;
            let ghost acc = file_parts(
                syntax,
                package,
                dependencies@,
                messages@,
                enums@,
                services@,
                extensions@,
            );
            proof {
                lemma_suffix_paths(before, tail0);
            }
            let loc = match locations.pop_front() {
                Some(l) => l,
                None => break,
            };
            proof {
                lemma_suffix_drop_first(before);
                lemma_suffix_trans(locations@, before, tail0);
                assert(loc == before[0]);
            }
            let ghost tail = locations@;
            let kind = loc.path[0];
            match path::File::from_i32(kind) {
                path::File::Syntax => {
                    let d = Detail::new(loc)?;
                    syntax = Some(d);
                    assert(file_parts(
                        syntax,
                        package,
                        dependencies@,
                        messages@,
                        enums@,
                        services@,
                        extensions@,
                    ) =~= FileView { syntax: Some(d@), ..acc });
                },
                path::File::Dependency => {
                    let d = Detail::new(loc)?;
                    dependencies.push(d);
                    assert(file_parts(
                        syntax,
                        package,
                        dependencies@,
                        messages@,
                        enums@,
                        services@,
                        extensions@,
                    ) =~= FileView { dependencies: acc.dependencies.push(d@), ..acc });
                },
                path::File::Package => {
                    let d = Detail::new(loc)?;
                    package = Some(d);
                    assert(file_parts(
                        syntax,
                        package,
                        dependencies@,
                        messages@,
                        enums@,
                        services@,
                        extensions@,
                    ) =~= FileView { package: Some(d@), ..acc });
                },
                path::File::Message => {
                    let res = Message::new(loc, &mut locations);
                    proof {
                        lemma_suffix_trans(locations@, tail, tail0);
                    }
                    let x = match res {
                        Ok(x) => x,
                        Err(e) => return Err(e),
                    };
                    let ghost old_messages = messages@;
                    messages.push(x);
                    assert(messages_model(messages@) =~= messages_model(old_messages).push(
                        x.model(),
                    ));
                    assert(file_parts(
                        syntax,
                        package,
                        dependencies@,
                        messages@,
                        enums@,
                        services@,
                        extensions@,
                    ) =~= FileView { messages: acc.messages.push(x.model()), ..acc });
                },
                path::File::Enum => {
                    let res = Enum::new(loc, &mut locations);
                    proof {
                        lemma_suffix_trans(locations@, tail, tail0);
                    }
                    let x = match res {
                        Ok(x) => x,
                        Err(e) => return Err(e),
                    };
                    enums.push(x);
                    assert(file_parts(
                        syntax,
                        package,
                        dependencies@,
                        messages@,
                        enums@,
                        services@,
                        extensions@,
                    ) =~= FileView { enums: acc.enums.push(x.model()), ..acc });
                },
                path::File::Service => {
                    let res = Service::new(loc, &mut locations);
                    proof {
                        lemma_suffix_trans(locations@, tail, tail0);
                    }
                    let x = match res {
                        Ok(x) => x,
                        Err(e) => return Err(e),
                    };
                    services.push(x);
                    assert(file_parts(
                        syntax,
                        package,
                        dependencies@,
                        messages@,
                        enums@,
                        services@,
                        extensions@,
                    ) =~= FileView { services: acc.services.push(x.model()), ..acc });
                },
                path::File::Extension => {
                    let res = ExtensionDecl::new(loc, &mut locations);
                    proof {
                        lemma_suffix_trans(locations@, tail, tail0);
                    }
                    let x = match res {
                        Ok(x) => x,
                        Err(e) => return Err(e),
                    };
                    extensions.push(x);
                    assert(file_parts(
                        syntax,
                        package,
                        dependencies@,
                        messages@,
                        enums@,
                        services@,
                        extensions@,
                    ) =~= FileView { extensions: acc.extensions.push(x.model()), ..acc });
                },
                _ => {},
            }
        }
        let f = File { syntax, package, dependencies, messages, enums, services, extensions };
        Ok(f)
    }
}

/// The file value that the parts gathered so far stand for.
pub open spec fn file_parts(
    syntax: Option<Detail>,
    package: Option<Detail>,
    dependencies: Seq<Detail>,
    messages: Seq<Message>,
    enums: Seq<Enum>,
    services: Seq<Service>,
    extensions: Seq<ExtensionDecl>,
) -> FileView {
    FileView {
        syntax: opt_detail(syntax),
        package: opt_detail(package),
        dependencies: dependencies.map_values(|d: Detail| d@),
        messages: messages_model(messages),
        enums: enums_model(enums),
        services: services_model(services),
        extensions: decls_model(extensions),
    }
}

} // verus!

verus! {

/// `p` lies directly or deeper below `prefix`, reached through the element
/// `kind`.
pub open spec fn child_of_kind(prefix: Seq<i32>, p: Seq<i32>, kind: i32) -> bool {
    is_child(prefix, p) && p[prefix.len() as int] == kind
}

/// Every detail of `items` lies below `prefix`, through `only` where it is
/// given.
pub open spec fn leaves_below(prefix: Seq<i32>, items: Seq<DetailView>, only: Option<i32>) -> bool {
    forall|i: int|
        0 <= i < items.len() ==> is_child(prefix, #[trigger] items[i].path) && (only matches Some(
            k,
        ) ==> items[i].path[prefix.len() as int] == k)
}

/// The values of an enum lie below it.
pub open spec fn enum_nested(e: EnumView) -> bool {
    leaves_below(e.detail.path, e.values, Some(path::Enum::VALUE))
}

/// The methods of a service lie below it.
pub open spec fn service_nested(s: ServiceView) -> bool {
    leaves_below(s.detail.path, s.methods, Some(path::Service::METHOD))
}

/// The extensions of a block lie below it.
pub open spec fn decl_nested(d: ExtensionDeclView) -> bool {
    leaves_below(d.detail.path, d.extensions, None)
}

/// Each node gathered in `m` lies below `prefix`, reached through the path
/// element of its kind, and the nodes within it lie below it in turn.
pub open spec fn items_nested(prefix: Seq<i32>, m: MessageView) -> bool {
    &&& leaves_below(prefix, m.fields, Some(path::Message::FIELD))
    &&& leaves_below(prefix, m.oneofs, Some(path::Message::ONEOF))
    &&& forall|i: int|
        0 <= i < m.enums.len() ==> child_of_kind(
            prefix,
            #[trigger] m.enums[i].detail.path,
            path::Message::ENUM,
        ) && enum_nested(m.enums[i])
    &&& forall|i: int|
        0 <= i < m.extensions.len() ==> child_of_kind(
            prefix,
            #[trigger] m.extensions[i].detail.path,
            path::Message::EXTENSION,
        ) && decl_nested(m.extensions[i])
    &&& forall|i: int|
        0 <= i < m.messages.len() ==> child_of_kind(
            prefix,
            #[trigger] m.messages[i].detail.path,
            path::Message::NESTED,
        ) && message_nested(m.messages[i])
}

/// Every node declared in a message lies below the message, reached through
/// the path element of its kind, and so on down.
pub open spec fn message_nested(m: MessageView) -> bool
    decreases m,
{
    let prefix = m.detail.path;
    &&& leaves_below(prefix, m.fields, Some(path::Message::FIELD))
    &&& leaves_below(prefix, m.oneofs, Some(path::Message::ONEOF))
    &&& forall|i: int|
        0 <= i < m.enums.len() ==> child_of_kind(
            prefix,
            #[trigger] m.enums[i].detail.path,
            path::Message::ENUM,
        ) && enum_nested(m.enums[i])
    &&& forall|i: int|
        0 <= i < m.extensions.len() ==> child_of_kind(
            prefix,
            #[trigger] m.extensions[i].detail.path,
            path::Message::EXTENSION,
        ) && decl_nested(m.extensions[i])
    &&& forall|i: int|
        0 <= i < m.messages.len() ==> child_of_kind(
            prefix,
            #[trigger] m.messages[i].detail.path,
            path::Message::NESTED,
        ) && message_nested(m.messages[i])
}

proof fn lemma_leaf_items_below(
    prefix: Seq<i32>,
    rest: Seq<Location>,
    acc: Seq<DetailView>,
    only: Option<i32>,
)
    requires
        leaves_below(prefix, acc, only),
    ensures
        leaf_items(prefix, rest, acc, only) matches Ok((items, _)) ==> leaves_below(
            prefix,
            items,
            only,
        ),
    decreases rest.len(),
{
    if rest.len() > 0 && is_child(prefix, rest[0].path@) {
        let next = rest[0];
        let tail = rest.drop_first();
        let kind = next.path@[prefix.len() as int];
        if only is None || only == Some(kind) {
            match spec_leaf(next, tail) {
                Err(e) => {},
                Ok((d, r2)) => {
                    assert(leaves_below(prefix, acc.push(d), only)) by {
                        assert forall|i: int| 0 <= i < acc.push(d).len() implies is_child(
                            prefix,
                            #[trigger] acc.push(d)[i].path,
                        ) && (only matches Some(k) ==> acc.push(d)[i].path[prefix.len() as int]
                            == k) by {
                            if i < acc.len() {
                                assert(acc.push(d)[i] == acc[i]);
                            }
                        }
                    }
                    if r2.len() < rest.len() {
                        lemma_leaf_items_below(prefix, r2, acc.push(d), only);
                    }
                },
            }
        } else {
            lemma_leaf_items_below(prefix, tail, acc, only);
        }
    }
}

/// The values of a parsed enum lie below it.
pub proof fn lemma_enum_nested(node: Location, rest: Seq<Location>)
    ensures
        spec_enum(node, rest) matches Ok((e, _)) ==> enum_nested(e),
{
    if let Ok(d) = spec_detail(node) {
        lemma_leaf_items_below(d.path, rest, Seq::empty(), Some(path::Enum::VALUE));
    }
}

/// The methods of a parsed service lie below it.
pub proof fn lemma_service_nested(node: Location, rest: Seq<Location>)
    ensures
        spec_service(node, rest) matches Ok((s, _)) ==> service_nested(s),
{
    if let Ok(d) = spec_detail(node) {
        lemma_leaf_items_below(d.path, rest, Seq::empty(), Some(path::Service::METHOD));
    }
}

/// The extensions of a parsed block lie below it.
pub proof fn lemma_decl_nested(node: Location, rest: Seq<Location>)
    ensures
        spec_extension_decl(node, rest) matches Ok((d, _)) ==> decl_nested(d),
{
    if let Ok(d) = spec_detail(node) {
        lemma_leaf_items_below(d.path, rest, Seq::empty(), None);
    }
}

/// Every node that a parsed message holds lies below the message, reached
/// through the path element of its kind, and so on down; the message keeps
/// the path of the location that starts it.
pub proof fn lemma_message_nested(node: Location, rest: Seq<Location>)
    ensures
        spec_message(node, rest) matches Ok((m, _)) ==> message_nested(m) && m.detail.path
            == node.path@,
    decreases rest.len(), 1int,
{
    if let Ok(d) = spec_detail(node) {
        lemma_message_items_nested(d.path, rest, empty_message(d));
    }
}

proof fn lemma_message_items_nested(prefix: Seq<i32>, rest: Seq<Location>, acc: MessageView)
    requires
        items_nested(prefix, acc),
    ensures
        message_items(prefix, rest, acc) matches Ok((m, _)) ==> items_nested(prefix, m)
            && m.detail == acc.detail,
    decreases rest.len(), 0int,
{
    if rest.len() > 0 && is_child(prefix, rest[0].path@) {
        let next = rest[0];
        let tail = rest.drop_first();
        let kind = next.path@[prefix.len() as int];
        if kind == path::Message::FIELD {
            if let Ok((x, r2)) = spec_leaf(next, tail) {
                let acc2 = MessageView { fields: acc.fields.push(x), ..acc };
                assert(items_nested(prefix, acc2)) by {
                    assert forall|i: int| 0 <= i < acc2.fields.len() implies is_child(
                        prefix,
                        #[trigger] acc2.fields[i].path,
                    ) && acc2.fields[i].path[prefix.len() as int] == path::Message::FIELD by {
                        if i < acc.fields.len() {
                            assert(acc2.fields[i] == acc.fields[i]);
                        }
                    }
                }
                if r2.len() < rest.len() {
                    lemma_message_items_nested(prefix, r2, acc2);
                }
            }
        } else if kind == path::Message::NESTED {
            lemma_message_nested(next, tail);
            if let Ok((x, r2)) = spec_message(next, tail) {
                let acc2 = MessageView { messages: acc.messages.push(x), ..acc };
                assert(items_nested(prefix, acc2)) by {
                    assert forall|i: int| 0 <= i < acc2.messages.len() implies child_of_kind(
                        prefix,
                        #[trigger] acc2.messages[i].detail.path,
                        path::Message::NESTED,
                    ) && message_nested(acc2.messages[i]) by {
                        if i < acc.messages.len() {
                            assert(acc2.messages[i] == acc.messages[i]);
                        }
                    }
                }
                if r2.len() < rest.len() {
                    lemma_message_items_nested(prefix, r2, acc2);
                }
            }
        } else if kind == path::Message::ENUM {
            lemma_enum_nested(next, tail);
            if let Ok((x, r2)) = spec_enum(next, tail) {
                let acc2 = MessageView { enums: acc.enums.push(x), ..acc };
                assert(items_nested(prefix, acc2)) by {
                    assert forall|i: int| 0 <= i < acc2.enums.len() implies child_of_kind(
                        prefix,
                        #[trigger] acc2.enums[i].detail.path,
                        path::Message::ENUM,
                    ) && enum_nested(acc2.enums[i]) by {
                        if i < acc.enums.len() {
                            assert(acc2.enums[i] == acc.enums[i]);
                        }
                    }
                }
                if r2.len() < rest.len() {
                    lemma_message_items_nested(prefix, r2, acc2);
                }
            }
        } else if kind == path::Message::EXTENSION {
            lemma_decl_nested(next, tail);
            if let Ok((x, r2)) = spec_extension_decl(next, tail) {
                let acc2 = MessageView { extensions: acc.extensions.push(x), ..acc };
                assert(items_nested(prefix, acc2)) by {
                    assert forall|i: int| 0 <= i < acc2.extensions.len() implies child_of_kind(
                        prefix,
                        #[trigger] acc2.extensions[i].detail.path,
                        path::Message::EXTENSION,
                    ) && decl_nested(acc2.extensions[i]) by {
                        if i < acc.extensions.len() {
                            assert(acc2.extensions[i] == acc.extensions[i]);
                        }
                    }
                }
                if r2.len() < rest.len() {
                    lemma_message_items_nested(prefix, r2, acc2);
                }
            }
        } else if kind == path::Message::ONEOF {
            if let Ok((x, r2)) = spec_leaf(next, tail) {
                let acc2 = MessageView { oneofs: acc.oneofs.push(x), ..acc };
                assert(items_nested(prefix, acc2)) by {
                    assert forall|i: int| 0 <= i < acc2.oneofs.len() implies is_child(
                        prefix,
                        #[trigger] acc2.oneofs[i].path,
                    ) && acc2.oneofs[i].path[prefix.len() as int] == path::Message::ONEOF by {
                        if i < acc.oneofs.len() {
                            assert(acc2.oneofs[i] == acc.oneofs[i]);
                        }
                    }
                }
                if r2.len() < rest.len() {
                    lemma_message_items_nested(prefix, r2, acc2);
                }
            }
        } else {
            lemma_message_items_nested(prefix, tail, acc);
        }
    }
}

/// Every node of a file lies below the path element of its kind: messages,
/// enums, services and extension blocks with all they hold, and the syntax,
/// package and import statements.
pub open spec fn file_nested(f: FileView) -> bool {
    &&& f.syntax matches Some(d) ==> d.path[0] == path::File::SYNTAX
    &&& f.package matches Some(d) ==> d.path[0] == path::File::PACKAGE
    &&& forall|i: int|
        0 <= i < f.dependencies.len() ==> (#[trigger] f.dependencies[i]).path[0]
            == path::File::DEPENDENCY
    &&& forall|i: int|
        0 <= i < f.messages.len() ==> (#[trigger] f.messages[i]).detail.path[0]
            == path::File::MESSAGE && message_nested(f.messages[i])
    &&& forall|i: int|
        0 <= i < f.enums.len() ==> (#[trigger] f.enums[i]).detail.path[0] == path::File::ENUM_TYPE
            && enum_nested(f.enums[i])
    &&& forall|i: int|
        0 <= i < f.services.len() ==> (#[trigger] f.services[i]).detail.path[0]
            == path::File::SERVICE && service_nested(f.services[i])
    &&& forall|i: int|
        0 <= i < f.extensions.len() ==> (#[trigger] f.extensions[i]).detail.path[0]
            == path::File::EXTENSION && decl_nested(f.extensions[i])
}

proof fn lemma_file_items_nested(rest: Seq<Location>, acc: FileView)
    requires
        file_nested(acc),
    ensures
        file_items(rest, acc) matches Ok(f) ==> file_nested(f),
    decreases rest.len(),
{
    if rest.len() > 0 {
        let loc = rest[0];
        let tail = rest.drop_first();
        let kind = loc.path@[0];
        if kind == path::File::SYNTAX || kind == path::File::PACKAGE {
            if let Ok(d) = spec_detail(loc) {
                if kind == path::File::SYNTAX {
                    lemma_file_items_nested(tail, FileView { syntax: Some(d), ..acc });
                } else {
                    lemma_file_items_nested(tail, FileView { package: Some(d), ..acc });
                }
            }
        } else if kind == path::File::DEPENDENCY {
            if let Ok(d) = spec_detail(loc) {
                let acc2 = FileView { dependencies: acc.dependencies.push(d), ..acc };
                assert forall|i: int| 0 <= i < acc2.dependencies.len() implies (
                #[trigger] acc2.dependencies[i]).path[0] == path::File::DEPENDENCY by {
                    if i < acc.dependencies.len() {
                        assert(acc2.dependencies[i] == acc.dependencies[i]);
                    }
                }
                lemma_file_items_nested(tail, acc2);
            }
        } else if kind == path::File::MESSAGE {
            lemma_message_nested(loc, tail);
            if let Ok((x, r2)) = spec_message(loc, tail) {
                if r2.len() < rest.len() {
                    let acc2 = FileView { messages: acc.messages.push(x), ..acc };
                    assert forall|i: int| 0 <= i < acc2.messages.len() implies (
                    #[trigger] acc2.messages[i]).detail.path[0] == path::File::MESSAGE
                        && message_nested(acc2.messages[i]) by {
                        if i < acc.messages.len() {
                            assert(acc2.messages[i] == acc.messages[i]);
                        }
                    }
                    lemma_file_items_nested(r2, acc2);
                }
            }
        } else if kind == path::File::ENUM_TYPE {
            lemma_enum_nested(loc, tail);
            if let Ok((x, r2)) = spec_enum(loc, tail) {
                if r2.len() < rest.len() {
                    let acc2 = FileView { enums: acc.enums.push(x), ..acc };
                    assert forall|i: int| 0 <= i < acc2.enums.len() implies (
                    #[trigger] acc2.enums[i]).detail.path[0] == path::File::ENUM_TYPE
                        && enum_nested(acc2.enums[i]) by {
                        if i < acc.enums.len() {
                            assert(acc2.enums[i] == acc.enums[i]);
                        }
                    }
                    lemma_file_items_nested(r2, acc2);
                }
            }
        } else if kind == path::File::SERVICE {
            lemma_service_nested(loc, tail);
            if let Ok((x, r2)) = spec_service(loc, tail) {
                if r2.len() < rest.len() {
                    let acc2 = FileView { services: acc.services.push(x), ..acc };
                    assert forall|i: int| 0 <= i < acc2.services.len() implies (
                    #[trigger] acc2.services[i]).detail.path[0] == path::File::SERVICE
                        && service_nested(acc2.services[i]) by {
                        if i < acc.services.len() {
                            assert(acc2.services[i] == acc.services[i]);
                        }
                    }
                    lemma_file_items_nested(r2, acc2);
                }
            }
        } else if kind == path::File::EXTENSION {
            lemma_decl_nested(loc, tail);
            if let Ok((x, r2)) = spec_extension_decl(loc, tail) {
                if r2.len() < rest.len() {
                    let acc2 = FileView { extensions: acc.extensions.push(x), ..acc };
                    assert forall|i: int| 0 <= i < acc2.extensions.len() implies (
                    #[trigger] acc2.extensions[i]).detail.path[0] == path::File::EXTENSION
                        && decl_nested(acc2.extensions[i]) by {
                        if i < acc.extensions.len() {
                            assert(acc2.extensions[i] == acc.extensions[i]);
                        }
                    }
                    lemma_file_items_nested(r2, acc2);
                }
            }
        } else {
            lemma_file_items_nested(tail, acc);
        }
    }
}

/// The file that source code info describes holds each node under the path
/// element of its kind, and every node within a node lies below it.
pub proof fn lemma_file_nested(info: Seq<Location>)
    ensures
        spec_file(info) matches Ok(f) ==> file_nested(f),
{
    lemma_file_items_nested(info.drop_first(), empty_file());
}


/// Lying below is transitive.
proof fn lemma_child_trans(prefix: Seq<i32>, q: Seq<i32>, p: Seq<i32>)
    requires
        is_child(prefix, q),
        is_child(q, p),
    ensures
        is_child(prefix, p),
{
    assert(p.subrange(0, prefix.len() as int) =~= p.subrange(0, q.len() as int).subrange(
        0,
        prefix.len() as int,
    ));
    assert(q.subrange(0, prefix.len() as int) == prefix);
}

/// Skipping what lies below a node that lies below `prefix`, then what lies
/// below `prefix`, skips what lies below `prefix`.
proof fn lemma_skip_skip(prefix: Seq<i32>, q: Seq<i32>, s: Seq<Location>)
    requires
        is_child(prefix, q),
    ensures
        skip_descendants(prefix, skip_descendants(q, s)) == skip_descendants(prefix, s),
    decreases s.len(),
{
    if s.len() > 0 && is_child(q, s[0].path@) {
        lemma_child_trans(prefix, q, s[0].path@);
        lemma_skip_skip(prefix, q, s.drop_first());
    }
}

/// The heads of the run of locations below `prefix` at the front of `rest`:
/// the first location of the run, then, after the locations that lie below
/// it, the heads of what is left of the run.
pub open spec fn heads(prefix: Seq<i32>, rest: Seq<Location>) -> Seq<Location>
    decreases rest.len(),
{
    if rest.len() > 0 && is_child(prefix, rest[0].path@) {
        proof {
            lemma_skip_suffix(rest[0].path@, rest.drop_first());
        }
        seq![rest[0]] + heads(prefix, skip_descendants(rest[0].path@, rest.drop_first()))
    } else {
        Seq::empty()
    }
}

proof fn lemma_leaf_items_heads(prefix: Seq<i32>, rest: Seq<Location>, acc: Seq<DetailView>)
    ensures
        leaf_items(prefix, rest, acc, None) matches Ok((e, r)) ==> {
            &&& r == skip_descendants(prefix, rest)
            &&& e.len() == acc.len() + heads(prefix, rest).len()
            &&& e.subrange(0, acc.len() as int) == acc
            &&& forall|i: int|
                0 <= i < heads(prefix, rest).len() ==> spec_detail(
                    #[trigger] heads(prefix, rest)[i],
                ) == Ok::<DetailView, ErrorView>(e[acc.len() + i])
        },
    decreases rest.len(),
{
    if rest.len() > 0 && is_child(prefix, rest[0].path@) {
        let next = rest[0];
        let tail = rest.drop_first();
        lemma_skip_suffix(next.path@, tail);
        if let Ok(d) = spec_detail(next) {
            let r2 = skip_descendants(next.path@, tail);
            lemma_leaf_items_heads(prefix, r2, acc.push(d));
            lemma_skip_skip(prefix, next.path@, tail);
            if let Ok((e, r)) = leaf_items(prefix, rest, acc, None) {
                let h = heads(prefix, rest);
                let h2 = heads(prefix, r2);
                assert(h == seq![next] + h2);
                assert(e.subrange(0, acc.len() + 1int) == acc.push(d));
                assert(e.subrange(0, acc.len() as int) =~= e.subrange(0, acc.len() + 1int).subrange(
                    0,
                    acc.len() as int,
                ));
                assert forall|i: int| 0 <= i < h.len() implies spec_detail(#[trigger] h[i])
                    == Ok::<DetailView, ErrorView>(e[acc.len() + i]) by {
                    if i == 0 {
                        assert(e[acc.len() as int] == e.subrange(0, acc.len() + 1int)[acc.len() as int]);
                    } else {
                        assert(h[i] == h2[i - 1]);
                        assert(spec_detail(h2[i - 1]) == Ok::<DetailView, ErrorView>(
                            e[acc.len() + 1 + (i - 1)],
                        ));
                    }
                }
            }
        }
    }
}

/// An extension block takes in every location below it: each head of that
/// run (a location not below the one before it in the block) becomes one
/// of its extensions, in order, read by its own detail, and the locations
/// left are those after the run.
pub proof fn lemma_extension_decl_complete(node: Location, rest: Seq<Location>)
    ensures
        spec_extension_decl(node, rest) matches Ok((x, r)) ==> {
            &&& x.detail.path == node.path@
            &&& r == skip_descendants(node.path@, rest)
            &&& x.extensions.len() == heads(node.path@, rest).len()
            &&& forall|i: int|
                0 <= i < x.extensions.len() ==> spec_detail(#[trigger] heads(node.path@, rest)[i])
                    == Ok::<DetailView, ErrorView>(x.extensions[i])
        },
{
    if let Ok(d) = spec_detail(node) {
        lemma_leaf_items_heads(d.path, rest, Seq::empty());
    }
}

/// Comments keep each part where it was given: there are comments exactly
/// where some part is given, and then the leading, trailing and detached
/// comments are the given ones.
pub proof fn lemma_comments_keep_parts(
    leading: Option<Seq<char>>,
    trailing: Option<Seq<char>>,
    leading_detached: Seq<Seq<char>>,
)
    ensures
        spec_comments(leading, trailing, leading_detached) is None <==> (leading is None
            && trailing is None && leading_detached.len() == 0),
        spec_comments(leading, trailing, leading_detached) matches Some(c) ==> c.leading
            == leading && c.trailing == trailing && c.leading_detached == leading_detached,
{
}

/// Reading a location keeps its path, and its comments each where the
/// location gives them.
pub proof fn lemma_detail_keeps_location(l: Location)
    ensures
        spec_detail(l) matches Ok(d) ==> {
            &&& d.path == l.path@
            &&& d.comments is None <==> (l.leading_comments is None && l.trailing_comments is None
                && l.leading_detached_comments@.len() == 0)
            &&& d.comments matches Some(c) ==> {
                &&& c.leading == opt_chars(l.leading_comments)
                &&& c.trailing == opt_chars(l.trailing_comments)
                &&& c.leading_detached == seq_chars(l.leading_detached_comments@)
            }
        },
{
    lemma_comments_keep_parts(
        opt_chars(l.leading_comments),
        opt_chars(l.trailing_comments),
        seq_chars(l.leading_detached_comments@),
    );
}

/// `r` is what is left of `rest` once a run of locations at its front, each
/// below `prefix`, is taken.
pub open spec fn consumed_below(prefix: Seq<i32>, rest: Seq<Location>, r: Seq<Location>) -> bool {
    &&& is_suffix(r, rest)
    &&& forall|i: int| 0 <= i < rest.len() - r.len() ==> is_child(prefix, #[trigger] rest[i].path@)
}

proof fn lemma_consumed_refl(prefix: Seq<i32>, rest: Seq<Location>)
    ensures
        consumed_below(prefix, rest, rest),
{
    lemma_suffix_refl(rest);
}

proof fn lemma_consumed_cons(prefix: Seq<i32>, rest: Seq<Location>, r: Seq<Location>)
    requires
        rest.len() > 0,
        is_child(prefix, rest[0].path@),
        consumed_below(prefix, rest.drop_first(), r),
    ensures
        consumed_below(prefix, rest, r),
{
    lemma_suffix_drop_first(rest);
    lemma_suffix_trans(r, rest.drop_first(), rest);
    assert forall|i: int| 0 <= i < rest.len() - r.len() implies is_child(
        prefix,
        #[trigger] rest[i].path@,
    ) by {
        if i > 0 {
            assert(rest[i] == rest.drop_first()[i - 1]);
        }
    }
}

proof fn lemma_consumed_trans(prefix: Seq<i32>, a: Seq<Location>, b: Seq<Location>, c: Seq<Location>)
    requires
        consumed_below(prefix, a, b),
        consumed_below(prefix, b, c),
    ensures
        consumed_below(prefix, a, c),
{
    lemma_suffix_trans(c, b, a);
    assert forall|i: int| 0 <= i < a.len() - c.len() implies is_child(prefix, #[trigger] a[i].path@) by {
        if i >= a.len() - b.len() {
            assert(a[i] == b[i - (a.len() - b.len())]);
        }
    }
}

proof fn lemma_consumed_widen(prefix: Seq<i32>, q: Seq<i32>, a: Seq<Location>, b: Seq<Location>)
    requires
        is_child(prefix, q),
        consumed_below(q, a, b),
    ensures
        consumed_below(prefix, a, b),
{
    assert forall|i: int| 0 <= i < a.len() - b.len() implies is_child(prefix, #[trigger] a[i].path@) by {
        lemma_child_trans(prefix, q, a[i].path@);
    }
}

proof fn lemma_skip_consumed(prefix: Seq<i32>, rest: Seq<Location>)
    ensures
        consumed_below(prefix, rest, skip_descendants(prefix, rest)),
    decreases rest.len(),
{
    if rest.len() > 0 && is_child(prefix, rest[0].path@) {
        lemma_skip_consumed(prefix, rest.drop_first());
        lemma_consumed_cons(prefix, rest, skip_descendants(prefix, rest));
    } else {
        lemma_consumed_refl(prefix, rest);
    }
}

proof fn lemma_leaf_items_consumed(
    prefix: Seq<i32>,
    rest: Seq<Location>,
    acc: Seq<DetailView>,
    only: Option<i32>,
)
    ensures
        leaf_items(prefix, rest, acc, only) matches Ok((_, r)) ==> consumed_below(prefix, rest, r),
    decreases rest.len(),
{
    if rest.len() > 0 && is_child(prefix, rest[0].path@) {
        let next = rest[0];
        let tail = rest.drop_first();
        let kind = next.path@[prefix.len() as int];
        if only is None || only == Some(kind) {
            if let Ok((d, r2)) = spec_leaf(next, tail) {
                lemma_skip_consumed(next.path@, tail);
                lemma_consumed_widen(prefix, next.path@, tail, r2);
                lemma_consumed_cons(prefix, rest, r2);
                if r2.len() < rest.len() {
                    lemma_leaf_items_consumed(prefix, r2, acc.push(d), only);
                    if let Ok((_, r)) = leaf_items(prefix, r2, acc.push(d), only) {
                        lemma_consumed_trans(prefix, rest, r2, r);
                    }
                }
            }
        } else {
            lemma_leaf_items_consumed(prefix, tail, acc, only);
            if let Ok((_, r)) = leaf_items(prefix, tail, acc, only) {
                lemma_consumed_cons(prefix, rest, r);
            }
        }
    } else {
        lemma_consumed_refl(prefix, rest);
    }
}

proof fn lemma_node_consumed(node: Location, rest: Seq<Location>)
    ensures
        spec_enum(node, rest) matches Ok((_, r)) ==> consumed_below(node.path@, rest, r),
        spec_service(node, rest) matches Ok((_, r)) ==> consumed_below(node.path@, rest, r),
        spec_extension_decl(node, rest) matches Ok((_, r)) ==> consumed_below(node.path@, rest, r),
        spec_leaf(node, rest) matches Ok((_, r)) ==> consumed_below(node.path@, rest, r),
{
    if let Ok(d) = spec_detail(node) {
        lemma_leaf_items_consumed(d.path, rest, Seq::empty(), Some(path::Enum::VALUE));
        lemma_leaf_items_consumed(d.path, rest, Seq::empty(), Some(path::Service::METHOD));
        lemma_leaf_items_consumed(d.path, rest, Seq::empty(), None);
        lemma_skip_consumed(d.path, rest);
    }
}

proof fn lemma_message_consumed(node: Location, rest: Seq<Location>)
    ensures
        spec_message(node, rest) matches Ok((_, r)) ==> consumed_below(node.path@, rest, r),
    decreases rest.len(), 1int,
{
    if let Ok(d) = spec_detail(node) {
        lemma_message_items_consumed(d.path, rest, empty_message(d));
    }
}

proof fn lemma_message_items_consumed(prefix: Seq<i32>, rest: Seq<Location>, acc: MessageView)
    ensures
        message_items(prefix, rest, acc) matches Ok((_, r)) ==> consumed_below(prefix, rest, r),
    decreases rest.len(), 0int,
{
    if rest.len() > 0 && is_child(prefix, rest[0].path@) {
        let next = rest[0];
        let tail = rest.drop_first();
        let kind = next.path@[prefix.len() as int];
        lemma_node_consumed(next, tail);
        lemma_message_consumed(next, tail);
        let step: Option<(MessageView, Seq<Location>)> = if kind == path::Message::FIELD {
            match spec_leaf(next, tail) {
                Ok((x, r2)) => Some((MessageView { fields: acc.fields.push(x), ..acc }, r2)),
                Err(_) => None,
            }
        } else if kind == path::Message::NESTED {
            match spec_message(next, tail) {
                Ok((x, r2)) => Some((MessageView { messages: acc.messages.push(x), ..acc }, r2)),
                Err(_) => None,
            }
        } else if kind == path::Message::ENUM {
            match spec_enum(next, tail) {
                Ok((x, r2)) => Some((MessageView { enums: acc.enums.push(x), ..acc }, r2)),
                Err(_) => None,
            }
        } else if kind == path::Message::EXTENSION {
            match spec_extension_decl(next, tail) {
                Ok((x, r2)) => Some((MessageView { extensions: acc.extensions.push(x), ..acc }, r2)),
                Err(_) => None,
            }
        } else if kind == path::Message::ONEOF {
            match spec_leaf(next, tail) {
                Ok((x, r2)) => Some((MessageView { oneofs: acc.oneofs.push(x), ..acc }, r2)),
                Err(_) => None,
            }
        } else {
            None
        };
        if kind == path::Message::FIELD || kind == path::Message::NESTED || kind
            == path::Message::ENUM || kind == path::Message::EXTENSION || kind
            == path::Message::ONEOF {
            if let Some((acc2, r2)) = step {
                lemma_consumed_widen(prefix, next.path@, tail, r2);
                lemma_consumed_cons(prefix, rest, r2);
                if r2.len() < rest.len() {
                    lemma_message_items_consumed(prefix, r2, acc2);
                    if let Ok((_, r)) = message_items(prefix, r2, acc2) {
                        lemma_consumed_trans(prefix, rest, r2, r);
                    }
                }
            }
        } else {
            lemma_message_items_consumed(prefix, tail, acc);
            if let Ok((_, r)) = message_items(prefix, tail, acc) {
                lemma_consumed_cons(prefix, rest, r);
            }
        }
    } else {
        lemma_consumed_refl(prefix, rest);
    }
}

/// The locations of `s` whose path starts with the element of imports, in
/// order.
pub open spec fn import_locations(s: Seq<Location>) -> Seq<Location>
    decreases s.len(),
{
    if s.len() == 0 {
        Seq::empty()
    } else if s[0].path@[0] == path::File::DEPENDENCY {
        seq![s[0]] + import_locations(s.drop_first())
    } else {
        import_locations(s.drop_first())
    }
}

/// What a node below a path that does not start with the element of imports
/// takes in holds no import.
proof fn lemma_imports_consumed(q: Seq<i32>, a: Seq<Location>, b: Seq<Location>)
    requires
        q.len() > 0,
        q[0] != path::File::DEPENDENCY,
        consumed_below(q, a, b),
    ensures
        import_locations(a) == import_locations(b),
    decreases a.len(),
{
    if a.len() > b.len() {
        assert(is_child(q, a[0].path@));
        assert(a[0].path@[0] == a[0].path@.subrange(0, q.len() as int)[0]);
        assert(consumed_below(q, a.drop_first(), b)) by {
            assert(b =~= a.drop_first().subrange(
                a.drop_first().len() - b.len(),
                a.drop_first().len() as int,
            ));
            assert forall|i: int| 0 <= i < a.drop_first().len() - b.len() implies is_child(
                q,
                #[trigger] a.drop_first()[i].path@,
            ) by {
                assert(a.drop_first()[i] == a[i + 1]);
            }
        }
        lemma_imports_consumed(q, a.drop_first(), b);
    } else {
        assert(a =~= b);
    }
}

proof fn lemma_file_items_imports(rest: Seq<Location>, acc: FileView)
    requires
        forall|i: int| 0 <= i < rest.len() ==> #[trigger] rest[i].path@.len() > 0,
    ensures
        file_items(rest, acc) matches Ok(f) ==> {
            let imports = import_locations(rest);
            &&& f.dependencies.len() == acc.dependencies.len() + imports.len()
            &&& f.dependencies.subrange(0, acc.dependencies.len() as int) == acc.dependencies
            &&& forall|i: int|
                0 <= i < imports.len() ==> spec_detail(#[trigger] imports[i]) == Ok::<
                    DetailView,
                    ErrorView,
                >(f.dependencies[acc.dependencies.len() + i])
        },
    decreases rest.len(),
{
    if rest.len() > 0 {
        let loc = rest[0];
        let tail = rest.drop_first();
        let kind = loc.path@[0];
        assert(rest[0].path@.len() > 0);
        lemma_suffix_drop_first(rest);
        lemma_suffix_paths(tail, rest);
        lemma_node_consumed(loc, tail);
        lemma_message_consumed(loc, tail);
        if kind == path::File::SYNTAX || kind == path::File::PACKAGE {
            if let Ok(d) = spec_detail(loc) {
                let acc2 = if kind == path::File::SYNTAX {
                    FileView { syntax: Some(d), ..acc }
                } else {
                    FileView { package: Some(d), ..acc }
                };
                lemma_file_items_imports(tail, acc2);
            }
        } else if kind == path::File::DEPENDENCY {
            if let Ok(d) = spec_detail(loc) {
                let acc2 = FileView { dependencies: acc.dependencies.push(d), ..acc };
                lemma_file_items_imports(tail, acc2);
                if let Ok(f) = file_items(tail, acc2) {
                    let imports = import_locations(rest);
                    let it = import_locations(tail);
                    assert(imports == seq![loc] + it);
                    let n = acc.dependencies.len();
                    assert(f.dependencies.subrange(0, n + 1int) == acc.dependencies.push(d));
                    assert(f.dependencies.subrange(0, n as int) =~= f.dependencies.subrange(
                        0,
                        n + 1int,
                    ).subrange(0, n as int));
                    assert forall|i: int| 0 <= i < imports.len() implies spec_detail(
                        #[trigger] imports[i],
                    ) == Ok::<DetailView, ErrorView>(f.dependencies[n + i]) by {
                        if i == 0 {
                            assert(f.dependencies[n as int] == f.dependencies.subrange(
                                0,
                                n + 1int,
                            )[n as int]);
                        } else {
                            assert(imports[i] == it[i - 1]);
                            assert(spec_detail(it[i - 1]) == Ok::<DetailView, ErrorView>(
                                f.dependencies[n + 1 + (i - 1)],
                            ));
                        }
                    }
                }
            }
        } else if kind == path::File::MESSAGE || kind == path::File::ENUM_TYPE || kind
            == path::File::SERVICE || kind == path::File::EXTENSION {
            let step: Option<(FileView, Seq<Location>)> = if kind == path::File::MESSAGE {
                match spec_message(loc, tail) {
                    Ok((x, r2)) => Some((FileView { messages: acc.messages.push(x), ..acc }, r2)),
                    Err(_) => None,
                }
            } else if kind == path::File::ENUM_TYPE {
                match spec_enum(loc, tail) {
                    Ok((x, r2)) => Some((FileView { enums: acc.enums.push(x), ..acc }, r2)),
                    Err(_) => None,
                }
            } else if kind == path::File::SERVICE {
                match spec_service(loc, tail) {
                    Ok((x, r2)) => Some((FileView { services: acc.services.push(x), ..acc }, r2)),
                    Err(_) => None,
                }
            } else {
                match spec_extension_decl(loc, tail) {
                    Ok((x, r2)) => Some(
                        (FileView { extensions: acc.extensions.push(x), ..acc }, r2),
                    ),
                    Err(_) => None,
                }
            };
            if let Some((acc2, r2)) = step {
                lemma_imports_consumed(loc.path@, tail, r2);
                assert(import_locations(rest) == import_locations(tail));
                lemma_suffix_paths(r2, tail);
                lemma_file_items_imports(r2, acc2);
            }
        } else {
            lemma_file_items_imports(tail, acc);
        }
    } else {
        assert(acc.dependencies.subrange(0, acc.dependencies.len() as int) =~= acc.dependencies);
    }
}

/// A file's imports are exactly its locations of the import kind: one for
/// each, in the order the source code info gives them, each read by its own
/// detail.
pub proof fn lemma_file_imports(info: Seq<Location>)
    requires
        source_info_ok(info),
    ensures
        spec_file(info) matches Ok(f) ==> {
            let imports = import_locations(info.drop_first());
            &&& f.dependencies.len() == imports.len()
            &&& forall|i: int|
                0 <= i < imports.len() ==> spec_detail(#[trigger] imports[i]) == Ok::<
                    DetailView,
                    ErrorView,
                >(f.dependencies[i])
        },
{
    let rest = info.drop_first();
    assert forall|i: int| 0 <= i < rest.len() implies #[trigger] rest[i].path@.len() > 0 by {
        assert(rest[i] == info[i + 1]);
    }
    lemma_file_items_imports(rest, empty_file());
}

} // verus!
