//! Traits by which the nodes of the model hand out what they hold.
use crate::ast::enum_value;
use crate::ast::enums;
use crate::ast::file;
use crate::ast::fqn;
use crate::ast::location::{opt_comments, CommentsView, Detail};
use crate::ast::location;
use crate::ast::message;
use crate::ast::message::ExtensionRange;
use crate::ast::package;
use crate::ast::reference;
use crate::ast::reserved;
use crate::ast::uninterpreted::UninterpretedOption;
use vstd::prelude::*;

verus! {

/// Nodes referenced by fields, extensions or methods.
pub trait ReferencedBy {
    fn referenced_by(&self) -> reference::References;
}

/// Nodes that make references to messages or enums.
pub trait References {
    fn references(&self) -> reference::References;
}

/// Nodes with a name.
pub trait Name {
    /// The name of the node.
    spec fn name_chars(&self) -> Seq<char>;

    fn name(&self) -> (r: &str)
        ensures
            r@ == self.name_chars(),
    ;
}

/// Nodes whose uninterpreted options are kept.
pub trait UninterpretedOptions {
    /// The uninterpreted options of the node.
    spec fn options_seq(&self) -> Seq<UninterpretedOption>;

    fn uninterpreted_options(&self) -> (r: &[UninterpretedOption])
        ensures
            r@ == self.options_seq(),
    ;
}

/// Nodes with reserved names and ranges.
pub trait Reserved {
    /// The reserved names and ranges of the node.
    spec fn reserved_view(&self) -> reserved::Reserved;

    fn reserved(&self) -> (r: &reserved::Reserved)
        ensures
            *r == self.reserved_view(),
    ;

    /// The reserved names, in the order the descriptor gives them.
    fn reserved_names(&self) -> (r: &[String])
        ensures
            r@ == self.reserved_view().names@,
    {
        self.reserved().names.as_slice()
    }

    /// The reserved ranges, in the order the descriptor gives them.
    fn reserved_ranges(&self) -> (r: &[reserved::ReservedRange])
        ensures
            r@ == self.reserved_view().ranges@,
    {
        self.reserved().ranges.as_slice()
    }
}

/// Nodes with a fully qualified name.
pub trait FullyQualifiedName {
    /// The fully qualified name of the node.
    spec fn fqn_chars(&self) -> Seq<char>;

    fn fully_qualified_name(&self) -> (r: &fqn::FullyQualifiedName)
        ensures
            r@ == self.fqn_chars(),
    ;

    /// The same as [`FullyQualifiedName::fully_qualified_name`].
    fn fqn(&self) -> (r: &fqn::FullyQualifiedName)
        ensures
            r@ == self.fqn_chars(),
    {
        self.fully_qualified_name()
    }
}

/// Nodes with a path in the source code info.
pub trait NodePath {
    /// The path of the node.
    spec fn path_seq(&self) -> Seq<i32>;

    fn node_path(&self) -> (r: &[i32])
        ensures
            r@ == self.path_seq(),
    ;
}

/// Nodes with comments.
pub trait Comments {
    /// The comments of the node.
    spec fn comments_view(&self) -> Option<CommentsView>;

    fn comments(&self) -> (r: Option<&location::Comments>)
        ensures
            opt_comments(
                match r {
                    Some(c) => Some(*c),
                    None => None,
                },
            ) == self.comments_view(),
    ;
}

/// Nodes with a span in their file.
pub trait Span {
    /// The span of the node.
    spec fn span_value(&self) -> location::Span;

    fn span(&self) -> (r: location::Span)
        ensures
            r == self.span_value(),
    ;
}

impl NodePath for Detail {
    open spec fn path_seq(&self) -> Seq<i32> {
        self.path@
    }

    fn node_path(&self) -> (r: &[i32]) {
        self.path.as_slice()
    }
}

impl Span for Detail {
    open spec fn span_value(&self) -> location::Span {
        self.span
    }

    fn span(&self) -> (r: location::Span) {
        self.span
    }
}

impl Comments for Detail {
    open spec fn comments_view(&self) -> Option<CommentsView> {
        opt_comments(self.comments)
    }

    fn comments(&self) -> (r: Option<&location::Comments>) {
        match &self.comments {
            Some(c) => Some(c),
            None => None,
        }
    }
}

impl Name for file::Inner {
    open spec fn name_chars(&self) -> Seq<char> {
        self.name@
    }

    fn name(&self) -> (r: &str) {
        self.name.as_str()
    }
}

impl Name for package::Inner {
    open spec fn name_chars(&self) -> Seq<char> {
        self.name@
    }

    fn name(&self) -> (r: &str) {
        self.name.as_str()
    }
}

impl FullyQualifiedName for file::Inner {
    open spec fn fqn_chars(&self) -> Seq<char> {
        self.fqn@
    }

    fn fully_qualified_name(&self) -> (r: &fqn::FullyQualifiedName) {
        &self.fqn
    }
}

impl FullyQualifiedName for package::Inner {
    open spec fn fqn_chars(&self) -> Seq<char> {
        self.fqn@
    }

    fn fully_qualified_name(&self) -> (r: &fqn::FullyQualifiedName) {
        &self.fqn
    }
}

impl UninterpretedOptions for file::Inner {
    open spec fn options_seq(&self) -> Seq<UninterpretedOption> {
        self.uninterpreted_options@
    }

    fn uninterpreted_options(&self) -> (r: &[UninterpretedOption]) {
        self.uninterpreted_options.as_slice()
    }
}

impl UninterpretedOptions for ExtensionRange {
    open spec fn options_seq(&self) -> Seq<UninterpretedOption> {
        self.uninterpreted_options@
    }

    fn uninterpreted_options(&self) -> (r: &[UninterpretedOption]) {
        self.uninterpreted_options.as_slice()
    }
}

impl Name for enums::Inner {
    open spec fn name_chars(&self) -> Seq<char> {
        self.name@
    }

    fn name(&self) -> (r: &str) {
        self.name.as_str()
    }
}

impl FullyQualifiedName for enums::Inner {
    open spec fn fqn_chars(&self) -> Seq<char> {
        self.fqn@
    }

    fn fully_qualified_name(&self) -> (r: &fqn::FullyQualifiedName) {
        &self.fqn
    }
}

impl NodePath for enums::Inner {
    open spec fn path_seq(&self) -> Seq<i32> {
        self.node_path@
    }

    fn node_path(&self) -> (r: &[i32]) {
        self.node_path.as_slice()
    }
}

impl Span for enums::Inner {
    open spec fn span_value(&self) -> location::Span {
        self.span
    }

    fn span(&self) -> (r: location::Span) {
        self.span
    }
}

impl Comments for enums::Inner {
    open spec fn comments_view(&self) -> Option<CommentsView> {
        opt_comments(self.comments)
    }

    fn comments(&self) -> (r: Option<&location::Comments>) {
        match &self.comments {
            Some(c) => Some(c),
            None => None,
        }
    }
}

impl UninterpretedOptions for enums::Inner {
    open spec fn options_seq(&self) -> Seq<UninterpretedOption> {
        self.uninterpreted_options@
    }

    fn uninterpreted_options(&self) -> (r: &[UninterpretedOption]) {
        self.uninterpreted_options.as_slice()
    }
}

impl Name for enum_value::Inner {
    open spec fn name_chars(&self) -> Seq<char> {
        self.name@
    }

    fn name(&self) -> (r: &str) {
        self.name.as_str()
    }
}

impl FullyQualifiedName for enum_value::Inner {
    open spec fn fqn_chars(&self) -> Seq<char> {
        self.fqn@
    }

    fn fully_qualified_name(&self) -> (r: &fqn::FullyQualifiedName) {
        &self.fqn
    }
}

impl NodePath for enum_value::Inner {
    open spec fn path_seq(&self) -> Seq<i32> {
        self.node_path@
    }

    fn node_path(&self) -> (r: &[i32]) {
        self.node_path.as_slice()
    }
}

impl Span for enum_value::Inner {
    open spec fn span_value(&self) -> location::Span {
        self.span
    }

    fn span(&self) -> (r: location::Span) {
        self.span
    }
}

impl Comments for enum_value::Inner {
    open spec fn comments_view(&self) -> Option<CommentsView> {
        opt_comments(self.comments)
    }

    fn comments(&self) -> (r: Option<&location::Comments>) {
        match &self.comments {
            Some(c) => Some(c),
            None => None,
        }
    }
}

impl UninterpretedOptions for enum_value::Inner {
    open spec fn options_seq(&self) -> Seq<UninterpretedOption> {
        self.uninterpreted_options@
    }

    fn uninterpreted_options(&self) -> (r: &[UninterpretedOption]) {
        self.uninterpreted_options.as_slice()
    }
}

impl Name for message::Inner {
    open spec fn name_chars(&self) -> Seq<char> {
        self.name@
    }

    fn name(&self) -> (r: &str) {
        self.name.as_str()
    }
}

impl FullyQualifiedName for message::Inner {
    open spec fn fqn_chars(&self) -> Seq<char> {
        self.fqn@
    }

    fn fully_qualified_name(&self) -> (r: &fqn::FullyQualifiedName) {
        &self.fqn
    }
}

impl NodePath for message::Inner {
    open spec fn path_seq(&self) -> Seq<i32> {
        self.node_path@
    }

    fn node_path(&self) -> (r: &[i32]) {
        self.node_path.as_slice()
    }
}

impl Span for message::Inner {
    open spec fn span_value(&self) -> location::Span {
        self.span
    }

    fn span(&self) -> (r: location::Span) {
        self.span
    }
}

impl Comments for message::Inner {
    open spec fn comments_view(&self) -> Option<CommentsView> {
        opt_comments(self.comments)
    }

    fn comments(&self) -> (r: Option<&location::Comments>) {
        match &self.comments {
            Some(c) => Some(c),
            None => None,
        }
    }
}

impl UninterpretedOptions for message::Inner {
    open spec fn options_seq(&self) -> Seq<UninterpretedOption> {
        self.uninterpreted_options@
    }

    fn uninterpreted_options(&self) -> (r: &[UninterpretedOption]) {
        self.uninterpreted_options.as_slice()
    }
}

impl Reserved for enums::Inner {
    open spec fn reserved_view(&self) -> reserved::Reserved {
        self.reserved
    }

    fn reserved(&self) -> (r: &reserved::Reserved) {
        &self.reserved
    }
}

impl Reserved for message::Inner {
    open spec fn reserved_view(&self) -> reserved::Reserved {
        self.reserved
    }

    fn reserved(&self) -> (r: &reserved::Reserved) {
        &self.reserved
    }
}

} // verus!
