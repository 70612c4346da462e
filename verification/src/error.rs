use vstd::prelude::*;

verus! {

/// The errors that reading descriptors can give.
#[allow(inconsistent_fields)]
#[derive(Clone, Debug, PartialEq, Eq, Hash)]
pub enum Error {
    /// The `syntax` of a file is neither `proto2` nor `proto3`.
    UnsupportedSyntax { value: String },
    /// A field is of the deprecated group kind.
    GroupNotSupported,
    /// A source location whose span has neither 3 nor 4 elements.
    InvalidSpan { span: Vec<i32>, path: Vec<i32> },
    /// A file descriptor without source code info.
    MissingSourceCodeInfo { path: String },
}

/// The mathematical value of an [`Error`].
#[allow(inconsistent_fields)]
pub enum ErrorView {
    UnsupportedSyntax { value: Seq<char> },
    GroupNotSupported,
    InvalidSpan { span: Seq<i32>, path: Seq<i32> },
    MissingSourceCodeInfo { path: Seq<char> },
}

impl View for Error {
    type V = ErrorView;

    open spec fn view(&self) -> ErrorView {
        match self {
            Error::UnsupportedSyntax { value } => ErrorView::UnsupportedSyntax { value: value@ },
            Error::GroupNotSupported => ErrorView::GroupNotSupported,
            Error::InvalidSpan { span, path } => ErrorView::InvalidSpan { span: span@, path: path@ },
            Error::MissingSourceCodeInfo { path } => ErrorView::MissingSourceCodeInfo {
                path: path@,
            },
        }
    }
}

impl Error {
    /// The error for the unsupported syntax `v`.
    pub fn unsupported_syntax(v: &str) -> (r: Error)
        ensures
            r@ == (ErrorView::UnsupportedSyntax { value: v@ }),
    {
        Error::UnsupportedSyntax { value: String::from_str(v) }
    }

    /// The error for a source location with the span `span` at `path`.
    pub fn invalid_span(span: &Vec<i32>, path: &Vec<i32>) -> (r: Error)
        ensures
            r@ == (ErrorView::InvalidSpan { span: span@, path: path@ }),
    {
        let s = span.clone();
        let p = path.clone();
        assert(s@ =~= span@);
        assert(p@ =~= path@);
        Error::InvalidSpan { span: s, path: p }
    }
}

} // verus!
