use catalyze::ast::location::{iterate_next, Comments, Detail, File, Location, Message, Span};
use catalyze::ast::path;
use catalyze::error::Error;
use std::collections::VecDeque;

fn loc(path: &[i32], span: &[i32]) -> Location {
    Location {
        path: path.to_vec(),
        span: span.to_vec(),
        leading_comments: None,
        trailing_comments: None,
        leading_detached_comments: Vec::new(),
    }
}

#[test]
fn span_of_three_elements_is_one_line() {
    let s = Span::new(&[4, 2, 9]).unwrap();
    assert_eq!((s.start_line(), s.start_column(), s.end_line(), s.end_column()), (4, 2, 4, 9));
}

#[test]
fn span_of_four_elements() {
    let s = Span::new(&[1, 2, 3, 4]).unwrap();
    assert_eq!((s.start_line(), s.start_column(), s.end_line(), s.end_column()), (1, 2, 3, 4));
}

#[test]
fn span_of_other_lengths_is_refused() {
    assert_eq!(Span::new(&[]), Err(()));
    assert_eq!(Span::new(&[1, 2]), Err(()));
    assert_eq!(Span::new(&[1, 2, 3, 4, 5]), Err(()));
}

#[test]
fn detail_of_invalid_span_names_span_and_path() {
    let r = Detail::new(loc(&[4, 0], &[1, 2]));
    assert_eq!(r.unwrap_err(), Error::InvalidSpan { span: vec![1, 2], path: vec![4, 0] });
}

#[test]
fn comments_only_where_some_are_given() {
    assert!(Comments::new_maybe(None, None, Vec::new()).is_none());
    let c = Comments::new_maybe(Some(" lead".to_string()), None, vec!["x".to_string()]).unwrap();
    assert_eq!(c.leading(), Some(" lead"));
    assert_eq!(c.trailing(), None);
    assert_eq!(c.leading_detached(), &["x".to_string()][..]);
    let empty = Comments::new_maybe(Some(String::new()), None, Vec::new());
    assert!(empty.is_some());
}

#[test]
fn detail_keeps_path_span_and_comments() {
    let mut l = loc(&[4, 1], &[3, 0, 5, 1]);
    l.trailing_comments = Some(" after".to_string());
    let d = Detail::new(l).unwrap();
    assert_eq!(d.path, vec![4, 1]);
    assert_eq!(d.span, Span { start_line: 3, start_column: 0, end_line: 5, end_column: 1 });
    assert_eq!(d.comments.unwrap().trailing(), Some(" after"));
}

#[test]
fn iterate_next_takes_children_only() {
    let mut q: VecDeque<Location> = VecDeque::new();
    q.push_back(loc(&[4, 0, 2, 1], &[1, 1, 1]));
    q.push_back(loc(&[5, 0], &[1, 1, 1]));
    let prefix = vec![4, 0];
    let (l, kind) = iterate_next(&prefix, &mut q).unwrap();
    assert_eq!(l.path, vec![4, 0, 2, 1]);
    assert_eq!(kind, 2);
    assert!(iterate_next(&prefix, &mut q).is_none());
    assert_eq!(q.len(), 1);
}

fn sample() -> Vec<Location> {
    let mut syntax = loc(&[12], &[0, 0, 18]);
    syntax.leading_comments = Some(" the syntax".to_string());
    vec![
        loc(&[], &[0, 0, 20, 1]),
        syntax,
        loc(&[2], &[1, 0, 12]),
        loc(&[3, 0], &[2, 0, 20]),
        loc(&[4, 0], &[3, 0, 10, 1]),
        loc(&[4, 0, 1], &[3, 8, 11]),
        loc(&[4, 0, 2, 0], &[4, 2, 20]),
        loc(&[4, 0, 2, 0, 1], &[4, 9, 12]),
        loc(&[4, 0, 3, 0], &[5, 2, 7, 3]),
        loc(&[4, 0, 3, 0, 2, 0], &[6, 4, 20]),
        loc(&[4, 0, 4, 0], &[8, 2, 9, 3]),
        loc(&[4, 0, 4, 0, 2, 0], &[8, 10, 20]),
        loc(&[4, 0, 8, 0], &[9, 4, 10]),
        loc(&[5, 0], &[11, 0, 14, 1]),
        loc(&[5, 0, 2, 0], &[12, 2, 10]),
        loc(&[5, 0, 2, 1], &[13, 2, 10]),
        loc(&[6, 0], &[15, 0, 17, 1]),
        loc(&[6, 0, 2, 0], &[16, 2, 30]),
        loc(&[7], &[18, 0, 19, 1]),
        loc(&[7, 0], &[18, 10, 20]),
    ]
}

#[test]
fn file_locations_are_arranged_by_node() {
    let f = File::new(sample()).unwrap();
    let syntax = f.syntax.unwrap();
    assert_eq!(syntax.path, vec![12]);
    assert_eq!(syntax.comments.unwrap().leading(), Some(" the syntax"));
    assert_eq!(f.package.unwrap().span, Span { start_line: 1, start_column: 0, end_line: 1, end_column: 12 });
    assert_eq!(f.dependencies.len(), 1);
    assert_eq!(f.messages.len(), 1);
    let m: &Message = &f.messages[0];
    assert_eq!(m.detail.path, vec![4, 0]);
    assert_eq!(m.fields.len(), 1);
    assert_eq!(m.fields[0].detail.path, vec![4, 0, 2, 0]);
    assert_eq!(m.messages.len(), 1);
    assert_eq!(m.messages[0].fields.len(), 1);
    assert_eq!(m.messages[0].fields[0].detail.path, vec![4, 0, 3, 0, 2, 0]);
    assert_eq!(m.enums.len(), 1);
    assert_eq!(m.enums[0].values.len(), 1);
    assert_eq!(m.oneofs.len(), 1);
    assert_eq!(f.enums.len(), 1);
    assert_eq!(f.enums[0].values.len(), 2);
    assert_eq!(f.enums[0].values[1].detail.path, vec![5, 0, 2, 1]);
    assert_eq!(f.services.len(), 1);
    assert_eq!(f.services[0].methods.len(), 1);
    assert_eq!(f.extensions.len(), 1);
    assert_eq!(f.extensions[0].extensions.len(), 1);
}

#[test]
fn nested_nodes_lie_below_their_parents() {
    let f = File::new(sample()).unwrap();
    let m = &f.messages[0];
    for field in &m.fields {
        assert!(field.detail.path.starts_with(&m.detail.path));
        assert_eq!(field.detail.path[m.detail.path.len()], path::Message::FIELD);
    }
    for nested in &m.messages {
        assert!(nested.detail.path.starts_with(&m.detail.path));
        assert_eq!(nested.detail.path[m.detail.path.len()], path::Message::NESTED);
    }
    for v in &f.enums[0].values {
        assert_eq!(v.detail.path[2], path::Enum::VALUE);
    }
}

#[test]
fn file_with_invalid_span_fails() {
    let mut info = sample();
    info[6].span = vec![1];
    assert_eq!(
        File::new(info).unwrap_err(),
        Error::InvalidSpan { span: vec![1], path: vec![4, 0, 2, 0] }
    );
}

#[test]
fn file_own_location_must_have_a_valid_span() {
    let mut info = sample();
    info[0].span = vec![];
    assert_eq!(File::new(info).unwrap_err(), Error::InvalidSpan { span: vec![], path: vec![] });
}

#[test]
fn file_paths() {
    assert_eq!(path::new_file_path(), vec![12, 2]);
    assert_eq!(path::new(4, 1), vec![4, 1]);
    assert_eq!(path::append(&[4, 1], 2, 0), vec![4, 1, 2, 0]);
    let mut p = vec![4, 0];
    path::append_message(&mut p, path::Message::Nested, 3);
    assert_eq!(p, vec![4, 0, 3, 3]);
}

#[test]
fn path_kinds_round_trip() {
    for code in [1, 2, 3, 4, 5, 6, 7, 8, 9, 10, 11, 12] {
        assert_eq!(path::File::from_i32(code).as_i32(), code);
    }
    assert_eq!(path::File::from_i32(99), path::File::Unknown(99));
    for code in [2, 3, 4, 6, 8] {
        assert_eq!(path::Message::from_i32(code).as_i32(), code);
    }
    assert_eq!(path::Message::from_i32(1), path::Message::Unknown(1));
    assert_eq!(path::Enum::from_i32(2), path::Enum::Value);
    assert_eq!(path::Service::from_i32(2), path::Service::Method);
}

#[test]
fn path_kinds_compare_with_their_numbers() {
    assert!(path::File::Message == 4);
    assert!(4 == path::File::Message);
    assert!(path::File::Enum != 4);
    assert!(path::Message::Field == 2);
    assert!(3 == path::Message::Nested);
    assert!(path::Enum::Value == 2);
    assert!(2 == path::Enum::Value);
    assert!(path::Service::Method == 2);
    assert!(path::Oneof::Name == 1);
    assert!(path::File::Unknown(99) == 99);
}
