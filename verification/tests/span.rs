use rune_ast::span::{join_onto, join_option, SourceId, Span};

#[test]
fn trimming_moves_one_edge() {
    let span = Span::new(SourceId(1), 3, 10);
    assert_eq!(span.trim_start(2), Span::new(SourceId(1), 5, 10));
    assert_eq!(span.trim_end(2), Span::new(SourceId(1), 3, 8));
    assert_eq!(span.trim_start(7), Span::new(SourceId(1), 10, 10));
    assert_eq!(span.trim_end(7), Span::new(SourceId(1), 3, 3));
    assert_eq!(span.trim_start(0), span);
}

#[test]
fn join_is_the_smallest_cover() {
    let a = Span::new(SourceId(0), 2, 5);
    let b = Span::new(SourceId(0), 7, 9);
    assert_eq!(a.join(b), Span::new(SourceId(0), 2, 9));
    assert_eq!(b.join(a), Span::new(SourceId(0), 2, 9));
    let inner = Span::new(SourceId(0), 3, 4);
    assert_eq!(a.join(inner), a);
}

#[test]
fn join_keeps_the_source_of_the_receiver() {
    let a = Span::new(SourceId(4), 2, 5);
    let b = Span::new(SourceId(9), 0, 3);
    assert_eq!(a.join(b), Span::new(SourceId(4), 0, 5));
    assert_eq!(b.join(a), Span::new(SourceId(9), 0, 5));
}

#[test]
fn lengths_and_points() {
    let span = Span::new(SourceId(0), 3, 10);
    assert_eq!(span.len(), 7);
    assert!(!span.is_empty());
    assert_eq!(span.tail(), Span::new(SourceId(0), 10, 10));
    assert_eq!(Span::point(SourceId(2), 6), Span::new(SourceId(2), 6, 6));
    assert_eq!(Span::empty(SourceId(2)), Span::new(SourceId(2), 0, 0));
    assert!(Span::point(SourceId(2), 6).is_empty());
    assert_eq!(Span::point(SourceId(2), 6).len(), 0);
}

#[test]
fn joining_pieces_that_may_be_absent() {
    let a = Span::new(SourceId(0), 2, 5);
    let b = Span::new(SourceId(0), 7, 9);
    assert_eq!(join_onto(None, a), a);
    assert_eq!(join_onto(Some(a), b), Span::new(SourceId(0), 2, 9));
    assert_eq!(join_option(None, None), None);
    assert_eq!(join_option(Some(a), None), Some(a));
    assert_eq!(join_option(None, Some(b)), Some(b));
    assert_eq!(join_option(Some(a), Some(b)), Some(Span::new(SourceId(0), 2, 9)));
}
