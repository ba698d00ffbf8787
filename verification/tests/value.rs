use pacstall::value::{BashValue, StringSpan};

fn span(text: &str) -> StringSpan {
    StringSpan::from(String::from(text))
}

#[test]
fn decay_of_a_string_is_the_string() {
    let value = BashValue::String(StringSpan::new(String::from("bar"), 4..=7));
    let decayed = value.decay();
    assert_eq!(decayed.as_str(), "bar");
    assert_eq!(*decayed.span(), 4..=7);
}

#[test]
fn decay_of_an_empty_indexed_array_is_empty() {
    let decayed = BashValue::IndexedArray(vec![]).decay();
    assert_eq!(decayed.as_str(), "");
    assert_eq!(*decayed.span(), 0..=0);
    assert!(decayed == StringSpan::default());
}

#[test]
fn decay_of_an_empty_keyed_array_is_empty() {
    let decayed = BashValue::AssociatedArray(vec![]).decay();
    assert_eq!(decayed.as_str(), "");
    assert_eq!(*decayed.span(), 0..=0);
}

#[test]
fn decay_takes_the_lowest_index() {
    let value = BashValue::IndexedArray(vec![(2, span("baz")), (5, span("bing")), (9, span("x"))]);
    assert_eq!(value.decay().as_str(), "baz");
    let unordered = BashValue::IndexedArray(vec![(7, span("seven")), (3, span("three")), (5, span("five"))]);
    assert_eq!(unordered.decayed(), "three");
    assert_eq!(unordered.decay().as_str(), "three");
}

#[test]
fn decay_takes_the_first_of_equal_indices() {
    let value = BashValue::IndexedArray(vec![(1, span("one")), (0, span("first")), (0, span("second"))]);
    assert_eq!(value.decay().as_str(), "first");
}

#[test]
fn decay_takes_the_smallest_key() {
    let value = BashValue::AssociatedArray(vec![
        (span("b"), span("here is b")),
        (span("a"), span("here is a")),
        (span("ab"), span("here is ab")),
    ]);
    assert_eq!(value.decayed(), "here is a");
    assert_eq!(value.decay().as_str(), "here is a");
    let prefix = BashValue::AssociatedArray(vec![(span("ab"), span("long")), (span(""), span("empty key"))]);
    assert_eq!(prefix.decay().as_str(), "empty key");
}

#[test]
fn values_come_in_stored_order() {
    assert_eq!(BashValue::String(span("one")).values(), vec![String::from("one")]);
    let indexed = BashValue::IndexedArray(vec![(0, span("a")), (4, span("b"))]);
    assert_eq!(indexed.values(), vec![String::from("a"), String::from("b")]);
    let keyed = BashValue::AssociatedArray(vec![(span("k"), span("v")), (span("l"), span("w"))]);
    assert_eq!(keyed.values(), vec![String::from("v"), String::from("w")]);
    assert!(BashValue::IndexedArray(vec![]).values().is_empty());
}

#[test]
fn string_span_compares_by_its_string() {
    let a = StringSpan::new(String::from("same"), 0..=3);
    let b = StringSpan::new(String::from("same"), 10..=13);
    let c = StringSpan::new(String::from("other"), 0..=3);
    assert!(a == b);
    assert!(a != c);
    assert_eq!(*b.span(), 10..=13);
}

#[test]
fn string_span_from_a_string_spans_it() {
    let s = StringSpan::from(String::from("héllo"));
    assert_eq!(s.as_str(), "héllo");
    assert_eq!(*s.span(), 0..=6);
    let copy = s.duplicate();
    assert!(copy == s);
    assert_eq!(*copy.span(), 0..=6);
}

#[test]
fn duplicate_keeps_what_a_value_holds() {
    let value = BashValue::IndexedArray(vec![(3, span("c")), (1, span("a"))]);
    let copy = value.duplicate();
    assert_eq!(copy.values(), value.values());
    assert_eq!(copy.decayed(), "a");
}

#[test]
fn arrays_are_made_of_ascending_keys() {
    assert!(BashValue::indexed(vec![(0, span("a")), (2, span("b")), (3, span("c"))]).is_some());
    assert!(BashValue::indexed(vec![]).is_some());
    assert!(BashValue::indexed(vec![(1, span("a")), (1, span("b"))]).is_none());
    assert!(BashValue::indexed(vec![(0, span("a")), (2, span("b")), (1, span("c"))]).is_none());
    assert!(BashValue::keyed(vec![(span("a"), span("1")), (span("ab"), span("2")), (span("b"), span("3"))]).is_some());
    assert!(BashValue::keyed(vec![(span("b"), span("1")), (span("a"), span("2"))]).is_none());
    assert!(BashValue::keyed(vec![(span("a"), span("1")), (span("a"), span("2"))]).is_none());
    assert!(BashValue::String(span("x")).is_wf());
    assert!(!BashValue::IndexedArray(vec![(2, span("a")), (1, span("b"))]).is_wf());
    let made = BashValue::indexed(vec![(4, span("four")), (9, span("nine"))]).unwrap();
    assert!(made.is_wf());
    assert_eq!(made.decay().as_str(), "four");
}

#[test]
fn string_span_hands_back_the_span_it_was_given() {
    let mut range = 2..=3;
    while range.next().is_some() {}
    assert!(range.is_empty());
    let s = StringSpan::new(String::from("ab"), range.clone());
    assert_eq!(*s.span(), range);
    assert_ne!(*s.span(), 2..=3);
    assert_eq!(*s.duplicate().span(), range);
    let wide = StringSpan::new(String::from("ab"), 0..=100);
    assert_eq!(*wide.span(), 0..=100);
}
