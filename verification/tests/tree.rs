use frustlib::filter::{Attribute, CompOp, Entry, FilterError};
use frustlib::filter_tree::{create_filter, FilterTree, FilterTuple, LogicOp, Predicate};

fn named(path: &str) -> Entry {
    Entry { path: Some(String::from(path)), basename: None, metadata: None }
}

fn holds(letter: &str) -> FilterTuple {
    FilterTuple::new(Attribute::Name, CompOp::Like, String::from(letter))
}

fn predicate(letter: &str) -> Predicate {
    create_filter(holds(letter)).unwrap()
}

fn leaf(letter: &str) -> FilterTree {
    FilterTree::new(Some(holds(letter)), None, None).unwrap()
}

fn paths() -> Vec<(String, bool, bool, bool)> {
    let mut all = Vec::new();
    for a in [false, true] {
        for b in [false, true] {
            for c in [false, true] {
                let text = format!(
                    "/{}{}{}",
                    if a { "a" } else { "" },
                    if b { "b" } else { "" },
                    if c { "c" } else { "" }
                );
                all.push((text, a, b, c));
            }
        }
    }
    all
}

#[test]
fn and_then_or_is_and_of_or() {
    let tail = FilterTree::new(Some(holds("b")), Some(LogicOp::Or), Some(Box::new(leaf("c"))))
        .unwrap();
    let tree =
        FilterTree::new(Some(holds("a")), Some(LogicOp::And), Some(Box::new(tail))).unwrap();
    let mut differs = false;
    for (path, a, b, c) in paths() {
        assert_eq!(tree.test(&named(&path)), a && (b || c));
        if (a && (b || c)) != ((a && b) || c) {
            differs = true;
            assert_ne!(tree.test(&named(&path)), (a && b) || c);
        }
    }
    assert!(differs);
}

#[test]
fn or_then_and_is_or_of_and() {
    let tail = FilterTree::new(Some(holds("b")), Some(LogicOp::And), Some(Box::new(leaf("c"))))
        .unwrap();
    let tree = FilterTree::new(Some(holds("a")), Some(LogicOp::Or), Some(Box::new(tail))).unwrap();
    for (path, a, b, c) in paths() {
        assert_eq!(tree.test(&named(&path)), a || (b && c));
    }
}

#[test]
fn a_single_filter_decides_alone() {
    let tree = leaf("a");
    assert!(tree.test(&named("/a")));
    assert!(!tree.test(&named("/b")));
}

#[test]
fn the_empty_tree_accepts_everything() {
    let tree = FilterTree::new(None, None, None).unwrap();
    assert!(tree.test(&named("/a")));
    assert!(tree.test(&Entry { path: None, basename: None, metadata: None }));
    let tree = FilterTree::empty();
    assert!(tree.test(&named("")));
    let tree = FilterTree::join(None, None, None).unwrap();
    assert!(tree.test(&named("")));
}

#[test]
fn a_tree_needs_its_shape() {
    let malformed = Some(FilterError::MalformedExpressionError);
    assert_eq!(FilterTree::new(None, Some(LogicOp::And), None).err(), malformed);
    assert_eq!(FilterTree::new(None, None, Some(Box::new(leaf("a")))).err(), malformed);
    assert_eq!(
        FilterTree::new(None, Some(LogicOp::Or), Some(Box::new(leaf("a")))).err(),
        malformed
    );
    assert_eq!(FilterTree::new(Some(holds("a")), Some(LogicOp::And), None).err(), malformed);
    assert_eq!(FilterTree::new(Some(holds("a")), None, Some(Box::new(leaf("b")))).err(), malformed);
    assert_eq!(FilterTree::join(Some(predicate("a")), Some(LogicOp::And), None).err(), malformed);
    assert_eq!(
        FilterTree::join(Some(predicate("a")), None, Some(Box::new(leaf("b")))).err(),
        malformed
    );
    assert_eq!(FilterTree::join(None, Some(LogicOp::And), None).err(), malformed);
}

#[test]
fn shape_is_checked_before_the_filter_is_built() {
    let broken = FilterTuple::new(Attribute::Uid, CompOp::Like, String::from("0"));
    assert_eq!(
        FilterTree::new(Some(broken), Some(LogicOp::And), None).err(),
        Some(FilterError::MalformedExpressionError)
    );
    let broken = FilterTuple::new(Attribute::Uid, CompOp::Like, String::from("0"));
    assert_eq!(
        FilterTree::new(Some(broken), None, None).err(),
        Some(FilterError::UnsupportedOperatorError {
            attribute: Attribute::Uid,
            operator: CompOp::Like
        })
    );
}

#[test]
fn join_keeps_its_parts() {
    let tree = FilterTree::join(
        Some(predicate("a")),
        Some(LogicOp::Or),
        Some(Box::new(FilterTree::join(Some(predicate("b")), None, None).unwrap())),
    )
    .unwrap();
    assert!(tree.test(&named("/a")));
    assert!(tree.test(&named("/b")));
    assert!(!tree.test(&named("/c")));
}
