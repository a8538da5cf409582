use std::rc::Rc;

use annotation_store::Annotation;
use annotation_store::AnnotationTree;
use annotation_store::DocCollection;
use annotation_store::InclusiveRange;
use annotation_store::Location;
use annotation_store::SourceRange;

fn loc(line: u32, column: u16) -> Location {
    Location { line, column }
}

fn span(start: u16, end: u16) -> SourceRange {
    SourceRange { start: loc(0, start), end: loc(0, end) }
}

#[test]
fn count_after_inserts_and_merges() {
    let mut total = AnnotationTree::default();
    assert!(total.is_empty());
    assert_eq!(total.len(), 0);

    total.insert(span(1, 4), Annotation::ParentCall);
    total.insert(span(2, 6), Annotation::ReturnVal);
    assert_eq!(total.len(), 2);

    let mut fragment = AnnotationTree::default();
    fragment.insert(span(10, 12), Annotation::InSequence(0));
    fragment.insert(span(12, 14), Annotation::InSequence(1));
    fragment.insert(span(14, 16), Annotation::InSequence(2));
    assert_eq!(fragment.len(), 3);

    total.merge(fragment);
    assert_eq!(total.len(), 5);

    total.insert(span(20, 21), Annotation::ProcArgument(0));
    assert_eq!(total.len(), 6);

    total.merge(AnnotationTree::default());
    assert_eq!(total.len(), 6);
    assert!(!total.is_empty());
}

#[test]
fn location_query_covers_half_open_range() {
    let mut tree = AnnotationTree::default();
    let fact = Annotation::UnscopedVar(String::from("counter"));
    tree.insert(span(10, 15), fact.clone());
    // a second, disjoint entry so misses are not misses for want of data
    tree.insert(span(30, 40), Annotation::ParentCall);

    for column in 10..15u16 {
        let hits = tree.get_location(loc(0, column));
        assert_eq!(hits.len(), 1);
        assert_eq!(hits[0].1, fact);
    }
    assert!(tree.get_location(loc(0, 9)).is_empty());
    // the exclusive bound itself is not covered
    assert!(tree.get_location(loc(0, 15)).is_empty());
    assert!(tree.get_location(loc(1, 12)).is_empty());
}

#[test]
fn location_query_returns_all_overlapping_facts() {
    let mut tree = AnnotationTree::default();
    tree.insert(span(5, 20), Annotation::TreeBlock(vec![String::from("mob")]));
    tree.insert(span(10, 12), Annotation::InSequence(0));
    let hits = tree.get_location(loc(0, 11));
    assert_eq!(hits.len(), 2);
    assert_eq!(hits[0].1, Annotation::TreeBlock(vec![String::from("mob")]));
    assert_eq!(hits[1].1, Annotation::InSequence(0));
}

#[test]
fn merge_is_associative_for_contents() {
    let build_a = || {
        let mut t = AnnotationTree::default();
        t.insert(span(1, 3), Annotation::ParentCall);
        t
    };
    let build_b = || {
        let mut t = AnnotationTree::default();
        t.insert(span(2, 5), Annotation::ReturnVal);
        t.insert(span(4, 6), Annotation::InSequence(7));
        t
    };
    let build_c = || {
        let mut t = AnnotationTree::default();
        t.insert(span(9, 11), Annotation::UnscopedCall(String::from("probe")));
        t
    };

    // (a + b) + c
    let mut left = build_a();
    left.merge(build_b());
    left.merge(build_c());

    // a + (b + c)
    let mut right = build_a();
    let mut bc = build_b();
    bc.merge(build_c());
    right.merge(bc);

    assert_eq!(left.len(), right.len());
    let left_entries = left.iter();
    let right_entries = right.iter();
    assert_eq!(left_entries.len(), right_entries.len());
    for pair in left_entries.iter() {
        assert!(right_entries.contains(pair));
    }
}

#[test]
fn merging_an_empty_tree_changes_nothing() {
    let mut tree = AnnotationTree::default();
    tree.insert(span(3, 8), Annotation::ReturnVal);
    tree.insert(span(5, 6), Annotation::ProcArgument(2));
    let before = tree.iter();
    let count_before = tree.len();

    tree.merge(AnnotationTree::default());

    assert_eq!(tree.len(), count_before);
    assert_eq!(tree.iter(), before);
    assert_eq!(tree.get_location(loc(0, 5)).len(), 2);
}

#[test]
fn resolution_embeds_facts_of_the_sub_range() {
    let mut tree = AnnotationTree::default();
    let f1 = Annotation::UnscopedVar(String::from("alpha"));
    let f2 = Annotation::UnscopedCall(String::from("beta"));
    tree.insert(span(10, 15), f1.clone());
    tree.insert(span(12, 14), f2.clone());

    let raw = Annotation::ReturnOperation(span(10, 15));
    let resolved = raw.resolved(&tree);
    assert_eq!(
        resolved,
        Annotation::ReturnStatement { returned_value: vec![f1, f2] },
    );
}

#[test]
fn resolution_over_an_empty_sub_range_embeds_nothing() {
    let mut tree = AnnotationTree::default();
    tree.insert(span(50, 60), Annotation::ParentCall);

    let raw = Annotation::ReturnOperation(span(10, 15));
    let resolved = raw.resolved(&tree);
    assert_eq!(resolved, Annotation::ReturnStatement { returned_value: vec![] });
}

#[test]
fn resolution_leaves_other_variants_unchanged() {
    let mut tree = AnnotationTree::default();
    tree.insert(span(1, 9), Annotation::ReturnVal);

    let facts = vec![
        Annotation::ParentCall,
        Annotation::ReturnVal,
        Annotation::TreeBlock(vec![String::from("obj"), String::from("item")]),
        Annotation::InSequence(3),
        Annotation::MacroUse {
            name: String::from("DEBUG"),
            definition_location: loc(2, 0),
            docs: Some(Rc::new(DocCollection { elems: vec![String::from("doc line")] })),
        },
        Annotation::Include(String::from("map/station.dmm")),
        Annotation::ReturnStatement { returned_value: vec![Annotation::ParentCall] },
    ];
    for fact in facts {
        let copy = fact.clone();
        assert_eq!(copy.resolved(&tree), fact);
    }
}

#[test]
fn range_query_is_half_open_at_the_upper_bound() {
    let mut tree = AnnotationTree::default();
    let touching = Annotation::UnscopedVar(String::from("touching"));
    let beyond = Annotation::UnscopedVar(String::from("beyond"));
    // reaches the probe's last covered position, 19
    tree.insert(span(18, 20), touching.clone());
    // starts exactly at the probe's exclusive bound, 20
    tree.insert(span(20, 25), beyond.clone());

    let hits = tree.get_range(span(10, 20));
    assert_eq!(hits.len(), 1);
    assert_eq!(hits[0].1, touching);
}

#[test]
fn range_query_finds_every_overlap() {
    let mut tree = AnnotationTree::default();
    tree.insert(span(0, 4), Annotation::InSequence(0));
    tree.insert(span(3, 8), Annotation::InSequence(1));
    tree.insert(span(8, 9), Annotation::InSequence(2));
    let hits = tree.get_range(span(2, 8));
    assert_eq!(hits.len(), 2);
    assert_eq!(hits[0].1, Annotation::InSequence(0));
    assert_eq!(hits[1].1, Annotation::InSequence(1));
}

#[test]
fn raw_range_query_takes_inclusive_bounds() {
    let mut tree = AnnotationTree::default();
    tree.insert(span(5, 10), Annotation::ProcArgument(1));
    // stored form of [5, 10) is [5, 9]; the inclusive probe [9, 12] touches it
    let hits = tree.get_range_raw(InclusiveRange { start: loc(0, 9), end: loc(0, 12) });
    assert_eq!(hits.len(), 1);
    assert_eq!(hits[0].0, InclusiveRange { start: loc(0, 5), end: loc(0, 9) });
    // an inclusive probe past the stored upper bound misses
    let misses = tree.get_range_raw(InclusiveRange { start: loc(0, 10), end: loc(0, 12) });
    assert!(misses.is_empty());
}

#[test]
fn iteration_is_deterministic_and_keeps_every_entry() {
    let mut tree = AnnotationTree::default();
    tree.insert(span(7, 9), Annotation::InSequence(0));
    tree.insert(span(1, 2), Annotation::InSequence(1));
    tree.insert(span(4, 20), Annotation::InSequence(2));

    let first = tree.iter();
    let second = tree.iter();
    assert_eq!(first, second);
    assert_eq!(first.len(), 3);
    assert_eq!(first[0].0, InclusiveRange { start: loc(0, 7), end: loc(0, 8) });
    assert_eq!(first[1].1, Annotation::InSequence(1));
}

#[test]
fn predecessor_steps_across_line_boundaries() {
    assert_eq!(loc(0, 12).pred(), loc(0, 11));
    assert_eq!(loc(3, 0).pred(), loc(2, 0xffff));
    let mut tree = AnnotationTree::default();
    let over_lines = SourceRange { start: loc(1, 40), end: loc(2, 0) };
    tree.insert(over_lines, Annotation::ReturnVal);
    assert_eq!(tree.iter()[0].0, InclusiveRange { start: loc(1, 40), end: loc(1, 0xffff) });
    assert_eq!(tree.get_location(loc(1, 0xffff)).len(), 1);
    assert!(tree.get_location(loc(2, 0)).is_empty());
}

#[test]
fn macro_use_shares_its_documentation_handle() {
    let docs = Rc::new(DocCollection { elems: vec![String::from("shared")] });
    let fact = Annotation::MacroUse {
        name: String::from("PI"),
        definition_location: loc(4, 2),
        docs: Some(Rc::clone(&docs)),
    };
    let copy = fact.clone();
    assert_eq!(copy, fact);
    match copy {
        Annotation::MacroUse { docs: Some(handle), .. } => {
            assert!(Rc::ptr_eq(&handle, &docs));
        }
        _ => panic!("clone changed the variant"),
    }
}
