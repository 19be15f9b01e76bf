use mongo_indexed::FieldAnnotation::{Index, SkipIndex, SparseIndex, UniqueIndex};
use mongo_indexed::{
    derive_indexed, rule_of, AnnotationKind, FieldAnnotation, FieldDefinition, FieldRule,
    IndexKind, TypeDefinition,
};
use std::collections::HashSet;

#[test]
fn field_annotations_go_by_their_names() {
    assert_eq!(FieldAnnotation::from_name("skip_index"), Some(FieldAnnotation::SkipIndex));
    assert_eq!(FieldAnnotation::from_name("unique_index"), Some(FieldAnnotation::UniqueIndex));
    assert_eq!(FieldAnnotation::from_name("sparse_index"), Some(FieldAnnotation::SparseIndex));
    assert_eq!(FieldAnnotation::from_name("index"), Some(FieldAnnotation::Index));
}

#[test]
fn other_names_are_no_field_annotations() {
    for name in ["", "serde", "Index", "index ", "doc_index", "collection_name", "unique"] {
        assert_eq!(FieldAnnotation::from_name(name), None, "name: {name:?}");
    }
}

#[test]
fn type_annotations_go_by_their_names() {
    assert_eq!(AnnotationKind::from_name("doc_index"), Some(AnnotationKind::DocIndex));
    assert_eq!(AnnotationKind::from_name("unique_doc_index"), Some(AnnotationKind::UniqueDocIndex));
    assert_eq!(AnnotationKind::from_name("sparse_doc_index"), Some(AnnotationKind::SparseDocIndex));
    assert_eq!(AnnotationKind::from_name("collection_name"), Some(AnnotationKind::CollectionName));
}

#[test]
fn other_names_are_no_type_annotations() {
    for name in ["", "derive", "index", "unique_index", "DocIndex", "collection"] {
        assert_eq!(AnnotationKind::from_name(name), None, "name: {name:?}");
    }
}

#[test]
fn rule_without_annotations_is_nested() {
    assert_eq!(rule_of(&Vec::new()), FieldRule::Nested);
}

#[test]
fn rule_of_a_single_annotation() {
    assert_eq!(rule_of(&vec![FieldAnnotation::SkipIndex]), FieldRule::Skipped);
    assert_eq!(
        rule_of(&vec![FieldAnnotation::UniqueIndex]),
        FieldRule::Indexed(IndexKind::Unique)
    );
    assert_eq!(
        rule_of(&vec![FieldAnnotation::SparseIndex]),
        FieldRule::Indexed(IndexKind::Sparse)
    );
    assert_eq!(rule_of(&vec![FieldAnnotation::Index]), FieldRule::Indexed(IndexKind::Plain));
}

#[test]
fn rule_does_not_depend_on_the_order_written() {
    assert_eq!(rule_of(&vec![Index, SparseIndex, UniqueIndex, SkipIndex]), FieldRule::Skipped);
    assert_eq!(rule_of(&vec![SkipIndex, UniqueIndex, SparseIndex, Index]), FieldRule::Skipped);
    assert_eq!(
        rule_of(&vec![Index, SparseIndex, UniqueIndex]),
        FieldRule::Indexed(IndexKind::Unique)
    );
    assert_eq!(
        rule_of(&vec![UniqueIndex, Index, SparseIndex]),
        FieldRule::Indexed(IndexKind::Unique)
    );
    assert_eq!(rule_of(&vec![Index, SparseIndex]), FieldRule::Indexed(IndexKind::Sparse));
    assert_eq!(rule_of(&vec![SparseIndex, Index]), FieldRule::Indexed(IndexKind::Sparse));
}

#[test]
fn no_path_is_derived_twice() {
    let leaf = || {
        TypeDefinition::record(
            "Leaf",
            vec![
                FieldDefinition::named("id").annotated(FieldAnnotation::UniqueIndex),
                FieldDefinition::named("name").annotated(FieldAnnotation::Index),
                FieldDefinition::named("alias").annotated(FieldAnnotation::SparseIndex),
            ],
        )
    };
    let middle = || {
        TypeDefinition::record(
            "Middle",
            vec![
                FieldDefinition::named("id").annotated(FieldAnnotation::Index),
                FieldDefinition::named("left").of_type(leaf()),
                FieldDefinition::named("right").of_type(leaf()),
            ],
        )
    };
    let top = TypeDefinition::record(
        "Top",
        vec![
            FieldDefinition::named("id").annotated(FieldAnnotation::UniqueIndex),
            FieldDefinition::named("name").annotated(FieldAnnotation::SparseIndex),
            FieldDefinition::named("left").of_type(middle()),
            FieldDefinition::named("leftright").of_type(leaf()),
            FieldDefinition::named("right").of_type(middle()),
        ],
    );
    let bundle = derive_indexed(&top).unwrap();
    let mut all: Vec<String> = Vec::new();
    all.extend(bundle.indexes.iter().cloned());
    all.extend(bundle.unique_indexes.iter().cloned());
    all.extend(bundle.sparse_indexes.iter().cloned());
    assert_eq!(all.len(), 2 + 2 * 7 + 3);
    let different: HashSet<&String> = all.iter().collect();
    assert_eq!(different.len(), all.len());
    assert!(all.contains(&"left.right.alias".to_string()));
    assert!(all.contains(&"leftright.id".to_string()));
}
