use mongo_indexed::{
    create_index, create_index_from_doc, create_sparse_index, create_sparse_index_from_doc,
    create_unique_index, create_unique_index_from_doc,
};
use mongodb::bson::{Bson, Document};

fn compound() -> Document {
    let mut document = Document::new();
    document.insert("username", 1);
    document.insert("email", -1);
    document
}

fn single(field: &str) -> Document {
    let mut document = Document::new();
    document.insert(field, 1);
    document
}

#[test]
fn plain_index_on_a_field() {
    let model = create_index("email");
    assert_eq!(model.keys, single("email"));
    assert_eq!(model.keys.len(), 1);
    assert_eq!(model.keys.get("email"), Some(&Bson::Int32(1)));
    assert!(model.options.is_none());
}

#[test]
fn unique_index_on_a_field() {
    let model = create_unique_index("inner.id");
    assert_eq!(model.keys, single("inner.id"));
    let options = model.options.expect("a unique index has options");
    assert_eq!(options.unique, Some(true));
    assert_eq!(options.sparse, None);
    assert_eq!(options.name, None);
}

#[test]
fn sparse_index_on_a_field() {
    let model = create_sparse_index("nickname");
    assert_eq!(model.keys, single("nickname"));
    let options = model.options.expect("a sparse index has options");
    assert_eq!(options.unique, None);
    assert_eq!(options.sparse, Some(true));
    assert_eq!(options.name, None);
}

#[test]
fn plain_index_from_a_document() {
    let model = create_index_from_doc(compound());
    assert_eq!(model.keys, compound());
    let keys: Vec<&String> = model.keys.keys().collect();
    assert_eq!(keys, vec!["username", "email"]);
    assert!(model.options.is_none());
}

#[test]
fn unique_index_from_a_document() {
    let model = create_unique_index_from_doc(compound());
    assert_eq!(model.keys, compound());
    let options = model.options.expect("a unique index has options");
    assert_eq!(options.unique, Some(true));
    assert_eq!(options.sparse, None);
}

#[test]
fn sparse_index_from_a_document() {
    let model = create_sparse_index_from_doc(compound());
    assert_eq!(model.keys, compound());
    let options = model.options.expect("a sparse index has options");
    assert_eq!(options.unique, None);
    assert_eq!(options.sparse, Some(true));
}
