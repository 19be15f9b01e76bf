//! Index creation requests: the index models that are handed to the database.

use crate::definition::IndexKind;
use crate::document::{document_entries, document_insert, document_new};
use mongodb::bson::Document;
use mongodb::IndexModel;
use vstd::prelude::*;

verus! {

/// `mongodb::IndexModel`: the fields and the options of an index, as the
/// driver sends them with a creation request.
#[verifier::external_type_specification]
#[verifier::external_body]
pub struct ExIndexModel(mongodb::IndexModel);

/// The `keys` field of an index model: the document that names the indexed
/// fields.
pub uninterp spec fn index_keys(model: mongodb::IndexModel) -> mongodb::bson::Document;

/// The `options` field of an index model, as far as the library sets it:
/// `None` where the model has no options, else the `unique` and the `sparse`
/// setting of its options, in this order.
pub uninterp spec fn index_options(model: mongodb::IndexModel) -> Option<
    (Option<bool>, Option<bool>),
>;

/// `IndexModel::builder`, `keys` and `build`: a model with the given keys
/// and, as the builder's default, without options.
#[verifier::external_body]
fn model_of_keys(keys: Document) -> (model: IndexModel)
    ensures
        index_keys(model) == keys,
        index_options(model) is None,
{
    IndexModel::builder().keys(keys).build()
}

/// `IndexOptions::builder`, `unique`, `sparse` and `build`, then
/// `IndexModel::builder`, `keys`, `options` and `build`: a model with the
/// given keys whose options hold the two given settings.
#[verifier::external_body]
fn model_with_options(
    keys: Document,
    unique: Option<bool>,
    sparse: Option<bool>,
) -> (model: IndexModel)
    ensures
        index_keys(model) == keys,
        index_options(model) == Some((unique, sparse)),
{
    let options = mongodb::options::IndexOptions::builder().unique(unique).sparse(sparse).build();
    IndexModel::builder().keys(keys).options(options).build()
}

/// The direction in which a single field is indexed: ascending.
pub const ASCENDING: i32 = 1;

/// The entries of the key document of a single-field index.
pub open spec fn field_keys(field: Seq<char>) -> Seq<(Seq<char>, int)> {
    seq![(field, ASCENDING as int)]
}

/// The options that ask for an index of the given kind: none for a plain
/// index, `unique` alone for a unique index, `sparse` alone for a sparse one.
pub open spec fn options_of(kind: IndexKind) -> Option<(Option<bool>, Option<bool>)> {
    match kind {
        IndexKind::Plain => None,
        IndexKind::Unique => Some((Some(true), None)),
        IndexKind::Sparse => Some((None, Some(true))),
    }
}

/// Whether a model asks for an index of the given kind.
pub open spec fn is_kind(model: IndexModel, kind: IndexKind) -> bool {
    index_options(model) == options_of(kind)
}

/// The key document of a single-field index.
fn keys_of_field(field: &str) -> (keys: Document)
    ensures
        document_entries(keys) == field_keys(field@),
{
    let mut keys = document_new();
    document_insert(&mut keys, field, ASCENDING);
    keys
}

/// The request for a plain index on one field.
pub fn create_index(field: &str) -> (model: IndexModel)
    ensures
        document_entries(index_keys(model)) == field_keys(field@),
        is_kind(model, IndexKind::Plain),
{
    model_of_keys(keys_of_field(field))
}

/// The request for a unique index on one field.
pub fn create_unique_index(field: &str) -> (model: IndexModel)
    ensures
        document_entries(index_keys(model)) == field_keys(field@),
        is_kind(model, IndexKind::Unique),
{
    model_with_options(keys_of_field(field), Some(true), None)
}

/// The request for a sparse index on one field.
pub fn create_sparse_index(field: &str) -> (model: IndexModel)
    ensures
        document_entries(index_keys(model)) == field_keys(field@),
        is_kind(model, IndexKind::Sparse),
{
    model_with_options(keys_of_field(field), None, Some(true))
}

/// The request for a plain index with the given key document.
pub fn create_index_from_doc(index_doc: Document) -> (model: IndexModel)
    ensures
        index_keys(model) == index_doc,
        is_kind(model, IndexKind::Plain),
{
    model_of_keys(index_doc)
}

/// The request for a unique index with the given key document.
pub fn create_unique_index_from_doc(index_doc: Document) -> (model: IndexModel)
    ensures
        index_keys(model) == index_doc,
        is_kind(model, IndexKind::Unique),
{
    model_with_options(index_doc, Some(true), None)
}

/// The request for a sparse index with the given key document.
pub fn create_sparse_index_from_doc(index_doc: Document) -> (model: IndexModel)
    ensures
        index_keys(model) == index_doc,
        is_kind(model, IndexKind::Sparse),
{
    model_with_options(index_doc, None, Some(true))
}

} // verus!
