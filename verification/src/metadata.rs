//! The index metadata bundle of a type.

use mongodb::bson::Document;
use vstd::prelude::*;

verus! {

/// The characters of each string of a sequence.
pub open spec fn texts(strings: Seq<String>) -> Seq<Seq<char>> {
    strings.map_values(|s: String| s@)
}

/// Everything a type declares about the indexes of its collection.
#[derive(Clone, Debug, PartialEq)]
pub struct IndexMetadata {
    /// The name of the collection that documents of the type are kept in.
    pub collection_name: String,
    /// The paths of the fields backed by a plain index.
    pub indexes: Vec<String>,
    /// The paths of the fields backed by a unique index.
    pub unique_indexes: Vec<String>,
    /// The paths of the fields backed by a sparse index.
    pub sparse_indexes: Vec<String>,
    /// The plain indexes given as documents.
    pub doc_indexes: Vec<Document>,
    /// The unique indexes given as documents.
    pub unique_doc_indexes: Vec<Document>,
    /// The sparse indexes given as documents.
    pub sparse_doc_indexes: Vec<Document>,
}

/// The mathematical content of an [`IndexMetadata`].
#[verifier::ext_equal]
pub struct IndexMetadataView {
    pub collection_name: Seq<char>,
    pub indexes: Seq<Seq<char>>,
    pub unique_indexes: Seq<Seq<char>>,
    pub sparse_indexes: Seq<Seq<char>>,
    pub doc_indexes: Seq<Document>,
    pub unique_doc_indexes: Seq<Document>,
    pub sparse_doc_indexes: Seq<Document>,
}

impl View for IndexMetadata {
    type V = IndexMetadataView;

    open spec fn view(&self) -> IndexMetadataView {
        IndexMetadataView {
            collection_name: self.collection_name@,
            indexes: texts(self.indexes@),
            unique_indexes: texts(self.unique_indexes@),
            sparse_indexes: texts(self.sparse_indexes@),
            doc_indexes: self.doc_indexes@,
            unique_doc_indexes: self.unique_doc_indexes@,
            sparse_doc_indexes: self.sparse_doc_indexes@,
        }
    }
}


/// A type that declares the indexes of the collection that holds its
/// documents.
///
/// What a type declares is one bundle, [`Indexed::declared`], and each method
/// hands out its part of it. An implementation that Verus verifies is held
/// to this; of one that it does not see, it is taken on trust.
pub trait Indexed {
    /// The bundle that the type declares.
    spec fn declared() -> IndexMetadataView;

    /// The name of the collection, unless the caller names another.
    fn default_collection_name() -> (name: String)
        ensures
            name@ == Self::declared().collection_name,
    ;

    /// The paths of the fields backed by a plain index.
    fn indexes() -> (paths: Vec<String>)
        ensures
            texts(paths@) == Self::declared().indexes,
    ;

    /// The paths of the fields backed by a unique index.
    fn unique_indexes() -> (paths: Vec<String>)
        ensures
            texts(paths@) == Self::declared().unique_indexes,
    ;

    /// The paths of the fields backed by a sparse index.
    fn sparse_indexes() -> (paths: Vec<String>)
        ensures
            texts(paths@) == Self::declared().sparse_indexes,
    ;

    /// The plain indexes given as documents.
    fn doc_indexes() -> (documents: Vec<Document>)
        ensures
            documents@ == Self::declared().doc_indexes,
    ;

    /// The unique indexes given as documents.
    fn unique_doc_indexes() -> (documents: Vec<Document>)
        ensures
            documents@ == Self::declared().unique_doc_indexes,
    ;

    /// The sparse indexes given as documents.
    fn sparse_doc_indexes() -> (documents: Vec<Document>)
        ensures
            documents@ == Self::declared().sparse_doc_indexes,
    ;
}

} // verus!
