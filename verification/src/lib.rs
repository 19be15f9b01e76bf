//! Index declarations for MongoDB collections.
//!
//! A type states which of its fields are backed by an index, and with which
//! semantics, and which compound indexes its collection has besides.
//!
//! - [`definition`] holds such a statement: a type with its annotations.
//! - [`derive`] flattens a definition into an [`IndexMetadata`] bundle.
//! - [`naming`] shows that no path is derived twice.
//! - [`index`] builds the creation request for a single index.
//! - [`provision`] turns a bundle into the requests that bring a collection
//!   up to date, one at a time, and ends the run at the first that fails.

pub mod definition;
pub mod derive;
pub mod document;
pub mod error;
pub mod index;
pub mod metadata;
pub mod naming;
pub mod provision;

pub use definition::{
    AnnotationKind, FieldAnnotation, FieldDefinition, FieldRule, IndexKind, Payload, Shape,
    TypeAnnotation, TypeDefinition,
};
pub use derive::{
    apply_annotation, derive_indexed, field_index_paths, is_single_word, rule_of, DeriveError,
    MAX_IDENTIFIER_LEN,
};
pub use error::Error;
pub use index::{
    create_index, create_index_from_doc, create_sparse_index, create_sparse_index_from_doc,
    create_unique_index, create_unique_index_from_doc,
};
pub use metadata::{IndexMetadata, Indexed};
pub use mongodb::bson::{doc, Document};
pub use provision::{
    collection, collection_with_name, provision, IndexStep, IndexTarget, Pending, Progress,
    Provisioning,
};
