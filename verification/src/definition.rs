//! Annotated type definitions: what index metadata is derived from.

use mongodb::bson::Document;
use vstd::prelude::*;
use vstd::string::*;

verus! {

/// The semantics of an index.
#[derive(Clone, Copy, Debug, PartialEq, Eq, Structural)]
pub enum IndexKind {
    /// An ordinary index.
    Plain,
    /// An index that admits each key value once.
    Unique,
    /// An index that leaves out the documents that lack the indexed field.
    Sparse,
}

/// An annotation on a field of a record type.
#[derive(Clone, Copy, Debug, PartialEq, Eq, Structural)]
pub enum FieldAnnotation {
    /// The field contributes nothing, whatever its type.
    SkipIndex,
    /// The field is backed by a unique index.
    UniqueIndex,
    /// The field is backed by a sparse index.
    SparseIndex,
    /// The field is backed by a plain index.
    Index,
}

/// What a field's own annotations make of it.
#[derive(Clone, Copy, Debug, PartialEq, Eq, Structural)]
pub enum FieldRule {
    /// The field contributes nothing.
    Skipped,
    /// The field contributes its own name as a path of the given kind.
    Indexed(IndexKind),
    /// The field has no annotation of its own: it contributes what its type
    /// declares.
    Nested,
}

/// The kind of an annotation on a type.
#[derive(Clone, Copy, Debug, PartialEq, Eq, Structural)]
pub enum AnnotationKind {
    /// A plain index given as a document.
    DocIndex,
    /// A unique index given as a document.
    UniqueDocIndex,
    /// A sparse index given as a document.
    SparseDocIndex,
    /// The name of the collection, in place of the type's own name.
    CollectionName,
}

/// What an annotation on a type carries.
#[derive(Clone, Debug, PartialEq)]
pub enum Payload {
    /// Nothing.
    Empty,
    /// Source text, as written by the author.
    Text(String),
    /// A key to direction mapping.
    Document(Document),
}

/// An annotation on a type: its kind and its payload.
#[derive(Clone, Debug, PartialEq)]
pub struct TypeAnnotation {
    pub kind: AnnotationKind,
    pub payload: Payload,
}

/// A field of a record type.
#[derive(Debug, PartialEq)]
pub struct FieldDefinition {
    /// The field's name; `None` for a positional field.
    pub name: Option<String>,
    /// The annotations on the field, in the order written.
    pub annotations: Vec<FieldAnnotation>,
    /// The definition of the field's type, where that type declares indexes
    /// of its own.
    pub nested: Option<TypeDefinition>,
}

/// The shape of a type.
#[derive(Debug, PartialEq)]
pub enum Shape {
    /// A product type, with its fields in declaration order.
    Record(Vec<FieldDefinition>),
    /// A sum type: it has no fields to index.
    Enum,
    /// A union: no index metadata is derived from it.
    Union,
}

/// A type definition with its annotations.
#[derive(Debug, PartialEq)]
pub struct TypeDefinition {
    /// The type's own name.
    pub name: String,
    /// The annotations on the type, in the order written.
    pub annotations: Vec<TypeAnnotation>,
    /// Whether the type is a record, and with which fields.
    pub shape: Shape,
}

/// Whether two texts hold the same characters.
fn same_text(left: &str, right: &str) -> (same: bool)
    ensures
        same == (left@ == right@),
{
    String::from_str(left) == String::from_str(right)
}

/// The field annotation that goes by a name; `None` for any other name.
pub open spec fn field_annotation_named(name: Seq<char>) -> Option<FieldAnnotation> {
    if name == "skip_index"@ {
        Some(FieldAnnotation::SkipIndex)
    } else if name == "unique_index"@ {
        Some(FieldAnnotation::UniqueIndex)
    } else if name == "sparse_index"@ {
        Some(FieldAnnotation::SparseIndex)
    } else if name == "index"@ {
        Some(FieldAnnotation::Index)
    } else {
        None
    }
}

/// The kind of type annotation that goes by a name; `None` for any other
/// name.
pub open spec fn annotation_kind_named(name: Seq<char>) -> Option<AnnotationKind> {
    if name == "doc_index"@ {
        Some(AnnotationKind::DocIndex)
    } else if name == "unique_doc_index"@ {
        Some(AnnotationKind::UniqueDocIndex)
    } else if name == "sparse_doc_index"@ {
        Some(AnnotationKind::SparseDocIndex)
    } else if name == "collection_name"@ {
        Some(AnnotationKind::CollectionName)
    } else {
        None
    }
}

impl FieldAnnotation {
    /// The field annotation that is written with the given name.
    pub fn from_name(name: &str) -> (annotation: Option<FieldAnnotation>)
        ensures
            annotation == field_annotation_named(name@),
    {
        if same_text(name, "skip_index") {
            Some(FieldAnnotation::SkipIndex)
        } else if same_text(name, "unique_index") {
            Some(FieldAnnotation::UniqueIndex)
        } else if same_text(name, "sparse_index") {
            Some(FieldAnnotation::SparseIndex)
        } else if same_text(name, "index") {
            Some(FieldAnnotation::Index)
        } else {
            None
        }
    }
}

impl AnnotationKind {
    /// The kind of type annotation that is written with the given name.
    pub fn from_name(name: &str) -> (kind: Option<AnnotationKind>)
        ensures
            kind == annotation_kind_named(name@),
    {
        if same_text(name, "doc_index") {
            Some(AnnotationKind::DocIndex)
        } else if same_text(name, "unique_doc_index") {
            Some(AnnotationKind::UniqueDocIndex)
        } else if same_text(name, "sparse_doc_index") {
            Some(AnnotationKind::SparseDocIndex)
        } else if same_text(name, "collection_name") {
            Some(AnnotationKind::CollectionName)
        } else {
            None
        }
    }
}

/// The characters of an optional string.
pub open spec fn option_text(text: Option<String>) -> Option<Seq<char>> {
    match text {
        Some(text) => Some(text@),
        None => None,
    }
}

impl FieldDefinition {
    /// A field with the given name, without annotations, of a type that
    /// declares no indexes.
    pub fn named(name: &str) -> (field: FieldDefinition)
        ensures
            option_text(field.name) == Some(name@),
            field.annotations@.len() == 0,
            field.nested is None,
    {
        FieldDefinition {
            name: Some(String::from_str(name)),
            annotations: Vec::new(),
            nested: None,
        }
    }

    /// A positional field, without annotations, of a type that declares no
    /// indexes.
    pub fn positional() -> (field: FieldDefinition)
        ensures
            field.name is None,
            field.annotations@.len() == 0,
            field.nested is None,
    {
        FieldDefinition { name: None, annotations: Vec::new(), nested: None }
    }

    /// The field with one more annotation, behind those it has.
    pub fn annotated(self, annotation: FieldAnnotation) -> (field: FieldDefinition)
        ensures
            field.name == self.name,
            field.annotations@ == self.annotations@.push(annotation),
            field.nested == self.nested,
    {
        let mut field = self;
        field.annotations.push(annotation);
        field
    }

    /// The field with `def` as the definition of its type.
    pub fn of_type(self, def: TypeDefinition) -> (field: FieldDefinition)
        ensures
            field.name == self.name,
            field.annotations == self.annotations,
            field.nested == Some(def),
    {
        FieldDefinition { name: self.name, annotations: self.annotations, nested: Some(def) }
    }
}

impl TypeDefinition {
    /// A record type with the given name and fields, without annotations.
    pub fn record(name: &str, fields: Vec<FieldDefinition>) -> (def: TypeDefinition)
        ensures
            def.name@ == name@,
            def.annotations@.len() == 0,
            def.shape == Shape::Record(fields),
    {
        TypeDefinition {
            name: String::from_str(name),
            annotations: Vec::new(),
            shape: Shape::Record(fields),
        }
    }

    /// A sum type with the given name, without annotations.
    pub fn enumeration(name: &str) -> (def: TypeDefinition)
        ensures
            def.name@ == name@,
            def.annotations@.len() == 0,
            def.shape == Shape::Enum,
    {
        TypeDefinition { name: String::from_str(name), annotations: Vec::new(), shape: Shape::Enum }
    }

    /// A union with the given name, without annotations.
    pub fn union(name: &str) -> (def: TypeDefinition)
        ensures
            def.name@ == name@,
            def.annotations@.len() == 0,
            def.shape == Shape::Union,
    {
        TypeDefinition { name: String::from_str(name), annotations: Vec::new(), shape: Shape::Union }
    }

    /// The type with one more annotation, behind those it has.
    pub fn annotated(self, kind: AnnotationKind, payload: Payload) -> (def: TypeDefinition)
        ensures
            def.name == self.name,
            def.annotations@ == self.annotations@.push(TypeAnnotation { kind, payload }),
            def.shape == self.shape,
    {
        let mut def = self;
        def.annotations.push(TypeAnnotation { kind, payload });
        def
    }
}

} // verus!
