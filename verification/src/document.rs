//! The BSON document type that index shapes are written in.

use vstd::prelude::*;

verus! {

/// `mongodb::bson::Document`: a BSON document, an insertion-ordered map from
/// string keys to BSON values. The library passes documents on and builds
/// single-key ones; it never looks inside one.
#[verifier::external_type_specification]
#[verifier::external_body]
pub struct ExDocument(mongodb::bson::Document);

/// The entries of a document in insertion order: each key with the number
/// that its value holds where the value is a 32-bit integer (for a value of
/// another type the number is left open).
pub uninterp spec fn document_entries(document: mongodb::bson::Document) -> Seq<(Seq<char>, int)>;

/// `Clone::clone` of `mongodb::bson::Document`, which is derived: the copy has
/// the same entries in the same order, so it is the same document.
pub assume_specification[ <mongodb::bson::Document as Clone>::clone ](
    document: &mongodb::bson::Document,
) -> (copy: mongodb::bson::Document)
    ensures
        copy == *document,
;

/// `Document::new`: a document without entries.
#[verifier::external_body]
pub(crate) fn document_new() -> (document: mongodb::bson::Document)
    ensures
        document_entries(document) == Seq::<(Seq<char>, int)>::empty(),
{
    mongodb::bson::Document::new()
}

/// `Document::insert` with a 32-bit integer as the value. The document keeps
/// its entries in an `IndexMap`, whose `insert` puts a new key last in order.
/// (For a key that is there already it would replace the value in place: the
/// precondition leaves that case out.)
#[verifier::external_body]
pub(crate) fn document_insert(document: &mut mongodb::bson::Document, key: &str, value: i32)
    requires
        forall|i: int|
            0 <= i < document_entries(*old(document)).len() ==> (#[trigger] document_entries(
                *old(document),
            )[i]).0 != key@,
    ensures
        document_entries(*final(document)) == document_entries(*old(document)).push(
            (key@, value as int),
        ),
{
    document.insert(key, value);
}

} // verus!
