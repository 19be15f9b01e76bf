//! Derivation of index metadata from an annotated type definition.

use crate::definition::{
    option_text, AnnotationKind, FieldAnnotation, FieldDefinition, FieldRule, IndexKind, Payload,
    Shape, TypeAnnotation, TypeDefinition,
};
use crate::metadata::{texts, IndexMetadata, IndexMetadataView};
use vstd::prelude::*;
use vstd::string::*;

verus! {

/// Why a type definition yields no metadata.
#[derive(Clone, Copy, Debug, PartialEq, Eq, Structural)]
pub enum DeriveError {
    /// The annotation at `position` declares a document index of `kind`, and
    /// its payload is not a document.
    ExpectedDocument { position: usize, kind: IndexKind },
    /// The annotation at `position` names the collection, and its payload is
    /// not a single identifier.
    ExpectedIdentifier { position: usize },
    /// The type is neither a record nor a sum type.
    UnsupportedShape,
}

/// What an error says of itself.
pub open spec fn message_of(error: DeriveError) -> Seq<char> {
    match error {
        DeriveError::ExpectedDocument { kind: IndexKind::Plain, .. } =>
            "doc_index: expected JSON document"@,
        DeriveError::ExpectedDocument { kind: IndexKind::Unique, .. } =>
            "unique_doc_index: expected JSON document"@,
        DeriveError::ExpectedDocument { kind: IndexKind::Sparse, .. } =>
            "sparse_doc_index: expected JSON document"@,
        DeriveError::ExpectedIdentifier { .. } => "collection_name: should be ident"@,
        DeriveError::UnsupportedShape => "must derive on struct or enum"@,
    }
}

impl DeriveError {
    /// What the error says of itself.
    pub fn message(&self) -> (message: String)
        ensures
            message@ == message_of(*self),
    {
        match self {
            DeriveError::ExpectedDocument { kind: IndexKind::Plain, .. } => String::from_str(
                "doc_index: expected JSON document",
            ),
            DeriveError::ExpectedDocument { kind: IndexKind::Unique, .. } => String::from_str(
                "unique_doc_index: expected JSON document",
            ),
            DeriveError::ExpectedDocument { kind: IndexKind::Sparse, .. } => String::from_str(
                "sparse_doc_index: expected JSON document",
            ),
            DeriveError::ExpectedIdentifier { .. } => String::from_str(
                "collection_name: should be ident",
            ),
            DeriveError::UnsupportedShape => String::from_str("must derive on struct or enum"),
        }
    }
}

/// The path of a nested declaration: the field's name, a dot, the path
/// within the field's type.
pub open spec fn prefixed(name: Seq<char>, path: Seq<char>) -> Seq<char> {
    name + seq!['.'] + path
}

/// Every path of a sequence behind the same field name.
pub open spec fn all_prefixed(name: Seq<char>, paths: Seq<Seq<char>>) -> Seq<Seq<char>> {
    paths.map_values(|path: Seq<char>| prefixed(name, path))
}

/// The one path `name` if the two kinds agree, nothing otherwise.
pub open spec fn own_path(
    name: Seq<char>,
    declared: IndexKind,
    asked: IndexKind,
) -> Seq<Seq<char>> {
    if declared == asked {
        seq![name]
    } else {
        Seq::empty()
    }
}

/// The rule that applies to a field with the given annotations. The
/// annotations are tried in a fixed order, whatever the order they are
/// written in: `SkipIndex` first, then `UniqueIndex`, then `SparseIndex`, then
/// `Index`; a field with none of them is left to its type.
pub open spec fn applicable_rule(annotations: Seq<FieldAnnotation>) -> FieldRule {
    if annotations.contains(FieldAnnotation::SkipIndex) {
        FieldRule::Skipped
    } else if annotations.contains(FieldAnnotation::UniqueIndex) {
        FieldRule::Indexed(IndexKind::Unique)
    } else if annotations.contains(FieldAnnotation::SparseIndex) {
        FieldRule::Indexed(IndexKind::Sparse)
    } else if annotations.contains(FieldAnnotation::Index) {
        FieldRule::Indexed(IndexKind::Plain)
    } else {
        FieldRule::Nested
    }
}

/// The paths of kind `kind` that one field contributes.
pub open spec fn field_paths(field: FieldDefinition, kind: IndexKind) -> Seq<Seq<char>>
    decreases field, 0nat,
{
    match field.name {
        None => Seq::empty(),
        Some(name) => match applicable_rule(field.annotations@) {
            FieldRule::Skipped => Seq::empty(),
            FieldRule::Indexed(declared) => own_path(name@, declared, kind),
            FieldRule::Nested => match field.nested {
                Some(inner) => all_prefixed(name@, type_paths(inner, kind)),
                None => Seq::empty(),
            },
        },
    }
}

/// The paths of kind `kind` that the first `count` fields contribute, in
/// declaration order.
pub open spec fn fields_paths(
    fields: Seq<FieldDefinition>,
    count: nat,
    kind: IndexKind,
) -> Seq<Seq<char>>
    decreases fields, count,
{
    if count == 0 || count > fields.len() {
        Seq::empty()
    } else {
        fields_paths(fields, (count - 1) as nat, kind) + field_paths(fields[count - 1], kind)
    }
}

/// The paths of kind `kind` that a type declares through its fields.
pub open spec fn type_paths(def: TypeDefinition, kind: IndexKind) -> Seq<Seq<char>>
    decreases def, 0nat,
{
    match def.shape {
        Shape::Record(fields) => fields_paths(fields@, fields@.len(), kind),
        Shape::Enum => Seq::empty(),
        Shape::Union => Seq::empty(),
    }
}

/// The bundle of a type that has the given name and declares nothing.
pub open spec fn bare(name: Seq<char>) -> IndexMetadataView {
    IndexMetadataView {
        collection_name: name,
        indexes: Seq::empty(),
        unique_indexes: Seq::empty(),
        sparse_indexes: Seq::empty(),
        doc_indexes: Seq::empty(),
        unique_doc_indexes: Seq::empty(),
        sparse_doc_indexes: Seq::empty(),
    }
}

/// The number of characters that a text may have to be read as an
/// identifier.
pub const MAX_IDENTIFIER_LEN: usize = 256;

/// Whether a character can stand in a word: an ASCII letter, an ASCII digit
/// or the underscore.
pub open spec fn is_word_char(c: char) -> bool {
    ('a' <= c <= 'z') || ('A' <= c <= 'Z') || ('0' <= c <= '9') || c == '_'
}

/// Whether a text is a single word: between one and [`MAX_IDENTIFIER_LEN`]
/// characters, each an ASCII letter, an ASCII digit or the underscore, the
/// first no digit. Nothing else is ever handed to `syn`.
pub open spec fn is_word(text: Seq<char>) -> bool {
    &&& 0 < text.len() <= MAX_IDENTIFIER_LEN
    &&& forall|i: int| 0 <= i < text.len() ==> is_word_char(#[trigger] text[i])
    &&& !('0' <= text[0] <= '9')
}

/// Whether `syn` takes a single word for an identifier, rather than for a
/// keyword or for the lone underscore.
///
/// The name stands for what `syn` answers on the tokens of proc-macro2's own
/// lexer, the one in use outside of a compiler's macro host. A single word
/// has no brackets, quotes or other punctuation to lex: it is one
/// identifier token.
pub uninterp spec fn is_identifier(word: Seq<char>) -> bool;

/// The identifier that a payload consists of: the payload's text as it
/// stands, where it is a single word that `syn` takes for an identifier.
pub open spec fn payload_identifier(payload: Payload) -> Option<Seq<char>> {
    match payload {
        Payload::Text(text) => if is_word(text@) && is_identifier(text@) {
            Some(text@)
        } else {
            None
        },
        _ => None,
    }
}

/// The document that a payload consists of.
pub open spec fn payload_document(payload: Payload) -> Option<mongodb::bson::Document> {
    match payload {
        Payload::Document(document) => Some(document),
        _ => None,
    }
}

/// The bundle after one more annotation of the type, or the reason why the
/// annotation is malformed. `identifier` is what the payload of a collection
/// name reads as; the other kinds ignore it.
pub open spec fn with_annotation(
    bundle: IndexMetadataView,
    annotation: TypeAnnotation,
    position: usize,
    identifier: Option<Seq<char>>,
) -> Result<IndexMetadataView, DeriveError> {
    match annotation.kind {
        AnnotationKind::CollectionName => match identifier {
            Some(name) => Ok(IndexMetadataView { collection_name: name, ..bundle }),
            None => Err(DeriveError::ExpectedIdentifier { position }),
        },
        AnnotationKind::DocIndex => match payload_document(annotation.payload) {
            Some(document) => Ok(
                IndexMetadataView { doc_indexes: bundle.doc_indexes.push(document), ..bundle },
            ),
            None => Err(DeriveError::ExpectedDocument { position, kind: IndexKind::Plain }),
        },
        AnnotationKind::UniqueDocIndex => match payload_document(annotation.payload) {
            Some(document) => Ok(
                IndexMetadataView {
                    unique_doc_indexes: bundle.unique_doc_indexes.push(document),
                    ..bundle
                },
            ),
            None => Err(DeriveError::ExpectedDocument { position, kind: IndexKind::Unique }),
        },
        AnnotationKind::SparseDocIndex => match payload_document(annotation.payload) {
            Some(document) => Ok(
                IndexMetadataView {
                    sparse_doc_indexes: bundle.sparse_doc_indexes.push(document),
                    ..bundle
                },
            ),
            None => Err(DeriveError::ExpectedDocument { position, kind: IndexKind::Sparse }),
        },
    }
}

/// The bundle after the first `count` annotations of a type named `name`,
/// taken in order; the first malformed annotation ends the derivation.
pub open spec fn annotated(
    name: Seq<char>,
    annotations: Seq<TypeAnnotation>,
    count: nat,
) -> Result<IndexMetadataView, DeriveError>
    decreases count,
{
    if count == 0 || count > annotations.len() {
        Ok(bare(name))
    } else {
        match annotated(name, annotations, (count - 1) as nat) {
            Err(error) => Err(error),
            Ok(bundle) => with_annotation(
                bundle,
                annotations[count - 1],
                (count - 1) as usize,
                payload_identifier(annotations[count - 1].payload),
            ),
        }
    }
}

/// What a type definition derives to: the bundle that its annotations give,
/// with the paths that its fields declare. A malformed annotation is
/// reported before the shape of the type is looked at; a union derives to
/// nothing.
pub open spec fn derivation(def: TypeDefinition) -> Result<IndexMetadataView, DeriveError> {
    match annotated(def.name@, def.annotations@, def.annotations@.len()) {
        Err(error) => Err(error),
        Ok(bundle) => if def.shape is Union {
            Err(DeriveError::UnsupportedShape)
        } else {
            Ok(
                IndexMetadataView {
                    indexes: type_paths(def, IndexKind::Plain),
                    unique_indexes: type_paths(def, IndexKind::Unique),
                    sparse_indexes: type_paths(def, IndexKind::Sparse),
                    ..bundle
                },
            )
        },
    }
}

/// The mathematical content of an outcome of the derivation.
pub open spec fn derived_view(
    derived: Result<IndexMetadata, DeriveError>,
) -> Result<IndexMetadataView, DeriveError> {
    match derived {
        Ok(bundle) => Ok(bundle@),
        Err(error) => Err(error),
    }
}

/// `syn::parse_str::<syn::Ident>`, asked only whether it succeeds. It lexes
/// the text, which for a single word gives one identifier token, and then
/// refuses the keywords and the lone underscore. The precondition leaves out
/// every other text: long or nested text, on which building the token
/// buffer recurses without bound, and text that the lexer may fail on.
#[verifier::external_body]
fn parses_as_identifier(text: &str) -> (accepted: bool)
    requires
        is_word(text@),
    ensures
        accepted == is_identifier(text@),
{
    syn::parse_str::<syn::Ident>(text).is_ok()
}

/// Whether a byte is an ASCII digit.
fn is_digit_byte(byte: u8) -> (digit: bool)
    ensures
        digit == (48 <= byte <= 57),
{
    byte >= 48 && byte <= 57
}

/// Whether a byte is an ASCII letter, an ASCII digit or the underscore.
fn is_word_byte(byte: u8) -> (word: bool)
    ensures
        word == ((97 <= byte <= 122) || (65 <= byte <= 90) || (48 <= byte <= 57) || byte == 95),
{
    (byte >= 97 && byte <= 122) || (byte >= 65 && byte <= 90) || is_digit_byte(byte) || byte == 95
}

/// Whether a text is a single word.
pub fn is_single_word(text: &str) -> (word: bool)
    ensures
        word == is_word(text@),
{
    if !text.is_ascii() {
        proof {
            if is_word(text@) {
                assert forall|i: int| 0 <= i < text@.len() implies '\0' <= #[trigger] text@[i]
                    <= '\u{7f}' by {
                    assert(is_word_char(text@[i]));
                }
            }
        }
        return false;
    }
    let bytes = text.as_bytes();
    let len = bytes.len();
    proof {
        is_ascii_spec_bytes(text);
    }
    if len == 0 || len > MAX_IDENTIFIER_LEN {
        return false;
    }
    if is_digit_byte(bytes[0]) {
        return false;
    }
    let mut i: usize = 0;
    while i < len
        invariant
            i <= len,
            len == text@.len(),
            len == bytes@.len(),
            text.is_ascii(),
            forall|j: int| 0 <= j < len ==> bytes@[j] == text@[j] as u8,
            forall|j: int| 0 <= j < i ==> is_word_char(#[trigger] text@[j]),
        decreases len - i,
    {
        if !is_word_byte(bytes[i]) {
            assert(!is_word_char(text@[i as int]));
            return false;
        }
        i += 1;
    }
    true
}

/// Whether `wanted` is among the annotations of a field.
fn has_annotation(annotations: &Vec<FieldAnnotation>, wanted: FieldAnnotation) -> (found: bool)
    ensures
        found == annotations@.contains(wanted),
{
    let mut i: usize = 0;
    while i < annotations.len()
        invariant
            i <= annotations.len(),
            forall|j: int| 0 <= j < i ==> annotations@[j] != wanted,
        decreases annotations.len() - i,
    {
        if annotations[i] == wanted {
            return true;
        }
        i += 1;
    }
    false
}

/// The rule that applies to a field with the given annotations.
pub fn rule_of(annotations: &Vec<FieldAnnotation>) -> (rule: FieldRule)
    ensures
        rule == applicable_rule(annotations@),
{
    if has_annotation(annotations, FieldAnnotation::SkipIndex) {
        FieldRule::Skipped
    } else if has_annotation(annotations, FieldAnnotation::UniqueIndex) {
        FieldRule::Indexed(IndexKind::Unique)
    } else if has_annotation(annotations, FieldAnnotation::SparseIndex) {
        FieldRule::Indexed(IndexKind::Sparse)
    } else if has_annotation(annotations, FieldAnnotation::Index) {
        FieldRule::Indexed(IndexKind::Plain)
    } else {
        FieldRule::Nested
    }
}

/// `name`, a dot, `path`.
fn prefix_path(name: &String, path: &String) -> (joined: String)
    ensures
        joined@ == prefixed(name@, path@),
{
    let mut joined = name.clone();
    joined.append(".");
    joined.append(path.as_str());
    proof {
        reveal_strlit(".");
        assert("."@ =~= seq!['.']);
    }
    joined
}

/// Appends to `paths` the paths of `nested`, each behind `name` and a dot.
fn push_prefixed(name: &String, nested: &Vec<String>, paths: &mut Vec<String>)
    ensures
        texts(final(paths)@) == texts(old(paths)@) + all_prefixed(name@, texts(nested@)),
{
    let ghost before = texts(paths@);
    let ghost all = all_prefixed(name@, texts(nested@));
    let mut i: usize = 0;
    assert(texts(paths@) =~= before + all.take(0));
    while i < nested.len()
        invariant
            i <= nested.len(),
            all == all_prefixed(name@, texts(nested@)),
            texts(paths@) == before + all.take(i as int),
        decreases nested.len() - i,
    {
        let joined = prefix_path(name, &nested[i]);
        let ghost prior = paths@;
        paths.push(joined);
        proof {
            assert(texts(paths@) =~= texts(prior).push(joined@));
            assert(all.take(i + 1) =~= all.take(i as int).push(joined@));
        }
        i += 1;
    }
    assert(all.take(nested.len() as int) =~= all);
}

/// Appends to `paths` what one field contributes to the paths of kind `kind`.
fn push_field_paths(field: &FieldDefinition, kind: IndexKind, paths: &mut Vec<String>)
    ensures
        texts(final(paths)@) == texts(old(paths)@) + field_paths(*field, kind),
    decreases field, 0nat,
{
    let ghost before = texts(paths@);
    match &field.name {
        None => {},
        Some(name) => match rule_of(&field.annotations) {
            FieldRule::Skipped => {},
            FieldRule::Indexed(declared) => {
                if declared == kind {
                    paths.push(name.clone());
                }
            },
            FieldRule::Nested => match &field.nested {
                Some(inner) => {
                    let nested = field_index_paths(inner, kind);
                    push_prefixed(name, &nested, paths);
                },
                None => {},
            },
        },
    }
    assert(texts(paths@) =~= before + field_paths(*field, kind));
}

/// The paths of kind `kind` that a type declares through its fields, in
/// declaration order, with the declarations of nested types behind the name
/// of the field that holds them.
pub fn field_index_paths(def: &TypeDefinition, kind: IndexKind) -> (paths: Vec<String>)
    ensures
        texts(paths@) == type_paths(*def, kind),
    decreases def, 1nat,
{
    let mut paths: Vec<String> = Vec::new();
    match &def.shape {
        Shape::Enum => {},
        Shape::Union => {},
        Shape::Record(fields) => {
            let mut i: usize = 0;
            while i < fields.len()
                invariant
                    i <= fields.len(),
                    def.shape == Shape::Record(*fields),
                    texts(paths@) == fields_paths(fields@, i as nat, kind),
                decreases fields.len() - i,
            {
                assert(def.shape->Record_0 == *fields);
                push_field_paths(&fields[i], kind, &mut paths);
                i += 1;
            }
        },
    }
    assert(texts(paths@) =~= type_paths(*def, kind));
    paths
}

/// Folds one annotation of a type into the bundle built from the annotations
/// before it. `identifier` is what the annotation's payload reads as where
/// the annotation names the collection; the other kinds ignore it.
pub fn apply_annotation(
    bundle: IndexMetadata,
    annotation: &TypeAnnotation,
    position: usize,
    identifier: Option<String>,
) -> (applied: Result<IndexMetadata, DeriveError>)
    ensures
        derived_view(applied) == with_annotation(
            bundle@,
            *annotation,
            position,
            option_text(identifier),
        ),
{
    let mut bundle = bundle;
    match annotation.kind {
        AnnotationKind::CollectionName => match identifier {
            Some(name) => {
                bundle.collection_name = name;
                Ok(bundle)
            },
            None => Err(DeriveError::ExpectedIdentifier { position }),
        },
        AnnotationKind::DocIndex => match &annotation.payload {
            Payload::Document(document) => {
                bundle.doc_indexes.push(document.clone());
                Ok(bundle)
            },
            _ => Err(DeriveError::ExpectedDocument { position, kind: IndexKind::Plain }),
        },
        AnnotationKind::UniqueDocIndex => match &annotation.payload {
            Payload::Document(document) => {
                bundle.unique_doc_indexes.push(document.clone());
                Ok(bundle)
            },
            _ => Err(DeriveError::ExpectedDocument { position, kind: IndexKind::Unique }),
        },
        AnnotationKind::SparseDocIndex => match &annotation.payload {
            Payload::Document(document) => {
                bundle.sparse_doc_indexes.push(document.clone());
                Ok(bundle)
            },
            _ => Err(DeriveError::ExpectedDocument { position, kind: IndexKind::Sparse }),
        },
    }
}

/// What the payload of a collection name annotation reads as; `None` for
/// the annotations of the other kinds.
fn read_identifier(annotation: &TypeAnnotation) -> (identifier: Option<String>)
    ensures
        annotation.kind == AnnotationKind::CollectionName ==> option_text(identifier)
            == payload_identifier(annotation.payload),
{
    match annotation.kind {
        AnnotationKind::CollectionName => match &annotation.payload {
            Payload::Text(text) => {
                if !is_single_word(text.as_str()) {
                    None
                } else if parses_as_identifier(text.as_str()) {
                    Some(text.clone())
                } else {
                    None
                }
            },
            _ => None,
        },
        _ => None,
    }
}

/// Once an annotation is malformed, the annotations behind it change nothing.
proof fn lemma_error_stays(
    name: Seq<char>,
    annotations: Seq<TypeAnnotation>,
    failed: nat,
    count: nat,
)
    requires
        failed <= count <= annotations.len(),
        annotated(name, annotations, failed) is Err,
    ensures
        annotated(name, annotations, count) == annotated(name, annotations, failed),
    decreases count,
{
    if failed < count {
        lemma_error_stays(name, annotations, failed, (count - 1) as nat);
    }
}

/// Derives the index metadata of a type from its definition.
///
/// The annotations on the type are taken in the order written: a document
/// index joins the documents of its kind, a collection name replaces the
/// type's own name, and the first malformed annotation ends the derivation.
/// A union is refused. The paths are those that the fields declare, in
/// declaration order.
pub fn derive_indexed(def: &TypeDefinition) -> (derived: Result<IndexMetadata, DeriveError>)
    ensures
        derived_view(derived) == derivation(*def),
{
    let mut bundle = IndexMetadata {
        collection_name: def.name.clone(),
        indexes: Vec::new(),
        unique_indexes: Vec::new(),
        sparse_indexes: Vec::new(),
        doc_indexes: Vec::new(),
        unique_doc_indexes: Vec::new(),
        sparse_doc_indexes: Vec::new(),
    };
    assert(bundle@ =~= bare(def.name@));
    let mut i: usize = 0;
    while i < def.annotations.len()
        invariant
            i <= def.annotations.len(),
            annotated(def.name@, def.annotations@, i as nat) == Ok::<IndexMetadataView, DeriveError>(
                bundle@,
            ),
        decreases def.annotations.len() - i,
    {
        let annotation = &def.annotations[i];
        let identifier = read_identifier(annotation);
        match apply_annotation(bundle, annotation, i, identifier) {
            Ok(next) => {
                bundle = next;
            },
            Err(error) => {
                proof {
                    lemma_error_stays(
                        def.name@,
                        def.annotations@,
                        (i + 1) as nat,
                        def.annotations@.len(),
                    );
                }
                return Err(error);
            },
        }
        i += 1;
    }
    match &def.shape {
        Shape::Union => {
            return Err(DeriveError::UnsupportedShape);
        },
        _ => {},
    }
    bundle.indexes = field_index_paths(def, IndexKind::Plain);
    bundle.unique_indexes = field_index_paths(def, IndexKind::Unique);
    bundle.sparse_indexes = field_index_paths(def, IndexKind::Sparse);
    Ok(bundle)
}

/// All the paths of kind `kind` that a sequence of fields contributes.
pub open spec fn all_fields_paths(fields: Seq<FieldDefinition>, kind: IndexKind) -> Seq<Seq<char>> {
    fields_paths(fields, fields.len(), kind)
}

/// The first fields of a sequence contribute the same whatever follows them.
proof fn lemma_fields_paths_of_prefix(
    front: Seq<FieldDefinition>,
    back: Seq<FieldDefinition>,
    count: nat,
    kind: IndexKind,
)
    requires
        count <= front.len(),
    ensures
        fields_paths(front + back, count, kind) == fields_paths(front, count, kind),
    decreases count,
{
    if count > 0 {
        lemma_fields_paths_of_prefix(front, back, (count - 1) as nat, kind);
        assert((front + back)[count - 1] == front[count - 1]);
    }
}

/// The fields that follow a sequence contribute behind it what they
/// contribute alone.
proof fn lemma_fields_paths_of_suffix(
    front: Seq<FieldDefinition>,
    back: Seq<FieldDefinition>,
    count: nat,
    kind: IndexKind,
)
    requires
        count <= back.len(),
    ensures
        fields_paths(front + back, front.len() + count, kind) == all_fields_paths(front, kind)
            + fields_paths(back, count, kind),
    decreases count,
{
    if count == 0 {
        lemma_fields_paths_of_prefix(front, back, front.len(), kind);
        assert(all_fields_paths(front, kind) + fields_paths(back, 0, kind) =~= all_fields_paths(
            front,
            kind,
        ));
    } else {
        lemma_fields_paths_of_suffix(front, back, (count - 1) as nat, kind);
        assert((front + back)[front.len() + count - 1] == back[count - 1]);
        assert(fields_paths(front + back, front.len() + count, kind) =~= all_fields_paths(
            front,
            kind,
        ) + fields_paths(back, count, kind));
    }
}

/// What two sequences of fields contribute one after the other is what the
/// first contributes, then what the second contributes.
pub proof fn lemma_fields_paths_concat(
    front: Seq<FieldDefinition>,
    back: Seq<FieldDefinition>,
    kind: IndexKind,
)
    ensures
        all_fields_paths(front + back, kind) == all_fields_paths(front, kind) + all_fields_paths(
            back,
            kind,
        ),
{
    lemma_fields_paths_of_suffix(front, back, back.len(), kind);
}

/// A field marked `SkipIndex` contributes nothing, whatever its other
/// annotations and whatever its type declares: the fields contribute the
/// same paths, of every kind, as they would without it.
pub proof fn lemma_skipped_field_contributes_nothing(
    fields: Seq<FieldDefinition>,
    skipped: int,
    kind: IndexKind,
)
    requires
        0 <= skipped < fields.len(),
        fields[skipped].annotations@.contains(FieldAnnotation::SkipIndex),
    ensures
        field_paths(fields[skipped], kind) == Seq::<Seq<char>>::empty(),
        all_fields_paths(fields, kind) == all_fields_paths(fields.remove(skipped), kind),
{
    let front = fields.take(skipped);
    let one = seq![fields[skipped]];
    let back = fields.skip(skipped + 1);
    assert(fields =~= front + one + back);
    assert(fields.remove(skipped) =~= front + back);
    lemma_fields_paths_concat(front + one, back, kind);
    lemma_fields_paths_concat(front, one, kind);
    lemma_fields_paths_concat(front, back, kind);
    assert(all_fields_paths(one, kind) =~= field_paths(fields[skipped], kind)) by {
        assert(fields_paths(one, 0, kind) =~= Seq::<Seq<char>>::empty());
    }
    assert(all_fields_paths(front, kind) + Seq::<Seq<char>>::empty() =~= all_fields_paths(
        front,
        kind,
    ));
}

/// A field marked `SkipIndex` appears in no path: a record declares the same
/// paths, of every kind, as the record without the field.
pub proof fn lemma_skipped_field_is_absent(
    def: TypeDefinition,
    without: TypeDefinition,
    skipped: int,
    kind: IndexKind,
)
    requires
        def.shape is Record,
        without.shape is Record,
        0 <= skipped < def.shape->Record_0@.len(),
        def.shape->Record_0@[skipped].annotations@.contains(FieldAnnotation::SkipIndex),
        without.shape->Record_0@ == def.shape->Record_0@.remove(skipped),
    ensures
        type_paths(def, kind) == type_paths(without, kind),
{
    lemma_skipped_field_contributes_nothing(def.shape->Record_0@, skipped, kind);
}

/// A direct annotation always wins over the field's type: a named field
/// with an annotation of its own contributes its own name under the kind
/// that the annotation gives it, or nothing where it is skipped, and what
/// its type declares plays no part.
pub proof fn lemma_direct_annotation_wins(
    field: FieldDefinition,
    other: Option<TypeDefinition>,
    kind: IndexKind,
)
    requires
        field.name is Some,
        applicable_rule(field.annotations@) != FieldRule::Nested,
    ensures
        field_paths(field, kind) == field_paths(FieldDefinition { nested: other, ..field }, kind),
        field_paths(field, kind) == match applicable_rule(field.annotations@) {
            FieldRule::Indexed(declared) => own_path(field.name->0@, declared, kind),
            _ => Seq::<Seq<char>>::empty(),
        },
{
}

/// A named field without an annotation of its own contributes what its type
/// declares, each path behind the field's name and a dot.
pub proof fn lemma_nested_paths_are_prefixed(field: FieldDefinition, kind: IndexKind)
    requires
        field.name is Some,
        applicable_rule(field.annotations@) == FieldRule::Nested,
        field.nested is Some,
    ensures
        field_paths(field, kind) == all_prefixed(
            field.name->0@,
            type_paths(field.nested->0, kind),
        ),
{
}

/// A sum type declares no field path, whatever its annotations: all it can
/// declare are document indexes.
pub proof fn lemma_enum_declares_no_paths(def: TypeDefinition, kind: IndexKind)
    requires
        def.shape is Enum,
    ensures
        type_paths(def, kind) == Seq::<Seq<char>>::empty(),
        derivation(def) matches Ok(bundle) ==> bundle.indexes.len() == 0
            && bundle.unique_indexes.len() == 0 && bundle.sparse_indexes.len() == 0,
{
}

} // verus!
